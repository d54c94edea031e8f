use vstd::prelude::*;
use crate::bulk::{
    bulk_requests, chunks, spec_bulk_requests, spec_chunks, BulkKind, LIBRARY_CHUNK_SIZE,
};
use crate::error::{Error, ErrorView};
use crate::model::result_view;
use crate::purge::{PurgePlan, PurgePlanView};
use crate::types::{TrackEntry, TrackEntryView};

verus! {

/// The identifier of the track an entry of the listing stands for, if the
/// entry has a track and the track has an identifier.
pub open spec fn spec_entry_track_id(entry: TrackEntryView) -> Option<Seq<char>> {
    match entry.track {
        Some(track) => track.id,
        None => None,
    }
}

/// The identifiers to remove for a listing: those of the entries that have
/// one, in listing order.
pub open spec fn spec_purge_track_ids(entries: Seq<TrackEntryView>) -> Seq<Seq<char>>
    decreases entries.len(),
{
    if entries.len() == 0 {
        Seq::empty()
    } else {
        let before = spec_purge_track_ids(entries.drop_last());
        match spec_entry_track_id(entries.last()) {
            Some(id) => before.push(id),
            None => before,
        }
    }
}

/// How many entries of a listing have no identifier to remove.
pub open spec fn spec_purge_skipped(entries: Seq<TrackEntryView>) -> nat
    decreases entries.len(),
{
    if entries.len() == 0 {
        0
    } else {
        let before = spec_purge_skipped(entries.drop_last());
        if spec_entry_track_id(entries.last()) is None {
            before + 1
        } else {
            before
        }
    }
}

/// The plan for a listing of saved tracks: without `force`, the identifiers
/// that would be removed; with it, one deletion per chunk of
/// [`LIBRARY_CHUNK_SIZE`] of the same identifiers. Either way the entries
/// without an identifier are counted and otherwise left out. There is no
/// plan for requests with a token that cannot stand in a header.
pub open spec fn spec_purge_saved_tracks(
    access_token: Seq<char>,
    entries: Seq<TrackEntryView>,
    force: bool,
) -> Result<PurgePlanView, ErrorView> {
    if force {
        match spec_bulk_requests(
            BulkKind::RemoveTracks,
            access_token,
            spec_chunks(spec_purge_track_ids(entries), LIBRARY_CHUNK_SIZE as nat),
        ) {
            Ok(requests) => Ok(
                PurgePlanView::Apply { requests, skipped: spec_purge_skipped(entries) },
            ),
            Err(error) => Err(error),
        }
    } else {
        Ok(
            PurgePlanView::DryRun {
                listed: spec_purge_track_ids(entries),
                skipped: spec_purge_skipped(entries),
            },
        )
    }
}

/// Plans the removal of all saved tracks, once they have all been listed.
/// An entry without a track, or whose track has no identifier, is skipped.
pub fn purge_saved_tracks(access_token: &str, entries: &Vec<TrackEntry>, force: bool) -> (plan:
    Result<PurgePlan, Error>)
    ensures
        result_view(plan) == spec_purge_saved_tracks(access_token@, entries.deep_view(), force),
        spec_purge_track_ids(entries.deep_view()).len() + spec_purge_skipped(entries.deep_view())
            == entries.len(),
{
    let mut ids: Vec<String> = Vec::new();
    let mut skipped: usize = 0;
    let mut i: usize = 0;
    while i < entries.len()
        invariant
            i <= entries.len(),
            ids.deep_view() == spec_purge_track_ids(entries.deep_view().take(i as int)),
            skipped == spec_purge_skipped(entries.deep_view().take(i as int)),
            ids.len() + skipped == i,
        decreases entries.len() - i,
    {
        proof {
            let all = entries.deep_view();
            assert(all.take(i + 1).drop_last() =~= all.take(i as int));
            assert(all.take(i + 1).last() == entries[i as int].deep_view());
        }
        let id = match &entries[i].track {
            Some(track) => match &track.id {
                Some(id) => Some(id.clone()),
                None => None,
            },
            None => None,
        };
        match id {
            Some(id) => {
                let ghost before = ids.deep_view();
                ids.push(id);
                assert(ids.deep_view() =~= before.push(id@));
            },
            None => {
                skipped += 1;
            },
        }
        i += 1;
    }
    proof {
        assert(entries.deep_view().take(entries.len() as int) =~= entries.deep_view());
    }
    if force {
        let parts = chunks(&ids, LIBRARY_CHUNK_SIZE);
        match bulk_requests(BulkKind::RemoveTracks, access_token, &parts) {
            Ok(requests) => Ok(PurgePlan::Apply { requests, skipped }),
            Err(error) => Err(error),
        }
    } else {
        Ok(PurgePlan::DryRun { listed: ids, skipped })
    }
}

} // verus!
