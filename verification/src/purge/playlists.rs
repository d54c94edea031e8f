use vstd::prelude::*;
use vstd::string::*;
use crate::bulk::{bulk_requests, chunks, spec_bulk_requests, spec_chunks, BulkKind};
use crate::error::{Error, ErrorView};
use crate::http::{spec_authorization, BodyView, Method, MutationRequestView};
use crate::text::spec_join;
use crate::model::result_view;
use crate::purge::{PurgePlan, PurgePlanView};
use crate::types::{
    spec_text_or_empty, Playlist, PlaylistEntry, PlaylistEntryView, PlaylistView,
};

verus! {

/// The playlist an entry of the listing stands for, if the entry has an
/// identifier. A name that is missing is the empty string.
pub open spec fn spec_entry_playlist(entry: PlaylistEntryView) -> Option<PlaylistView> {
    match entry.id {
        Some(id) => Some(PlaylistView { id, name: spec_text_or_empty(entry.name) }),
        None => None,
    }
}

/// The playlists to unfollow for a listing: those of the entries that have
/// an identifier, in listing order.
pub open spec fn spec_purge_playlists_picked(entries: Seq<PlaylistEntryView>) -> Seq<PlaylistView>
    decreases entries.len(),
{
    if entries.len() == 0 {
        Seq::empty()
    } else {
        let before = spec_purge_playlists_picked(entries.drop_last());
        match spec_entry_playlist(entries.last()) {
            Some(playlist) => before.push(playlist),
            None => before,
        }
    }
}

/// The identifiers of the playlists, in order.
pub open spec fn spec_playlist_ids(playlists: Seq<PlaylistView>) -> Seq<Seq<char>> {
    playlists.map_values(|playlist: PlaylistView| playlist.id)
}

/// The names of the entries of a listing, in listing order; a name that is
/// missing is the empty string.
pub open spec fn spec_entry_names(entries: Seq<PlaylistEntryView>) -> Seq<Seq<char>> {
    entries.map_values(|entry: PlaylistEntryView| spec_text_or_empty(entry.name))
}

/// The plan for a listing of playlists. Without `force` it lists the name
/// of every entry, in listing order. With it, the playlists that have an
/// identifier are unfollowed one by one, one deletion per playlist. Either
/// way the entries without an identifier are counted as skipped. There is
/// no plan for requests with a token that cannot stand in a header.
pub open spec fn spec_purge_playlists(
    access_token: Seq<char>,
    entries: Seq<PlaylistEntryView>,
    force: bool,
) -> Result<PurgePlanView, ErrorView> {
    let picked = spec_purge_playlists_picked(entries);
    let skipped = (entries.len() - picked.len()) as nat;
    if force {
        match spec_bulk_requests(
            BulkKind::UnfollowPlaylist,
            access_token,
            spec_chunks(spec_playlist_ids(picked), 1),
        ) {
            Ok(requests) => Ok(PurgePlanView::Apply { requests, skipped }),
            Err(error) => Err(error),
        }
    } else {
        Ok(PurgePlanView::DryRun { listed: spec_entry_names(entries), skipped })
    }
}

/// Picks the playlists that a listing names, skipping the entries without
/// an identifier.
pub fn pick_playlists(entries: &Vec<PlaylistEntry>) -> (picked: Vec<Playlist>)
    ensures
        picked.deep_view() == spec_purge_playlists_picked(entries.deep_view()),
        picked.len() <= entries.len(),
{
    let mut picked: Vec<Playlist> = Vec::new();
    let mut i: usize = 0;
    while i < entries.len()
        invariant
            i <= entries.len(),
            picked.len() <= i,
            picked.deep_view() == spec_purge_playlists_picked(entries.deep_view().take(i as int)),
        decreases entries.len() - i,
    {
        proof {
            let all = entries.deep_view();
            assert(all.take(i + 1).drop_last() =~= all.take(i as int));
            assert(all.take(i + 1).last() == entries[i as int].deep_view());
        }
        match &entries[i].id {
            Some(id) => {
                let name = match &entries[i].name {
                    Some(name) => name.clone(),
                    None => String::new(),
                };
                let ghost before = picked.deep_view();
                let playlist = Playlist { id: id.clone(), name };
                let ghost added = playlist.deep_view();
                picked.push(playlist);
                assert(picked.deep_view() =~= before.push(added));
            },
            None => {},
        }
        i += 1;
    }
    proof {
        assert(entries.deep_view().take(entries.len() as int) =~= entries.deep_view());
    }
    picked
}

fn entry_names(entries: &Vec<PlaylistEntry>) -> (names: Vec<String>)
    ensures
        names.deep_view() == spec_entry_names(entries.deep_view()),
{
    let mut names: Vec<String> = Vec::new();
    let mut i: usize = 0;
    while i < entries.len()
        invariant
            i <= entries.len(),
            names.len() == i,
            forall|k: int|
                0 <= k < i ==> #[trigger] names.deep_view()[k] == spec_text_or_empty(
                    entries.deep_view()[k].name,
                ),
        decreases entries.len() - i,
    {
        let name = match &entries[i].name {
            Some(name) => name.clone(),
            None => String::new(),
        };
        let ghost before = names.deep_view();
        names.push(name);
        assert(names.deep_view() =~= before.push(name@));
        i += 1;
    }
    assert(names.deep_view() =~= spec_entry_names(entries.deep_view()));
    names
}

fn playlist_ids(playlists: &Vec<Playlist>) -> (ids: Vec<String>)
    ensures
        ids.deep_view() == spec_playlist_ids(playlists.deep_view()),
{
    let mut ids: Vec<String> = Vec::new();
    let mut i: usize = 0;
    while i < playlists.len()
        invariant
            i <= playlists.len(),
            ids.len() == i,
            forall|k: int|
                0 <= k < i ==> #[trigger] ids.deep_view()[k] == playlists.deep_view()[k].id,
        decreases playlists.len() - i,
    {
        let ghost before = ids.deep_view();
        let id = playlists[i].id.clone();
        ids.push(id);
        assert(ids.deep_view() =~= before.push(id@));
        i += 1;
    }
    assert(ids.deep_view() =~= spec_playlist_ids(playlists.deep_view()));
    ids
}

/// Plans the unfollowing of all playlists, once they have all been listed.
/// A dry run lists every name; a forced run skips the entries without an
/// identifier.
pub fn purge_playlists(access_token: &str, entries: &Vec<PlaylistEntry>, force: bool) -> (plan:
    Result<PurgePlan, Error>)
    ensures
        result_view(plan) == spec_purge_playlists(access_token@, entries.deep_view(), force),
{
    let playlists = pick_playlists(entries);
    let skipped = entries.len() - playlists.len();
    if force {
        let ids = playlist_ids(&playlists);
        let parts = chunks(&ids, 1);
        match bulk_requests(BulkKind::UnfollowPlaylist, access_token, &parts) {
            Ok(requests) => Ok(PurgePlan::Apply { requests, skipped }),
            Err(error) => Err(error),
        }
    } else {
        Ok(PurgePlan::DryRun { listed: entry_names(entries), skipped })
    }
}

/// The URL at which a playlist is unfollowed.
pub open spec fn spec_unfollow_url(playlist_id: Seq<char>) -> Seq<char> {
    "https://api.spotify.com/v1/playlists/"@ + playlist_id + "/followers"@
}

/// The URL at which a playlist is unfollowed.
pub fn unfollow_url(playlist_id: &str) -> (url: String)
    ensures
        url@ == spec_unfollow_url(playlist_id@),
{
    let mut url = String::from_str("https://api.spotify.com/v1/playlists/");
    url.append(playlist_id);
    url.append("/followers");
    url
}

/// A forced purge makes one request per playlist picked, in their order,
/// and each deletes the follower relation of exactly that playlist.
pub proof fn lemma_unfollows_each_playlist(access_token: Seq<char>, ids: Seq<Seq<char>>, i: int)
    requires
        spec_authorization(access_token) is Ok,
        0 <= i < ids.len(),
    ensures
        ({
            let requests = spec_bulk_requests(
                BulkKind::UnfollowPlaylist,
                access_token,
                spec_chunks(ids, 1),
            );
            &&& requests is Ok
            &&& requests->Ok_0.len() == ids.len()
            &&& requests->Ok_0[i] == (MutationRequestView {
                method: Method::Delete,
                url: spec_unfollow_url(ids[i]),
                authorization: spec_authorization(access_token)->Ok_0,
                body: BodyView::Empty,
            })
        }),
{
    let chunks = spec_chunks(ids, 1);
    assert(chunks.len() == ids.len());
    assert(chunks[i] =~= seq![ids[i]]);
    assert(spec_join(chunks[i], ","@) == ids[i]);
}

} // verus!
