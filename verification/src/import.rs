use vstd::prelude::*;
use crate::bulk::RequestQueue;
use crate::http::MutationRequestView;

pub mod playlists;
pub mod saved_tracks;

verus! {

/// The column of an export row that holds the track identifier.
pub const ID_COLUMN: usize = 4;

/// The track identifiers in the records of an export file: the fifth field
/// of every record that has one, in record order.
pub open spec fn spec_track_ids(records: Seq<Seq<Seq<char>>>) -> Seq<Seq<char>>
    decreases records.len(),
{
    if records.len() == 0 {
        Seq::empty()
    } else {
        let before = spec_track_ids(records.drop_last());
        if records.last().len() > ID_COLUMN {
            before.push(records.last()[ID_COLUMN as int])
        } else {
            before
        }
    }
}

/// Reads the track identifiers off the records of an export file.
pub fn track_ids(records: &Vec<Vec<String>>) -> (ids: Vec<String>)
    ensures
        ids.deep_view() == spec_track_ids(records.deep_view()),
{
    let mut ids: Vec<String> = Vec::new();
    let mut i: usize = 0;
    while i < records.len()
        invariant
            i <= records.len(),
            ids.deep_view() == spec_track_ids(records.deep_view().take(i as int)),
        decreases records.len() - i,
    {
        proof {
            let all = records.deep_view();
            assert(all.take(i + 1).drop_last() =~= all.take(i as int));
            assert(all.take(i + 1).last() == records[i as int].deep_view());
        }
        if records[i].len() > ID_COLUMN {
            let ghost before = ids.deep_view();
            ids.push(records[i][ID_COLUMN].clone());
            assert(ids.deep_view() =~= before.push(records[i as int][ID_COLUMN as int]@));
        }
        i += 1;
    }
    proof {
        assert(records.deep_view().take(records.len() as int) =~= records.deep_view());
    }
    ids
}

/// What an import comes to once its file has been read.
pub enum ImportPlan {
    /// Nothing is sent; `count` tracks would have been imported.
    DryRun { count: usize },
    /// The tracks are sent, one request per chunk.
    Apply(RequestQueue),
}

/// The model of an [`ImportPlan`].
pub enum ImportPlanView {
    DryRun { count: nat },
    Apply(Seq<MutationRequestView>),
}

impl DeepView for ImportPlan {
    type V = ImportPlanView;

    open spec fn deep_view(&self) -> ImportPlanView {
        match *self {
            ImportPlan::DryRun { count } => ImportPlanView::DryRun { count: count as nat },
            ImportPlan::Apply(requests) => ImportPlanView::Apply(requests.deep_view()),
        }
    }
}

} // verus!
