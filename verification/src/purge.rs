use vstd::prelude::*;
use crate::bulk::RequestQueue;
use crate::http::MutationRequestView;

pub mod playlists;
pub mod saved_tracks;

verus! {

/// What a purge comes to once the collection has been read. Entries of the
/// listing that name nothing to delete are left alone and counted as
/// `skipped`.
pub enum PurgePlan {
    /// Nothing is deleted; `listed` names what would have been.
    DryRun { listed: Vec<String>, skipped: usize },
    /// The deletions are sent, one request after the other.
    Apply { requests: RequestQueue, skipped: usize },
}

/// The model of a [`PurgePlan`].
pub enum PurgePlanView {
    DryRun { listed: Seq<Seq<char>>, skipped: nat },
    Apply { requests: Seq<MutationRequestView>, skipped: nat },
}

impl DeepView for PurgePlan {
    type V = PurgePlanView;

    open spec fn deep_view(&self) -> PurgePlanView {
        match *self {
            PurgePlan::DryRun { listed, skipped } => PurgePlanView::DryRun {
                listed: listed.deep_view(),
                skipped: skipped as nat,
            },
            PurgePlan::Apply { requests, skipped } => PurgePlanView::Apply {
                requests: requests.deep_view(),
                skipped: skipped as nat,
            },
        }
    }
}

} // verus!
