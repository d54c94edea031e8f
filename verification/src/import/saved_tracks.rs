use vstd::prelude::*;
use vstd::string::*;
use crate::bulk::{
    bulk_requests, chunks, spec_bulk_requests, spec_chunks, BulkKind, LIBRARY_CHUNK_SIZE,
};
use crate::error::{Error, ErrorView};
use crate::http::{mutation_request, spec_mutation_request, Body, BodyView, Method, MutationRequest};
use crate::model::result_view;
use crate::import::{spec_track_ids, track_ids, ImportPlan, ImportPlanView};
use crate::text::copy_all;
use crate::utils::{library_tracks_url, spec_library_tracks_url};

verus! {

/// The plan for importing saved tracks from the records of their export
/// file: without `force`, only the number of tracks found; with it, one
/// request per chunk of [`LIBRARY_CHUNK_SIZE`] identifiers. There is no plan
/// for requests with a token that cannot stand in a header.
pub open spec fn spec_import_saved_tracks(
    access_token: Seq<char>,
    records: Seq<Seq<Seq<char>>>,
    force: bool,
) -> Result<ImportPlanView, ErrorView> {
    if force {
        match spec_bulk_requests(
            BulkKind::SaveTracks,
            access_token,
            spec_chunks(spec_track_ids(records), LIBRARY_CHUNK_SIZE as nat),
        ) {
            Ok(requests) => Ok(ImportPlanView::Apply(requests)),
            Err(error) => Err(error),
        }
    } else {
        Ok(ImportPlanView::DryRun { count: spec_track_ids(records).len() })
    }
}

/// Plans the import of saved tracks from the records of their export file.
pub fn import_saved_tracks(access_token: &str, records: &Vec<Vec<String>>, force: bool) -> (plan:
    Result<ImportPlan, Error>)
    ensures
        result_view(plan) == spec_import_saved_tracks(access_token@, records.deep_view(), force),
{
    let ids = track_ids(records);
    if force {
        let parts = chunks(&ids, LIBRARY_CHUNK_SIZE);
        match bulk_requests(BulkKind::SaveTracks, access_token, &parts) {
            Ok(requests) => Ok(ImportPlan::Apply(requests)),
            Err(error) => Err(error),
        }
    } else {
        Ok(ImportPlan::DryRun { count: ids.len() })
    }
}

/// The request that saves one chunk of tracks to the library. A token that
/// cannot stand in a header is refused, and no request is made.
pub fn save_tracks(access_token: &str, track_ids: &Vec<String>) -> (request: Result<
    MutationRequest,
    Error,
>)
    ensures
        result_view(request) == spec_mutation_request(
            access_token@,
            Method::Put,
            spec_library_tracks_url(track_ids.deep_view()),
            BodyView::Ids(track_ids.deep_view()),
        ),
{
    mutation_request(
        access_token,
        Method::Put,
        library_tracks_url(track_ids),
        Body::Ids(copy_all(track_ids)),
    )
}

} // verus!
