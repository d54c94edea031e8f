use vstd::prelude::*;
use vstd::string::*;
use crate::export::{export_header, export_rows, spec_export, ExportPlan};
use crate::types::TrackEntry;

verus! {

/// The name of the file that holds the saved tracks.
pub const SAVED_TRACKS_FILE: &'static str = "saved_tracks.csv";

/// The plan for exporting the saved tracks, once they have all been read.
pub fn export_saved_tracks(entries: &Vec<TrackEntry>, force: bool) -> (plan: ExportPlan)
    ensures
        plan.deep_view() == spec_export(SAVED_TRACKS_FILE@, entries.deep_view(), force),
{
    if force {
        ExportPlan::Write {
            file_name: String::from_str(SAVED_TRACKS_FILE),
            header: export_header(),
            table: export_rows(entries),
        }
    } else {
        ExportPlan::DryRun { count: entries.len() }
    }
}

} // verus!
