use vstd::prelude::*;
use vstd::string::*;
use crate::text::{join, spec_join, trim, trimmed};
use crate::types::{Artist, TrackEntry, TrackEntryView};

pub mod playlists;
pub mod saved_tracks;

verus! {

/// The directory that export files are written to and read from.
pub const EXPORT_DIR: &'static str = "dump";

/// The placeholder written where the provider sent no usable value.
pub open spec fn unknown() -> Seq<char> {
    "Unknown"@
}

/// `text`, or the placeholder if `text` is empty.
pub open spec fn or_unknown(text: Seq<char>) -> Seq<char> {
    if text.len() == 0 {
        unknown()
    } else {
        text
    }
}

/// The artist names worth printing: each name trimmed, the ones that are
/// empty after trimming left out, order kept.
pub open spec fn spec_artist_names(artists: Seq<Seq<char>>) -> Seq<Seq<char>>
    decreases artists.len(),
{
    if artists.len() == 0 {
        Seq::empty()
    } else {
        let before = spec_artist_names(artists.drop_last());
        let name = trimmed(artists.last());
        if name.len() == 0 {
            before
        } else {
            before.push(name)
        }
    }
}

/// The artists column: the printable names joined by a comma and a space, or
/// the placeholder if there is none.
pub open spec fn spec_artists_column(artists: Seq<Seq<char>>) -> Seq<char> {
    let names = spec_artist_names(artists);
    if names.len() == 0 {
        unknown()
    } else {
        spec_join(names, ", "@)
    }
}

/// The export row of one listing entry: added-at, track name, artists, album
/// and identifier, in that order. An entry without a track, or whose track
/// has no identifier, has no row.
pub open spec fn spec_export_row(entry: TrackEntryView) -> Option<Seq<Seq<char>>> {
    match entry.track {
        Some(track) => match track.id {
            Some(id) => Some(
                seq![
                    match entry.added_at {
                        Some(at) => at,
                        None => unknown(),
                    },
                    or_unknown(track.name),
                    spec_artists_column(track.artists),
                    or_unknown(track.album),
                    id,
                ],
            ),
            None => None,
        },
        None => None,
    }
}

/// The rows of a listing: the rows of the entries that have one, in listing
/// order.
pub open spec fn spec_export_rows(entries: Seq<TrackEntryView>) -> Seq<Seq<Seq<char>>>
    decreases entries.len(),
{
    if entries.len() == 0 {
        Seq::empty()
    } else {
        let before = spec_export_rows(entries.drop_last());
        match spec_export_row(entries.last()) {
            Some(row) => before.push(row),
            None => before,
        }
    }
}

/// How many entries of a listing have no row.
pub open spec fn spec_skipped(entries: Seq<TrackEntryView>) -> nat
    decreases entries.len(),
{
    if entries.len() == 0 {
        0
    } else {
        let before = spec_skipped(entries.drop_last());
        if spec_export_row(entries.last()) is None {
            before + 1
        } else {
            before
        }
    }
}

/// Every entry either yields a row or is counted as skipped.
pub proof fn lemma_rows_and_skipped_cover(entries: Seq<TrackEntryView>)
    ensures
        spec_export_rows(entries).len() + spec_skipped(entries) == entries.len(),
    decreases entries.len(),
{
    if entries.len() > 0 {
        lemma_rows_and_skipped_cover(entries.drop_last());
    }
}

fn text_or_unknown(text: &str) -> (out: String)
    ensures
        out@ == or_unknown(text@),
{
    if text.is_empty() {
        String::from_str("Unknown")
    } else {
        String::from_str(text)
    }
}

fn artist_names(artists: &Vec<Artist>) -> (names: Vec<String>)
    ensures
        names.deep_view() == spec_artist_names(artists.deep_view()),
{
    let mut names: Vec<String> = Vec::new();
    let mut i: usize = 0;
    while i < artists.len()
        invariant
            i <= artists.len(),
            names.deep_view() == spec_artist_names(artists.deep_view().take(i as int)),
        decreases artists.len() - i,
    {
        let name = trim(artists[i].name.as_str());
        proof {
            let all = artists.deep_view();
            assert(all.take(i + 1).drop_last() =~= all.take(i as int));
            assert(all.take(i + 1).last() == artists[i as int].name@);
        }
        if !name.is_empty() {
            let ghost before = names.deep_view();
            names.push(String::from_str(name));
            assert(names.deep_view() =~= before.push(name@));
        }
        i += 1;
    }
    proof {
        assert(artists.deep_view().take(artists.len() as int) =~= artists.deep_view());
    }
    names
}

fn artists_column(artists: &Vec<Artist>) -> (out: String)
    ensures
        out@ == spec_artists_column(artists.deep_view()),
{
    let names = artist_names(artists);
    if names.len() == 0 {
        String::from_str("Unknown")
    } else {
        join(&names, ", ")
    }
}

/// The column titles of an export file.
pub fn export_header() -> (header: Vec<String>)
    ensures
        header.deep_view() == spec_export_header(),
{
    let mut header: Vec<String> = Vec::new();
    header.push(String::from_str("Added At"));
    header.push(String::from_str("Track Name"));
    header.push(String::from_str("Artists"));
    header.push(String::from_str("Album"));
    header.push(String::from_str("Id"));
    assert(header.deep_view() =~= seq!["Added At"@, "Track Name"@, "Artists"@, "Album"@, "Id"@]);
    header
}

/// Builds the export row of one entry, or `None` if the entry is to be
/// skipped because it has no track or the track has no identifier.
pub fn export_row(entry: &TrackEntry) -> (row: Option<Vec<String>>)
    ensures
        row.deep_view() == spec_export_row(entry.deep_view()),
{
    match &entry.track {
        Some(track) => match &track.id {
            Some(id) => {
                let added_at = match &entry.added_at {
                    Some(at) => at.clone(),
                    None => String::from_str("Unknown"),
                };
                let mut row: Vec<String> = Vec::new();
                row.push(added_at);
                row.push(text_or_unknown(track.name.as_str()));
                row.push(artists_column(&track.artists));
                row.push(text_or_unknown(track.album.name.as_str()));
                row.push(id.clone());
                assert(row.deep_view() =~= spec_export_row(entry.deep_view())->0);
                Some(row)
            },
            None => None,
        },
        None => None,
    }
}

/// The rows to write for a listing, and how many of its entries were skipped.
pub struct ExportTable {
    pub rows: Vec<Vec<String>>,
    pub skipped: usize,
}

/// Turns a listing into export rows, in listing order, counting the entries
/// that cannot be exported.
pub fn export_rows(entries: &Vec<TrackEntry>) -> (table: ExportTable)
    ensures
        table.rows.deep_view() == spec_export_rows(entries.deep_view()),
        table.skipped == spec_skipped(entries.deep_view()),
        table.rows.len() + table.skipped == entries.len(),
{
    let mut rows: Vec<Vec<String>> = Vec::new();
    let mut skipped: usize = 0;
    let mut i: usize = 0;
    while i < entries.len()
        invariant
            i <= entries.len(),
            rows.deep_view() == spec_export_rows(entries.deep_view().take(i as int)),
            skipped == spec_skipped(entries.deep_view().take(i as int)),
            rows.len() + skipped == i,
        decreases entries.len() - i,
    {
        proof {
            let all = entries.deep_view();
            assert(all.take(i + 1).drop_last() =~= all.take(i as int));
            assert(all.take(i + 1).last() == entries[i as int].deep_view());
        }
        match export_row(&entries[i]) {
            Some(row) => {
                let ghost before = rows.deep_view();
                let ghost added = row.deep_view();
                rows.push(row);
                assert(rows.deep_view() =~= before.push(added));
            },
            None => {
                skipped += 1;
            },
        }
        i += 1;
    }
    proof {
        assert(entries.deep_view().take(entries.len() as int) =~= entries.deep_view());
    }
    ExportTable { rows, skipped }
}

/// The titles of the five columns.
pub open spec fn spec_export_header() -> Seq<Seq<char>> {
    seq!["Added At"@, "Track Name"@, "Artists"@, "Album"@, "Id"@]
}

/// What an export comes to once the listing has been read.
pub enum ExportPlan {
    /// Nothing is written; `count` entries would have been exported.
    DryRun { count: usize },
    /// The file called `file_name` in [`EXPORT_DIR`] is to be written with
    /// `header` and then the rows of `table`.
    Write { file_name: String, header: Vec<String>, table: ExportTable },
}

/// The model of an [`ExportPlan`].
pub enum ExportPlanView {
    DryRun { count: nat },
    Write {
        file_name: Seq<char>,
        header: Seq<Seq<char>>,
        rows: Seq<Seq<Seq<char>>>,
        skipped: nat,
    },
}

impl DeepView for ExportPlan {
    type V = ExportPlanView;

    open spec fn deep_view(&self) -> ExportPlanView {
        match *self {
            ExportPlan::DryRun { count } => ExportPlanView::DryRun { count: count as nat },
            ExportPlan::Write { file_name, header, table } => ExportPlanView::Write {
                file_name: file_name@,
                header: header.deep_view(),
                rows: table.rows.deep_view(),
                skipped: table.skipped as nat,
            },
        }
    }
}

/// The export of a listing to the file called `file_name`: without `force`
/// only the number of entries, with it the header and the rows.
pub open spec fn spec_export(
    file_name: Seq<char>,
    entries: Seq<TrackEntryView>,
    force: bool,
) -> ExportPlanView {
    if force {
        ExportPlanView::Write {
            file_name,
            header: spec_export_header(),
            rows: spec_export_rows(entries),
            skipped: spec_skipped(entries),
        }
    } else {
        ExportPlanView::DryRun { count: entries.len() }
    }
}

} // verus!
