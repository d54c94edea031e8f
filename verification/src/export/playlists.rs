use vstd::prelude::*;
use vstd::string::*;
use crate::export::{export_header, export_rows, spec_export, ExportPlan, ExportPlanView};
use crate::text::{alphanumeric, append, is_alphanumeric, push_char};
use crate::error::{Error, ErrorView};
use crate::http::{bearer, spec_authorization};
use crate::model::result_view;
use crate::types::{Playlist, PlaylistView, TrackEntry};
use crate::utils::{
    get_all_items, playlist_tracks_url, spec_playlist_tracks_url, ApiRequestView, PageWalk,
    PageWalkView,
};

verus! {

/// How many characters a generated file name has.
pub const RANDOM_NAME_LEN: usize = 10;

/// What is left of a name once it is made fit for a file name: alphanumeric
/// characters stay, each space becomes an underscore, everything else goes.
pub open spec fn spec_sanitize(name: Seq<char>) -> Seq<char>
    decreases name.len(),
{
    if name.len() == 0 {
        Seq::empty()
    } else {
        let before = spec_sanitize(name.drop_last());
        let c = name.last();
        if alphanumeric(c) {
            before.push(c)
        } else if c == ' ' {
            before.push('_')
        } else {
            before
        }
    }
}

/// Whether `c` is an ASCII letter or digit.
pub open spec fn is_ascii_alphanumeric(c: char) -> bool {
    ('0' <= c && c <= '9') || ('A' <= c && c <= 'Z') || ('a' <= c && c <= 'z')
}

/// The shape of a generated name: [`RANDOM_NAME_LEN`] ASCII letters and digits.
pub open spec fn is_random_name(name: Seq<char>) -> bool {
    &&& name.len() == RANDOM_NAME_LEN
    &&& forall|i: int| 0 <= i < name.len() ==> is_ascii_alphanumeric(#[trigger] name[i])
}

/// Draws one ASCII letter or digit at random.
///
/// Wraps `Rng::sample` with rand's `Alphanumeric` distribution on the
/// thread-local generator. The distribution picks its byte from the 62
/// characters `A-Z`, `a-z`, `0-9`; which one is left open.
#[verifier::external_body]
fn random_alphanumeric() -> (c: char)
    ensures
        is_ascii_alphanumeric(c),
{
    char::from(rand::Rng::sample(&mut rand::thread_rng(), rand::distributions::Alphanumeric))
}

/// A fresh name of [`RANDOM_NAME_LEN`] random ASCII letters and digits, for a
/// playlist whose own name leaves nothing to write.
pub fn generate_random_name() -> (name: String)
    ensures
        is_random_name(name@),
{
    let mut name = String::new();
    let mut i: usize = 0;
    while i < RANDOM_NAME_LEN
        invariant
            i <= RANDOM_NAME_LEN,
            name@.len() == i,
            forall|k: int| 0 <= k < name@.len() ==> is_ascii_alphanumeric(#[trigger] name@[k]),
        decreases RANDOM_NAME_LEN - i,
    {
        push_char(&mut name, random_alphanumeric());
        i += 1;
    }
    name
}

fn sanitize(name: &str) -> (out: String)
    ensures
        out@ == spec_sanitize(name@),
{
    let mut out = String::new();
    for c in it: name.chars()
        invariant
            it.seq() == name@,
            out@ == spec_sanitize(name@.take(it.index() as int)),
    {
        proof {
            let k = it.index() as int;
            assert(name@.take(k + 1).drop_last() =~= name@.take(k));
            assert(name@.take(k + 1).last() == c);
        }
        if is_alphanumeric(c) {
            push_char(&mut out, c);
        } else if c == ' ' {
            push_char(&mut out, '_');
        }
    }
    proof {
        assert(name@.take(name@.len() as int) =~= name@);
    }
    out
}

/// Makes a playlist name fit for a file name. Alphanumeric characters stay,
/// spaces become underscores, all else is dropped; if nothing is left, a
/// random name is generated instead.
pub fn sanitize_filename(name: &str) -> (out: String)
    ensures
        spec_sanitize(name@).len() > 0 ==> out@ == spec_sanitize(name@),
        spec_sanitize(name@).len() == 0 ==> is_random_name(out@),
{
    let kept = sanitize(name);
    if kept.as_str().is_empty() {
        generate_random_name()
    } else {
        kept
    }
}

/// The name of the file a playlist is exported to: its sanitized name with
/// the `.csv` extension.
pub fn playlist_file_name(name: &str) -> (out: String)
    ensures
        spec_sanitize(name@).len() > 0 ==> out@ == spec_sanitize(name@) + ".csv"@,
        spec_sanitize(name@).len() == 0 ==> exists|stem: Seq<char>|
            is_random_name(stem) && out@ == stem + ".csv"@,
{
    let stem = sanitize_filename(name);
    append(stem.as_str(), ".csv")
}

/// The plan for exporting one playlist, once its tracks have all been read.
/// The file is named after the playlist; a playlist whose name leaves
/// nothing to write gets a random name, and only when a file is written.
pub fn export_playlist(name: &str, entries: &Vec<TrackEntry>, force: bool) -> (plan: ExportPlan)
    ensures
        !force ==> plan.deep_view() == (ExportPlanView::DryRun {
            count: entries.deep_view().len(),
        }),
        force && spec_sanitize(name@).len() > 0 ==> plan.deep_view() == spec_export(
            spec_sanitize(name@) + ".csv"@,
            entries.deep_view(),
            true,
        ),
        force && spec_sanitize(name@).len() == 0 ==> exists|stem: Seq<char>|
            is_random_name(stem) && plan.deep_view() == #[trigger] spec_export(
                stem + ".csv"@,
                entries.deep_view(),
                true,
            ),
{
    if force {
        let file_name = playlist_file_name(name);
        let plan = ExportPlan::Write {
            file_name,
            header: export_header(),
            table: export_rows(entries),
        };
        proof {
            if spec_sanitize(name@).len() == 0 {
                let stem = choose|stem: Seq<char>|
                    is_random_name(stem) && file_name@ == stem + ".csv"@;
                assert(plan.deep_view() == spec_export(stem + ".csv"@, entries.deep_view(), true));
            }
        }
        plan
    } else {
        ExportPlan::DryRun { count: entries.len() }
    }
}

/// The walks that export the playlists: one per playlist, in listing order,
/// each over that playlist's tracks. There is none for a token that cannot
/// stand in a header.
pub open spec fn spec_export_playlists(
    access_token: Seq<char>,
    playlists: Seq<PlaylistView>,
) -> Result<Seq<PageWalkView<TrackEntry>>, ErrorView> {
    match spec_authorization(access_token) {
        Ok(authorization) => Ok(
            Seq::new(
                playlists.len(),
                |i: int|
                    PageWalkView {
                        items: Seq::empty(),
                        request: ApiRequestView {
                            url: spec_playlist_tracks_url(playlists[i].id),
                            authorization,
                        },
                    },
            ),
        ),
        Err(error) => Err(error),
    }
}

/// Starts the export of the playlists, once they have all been listed: one
/// walk per playlist, in listing order, each over that playlist's tracks.
/// What a finished walk has gathered is exported by [`export_playlist`].
pub fn export_playlists(access_token: &str, playlists: &Vec<Playlist>) -> (walks: Result<
    Vec<PageWalk<TrackEntry>>,
    Error,
>)
    ensures
        result_view(walks) == spec_export_playlists(access_token@, playlists.deep_view()),
{
    let mut walks: Vec<PageWalk<TrackEntry>> = Vec::new();
    let mut i: usize = 0;
    if let Err(error) = bearer(access_token) {
        return Err(error);
    }
    while i < playlists.len()
        invariant
            i <= playlists.len(),
            walks.len() == i,
            spec_authorization(access_token@) is Ok,
            forall|k: int|
                0 <= k < i ==> (#[trigger] walks[k]).deep_view() == (PageWalkView::<TrackEntry> {
                    items: Seq::empty(),
                    request: ApiRequestView {
                        url: spec_playlist_tracks_url(playlists[k].id@),
                        authorization: spec_authorization(access_token@)->Ok_0,
                    },
                }),
        decreases playlists.len() - i,
    {
        let url = playlist_tracks_url(playlists[i].id.as_str());
        match get_all_items(access_token, url.as_str()) {
            Ok(walk) => walks.push(walk),
            Err(error) => return Err(error),
        }
        i += 1;
    }
    assert(walks.deep_view() =~= spec_export_playlists(
        access_token@,
        playlists.deep_view(),
    )->Ok_0);
    Ok(walks)
}

} // verus!
