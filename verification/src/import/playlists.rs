use vstd::prelude::*;
use vstd::string::*;
use crate::bulk::{check_mutation, spec_chunks, BulkMutation, BulkStep, PLAYLIST_CHUNK_SIZE};
use crate::error::{Error, ErrorView, HttpFailure};
use crate::http::{
    is_success, mutation_request, spec_failure, spec_mutation_request, Body, BodyView, HttpReply,
    HttpReplyView, Method, MutationRequest, MutationRequestView,
};
use crate::import::{spec_track_ids, track_ids};
use crate::model::result_view;
use crate::text::{append, copy_all, same_text};
use crate::utils::{playlist_tracks_url, spec_playlist_tracks_url};

verus! {

/// The stem of the file that holds the saved tracks.
pub const SAVED_TRACKS_STEM: &'static str = "saved_tracks";

/// What imported playlists are described as.
pub const IMPORT_DESCRIPTION: &'static str = "Imported playlist";

/// The URI by which the provider knows the track with the given identifier.
pub open spec fn spec_track_uri(id: Seq<char>) -> Seq<char> {
    "spotify:track:"@ + id
}

/// The track URIs for the records of an export file.
pub open spec fn spec_track_uris(records: Seq<Seq<Seq<char>>>) -> Seq<Seq<char>> {
    spec_track_ids(records).map_values(|id: Seq<char>| spec_track_uri(id))
}

/// The URI by which the provider knows the track with the given identifier.
pub fn track_uri(id: &str) -> (uri: String)
    ensures
        uri@ == spec_track_uri(id@),
{
    append("spotify:track:", id)
}

/// Reads the track URIs off the records of an export file.
pub fn track_uris(records: &Vec<Vec<String>>) -> (uris: Vec<String>)
    ensures
        uris.deep_view() == spec_track_uris(records.deep_view()),
{
    let ids = track_ids(records);
    let mut uris: Vec<String> = Vec::new();
    let mut i: usize = 0;
    while i < ids.len()
        invariant
            i <= ids.len(),
            uris.len() == i,
            forall|k: int|
                0 <= k < i ==> #[trigger] uris.deep_view()[k] == spec_track_uri(
                    ids.deep_view()[k],
                ),
        decreases ids.len() - i,
    {
        let ghost before = uris.deep_view();
        let uri = track_uri(ids[i].as_str());
        uris.push(uri);
        assert(uris.deep_view() =~= before.push(spec_track_uri(ids.deep_view()[i as int])));
        i += 1;
    }
    assert(uris.deep_view() =~= ids.deep_view().map_values(|id: Seq<char>| spec_track_uri(id)));
    uris
}

/// Whether a file of the export directory holds a playlist: it is a CSV
/// file, and not the one that holds the saved tracks.
pub fn is_playlist_file(stem: &str, extension: Option<&str>) -> (yes: bool)
    ensures
        yes == (extension is Some && extension->0@ == "csv"@ && stem@ != SAVED_TRACKS_STEM@),
{
    match extension {
        Some(extension) => same_text(extension, "csv") && !same_text(stem, SAVED_TRACKS_STEM),
        None => false,
    }
}

/// The URL at which playlists are created for a user.
pub open spec fn spec_create_playlist_url(user_id: Seq<char>) -> Seq<char> {
    "https://api.spotify.com/v1/users/"@ + user_id + "/playlists"@
}

/// The request that creates a private playlist called `name` for the user.
pub open spec fn spec_create_playlist(
    access_token: Seq<char>,
    user_id: Seq<char>,
    name: Seq<char>,
) -> Result<MutationRequestView, ErrorView> {
    spec_mutation_request(
        access_token,
        Method::Post,
        spec_create_playlist_url(user_id),
        BodyView::NewPlaylist { name, description: IMPORT_DESCRIPTION@, public: false },
    )
}

/// The request that adds one chunk of track URIs to a playlist.
pub open spec fn spec_add_tracks_to_playlist(
    access_token: Seq<char>,
    playlist_id: Seq<char>,
    track_uris: Seq<Seq<char>>,
) -> Result<MutationRequestView, ErrorView> {
    spec_mutation_request(
        access_token,
        Method::Post,
        spec_playlist_tracks_url(playlist_id),
        BodyView::Uris(track_uris),
    )
}

/// The request that creates a private playlist called `name` for the user.
/// Its answer is judged by [`created_playlist`]. A token that cannot stand
/// in a header is refused, and no request is made.
pub fn create_playlist(access_token: &str, user_id: &str, name: &str) -> (request: Result<
    MutationRequest,
    Error,
>)
    ensures
        result_view(request) == spec_create_playlist(access_token@, user_id@, name@),
{
    let mut url = String::from_str("https://api.spotify.com/v1/users/");
    url.append(user_id);
    url.append("/playlists");
    mutation_request(
        access_token,
        Method::Post,
        url,
        Body::NewPlaylist {
            name: String::from_str(name),
            description: String::from_str(IMPORT_DESCRIPTION),
            public: false,
        },
    )
}

/// What the answer to the creation of a playlist amounts to: the identifier
/// of the new playlist if the request was accepted and the answer names one.
/// A request that could not be sent or was refused is an HTTP failure; an
/// accepted one whose answer cannot be read or names no identifier is a
/// decode failure.
pub open spec fn spec_created_playlist(reply: HttpReplyView<Option<Seq<char>>>) -> Result<
    Seq<char>,
    ErrorView,
> {
    match spec_failure(reply) {
        Some(failure) => Err(ErrorView::BulkMutationHttpError(failure)),
        None => match reply {
            HttpReplyView::Response { body: Some(Some(id)), .. } => Ok(id),
            _ => Err(ErrorView::BulkMutationDecodeError),
        },
    }
}

/// Judges the answer to the creation of a playlist. The payload of the
/// reply is the `id` of the answer if it has one that is a string.
pub fn created_playlist(reply: HttpReply<Option<String>>) -> (out: Result<String, Error>)
    ensures
        result_view(out) == spec_created_playlist(reply.deep_view()),
{
    match reply {
        HttpReply::Unreachable => Err(Error::BulkMutationHttpError(HttpFailure::Transport)),
        HttpReply::Response { status, body, text } => {
            if !is_success(status) {
                Err(Error::BulkMutationHttpError(HttpFailure::Status { status, response: text }))
            } else {
                match body {
                    Some(Some(id)) => Ok(id),
                    _ => Err(Error::BulkMutationDecodeError),
                }
            }
        },
    }
}

/// The request that adds one chunk of track URIs to a playlist. A token that
/// cannot stand in a header is refused, and no request is made.
pub fn add_tracks_to_playlist(
    access_token: &str,
    playlist_id: &str,
    track_uris: &Vec<String>,
) -> (request: Result<MutationRequest, Error>)
    ensures
        result_view(request) == spec_add_tracks_to_playlist(
            access_token@,
            playlist_id@,
            track_uris.deep_view(),
        ),
{
    mutation_request(
        access_token,
        Method::Post,
        playlist_tracks_url(playlist_id),
        Body::Uris(copy_all(track_uris)),
    )
}

/// The import of one playlist in progress. The playlist is created first;
/// its tracks are added, chunk by chunk, only once the creation has been
/// accepted and has named the new playlist.
pub enum PlaylistImport {
    /// The creation request has been sent; the chunks wait for its answer.
    Creating { access_token: String, tracks: BulkMutation },
    /// The playlist exists and a chunk has been sent; `rest` is what
    /// remains after it.
    Adding { access_token: String, playlist_id: String, rest: BulkMutation },
}

/// How the import of a playlist goes on.
pub enum PlaylistImportStep {
    /// Send `request`, and report its answer to `next`.
    Send { request: MutationRequest, next: PlaylistImport },
    /// The playlist exists and holds every track.
    Done,
    /// A request failed. What was applied before stays applied; nothing
    /// more is sent.
    Failed(Error),
}

/// What the import of one playlist comes to once its file has been read.
pub enum PlaylistImportPlan {
    /// Nothing is sent; `count` tracks would have been imported.
    DryRun { count: usize },
    /// The playlist is imported, starting with the given step.
    Apply(PlaylistImportStep),
}

/// The model of a [`PlaylistImport`].
pub enum PlaylistImportView {
    Creating { access_token: Seq<char>, tracks: Seq<Seq<Seq<char>>> },
    Adding { access_token: Seq<char>, playlist_id: Seq<char>, rest: Seq<Seq<Seq<char>>> },
}

/// The model of a [`PlaylistImportStep`].
pub enum PlaylistImportStepView {
    Send { request: MutationRequestView, next: PlaylistImportView },
    Done,
    Failed(ErrorView),
}

/// The model of a [`PlaylistImportPlan`].
pub enum PlaylistImportPlanView {
    DryRun { count: nat },
    Apply(PlaylistImportStepView),
}

impl DeepView for PlaylistImport {
    type V = PlaylistImportView;

    open spec fn deep_view(&self) -> PlaylistImportView {
        match *self {
            PlaylistImport::Creating { access_token, tracks } => PlaylistImportView::Creating {
                access_token: access_token@,
                tracks: tracks.deep_view(),
            },
            PlaylistImport::Adding {
                access_token,
                playlist_id,
                rest,
            } => PlaylistImportView::Adding {
                access_token: access_token@,
                playlist_id: playlist_id@,
                rest: rest.deep_view(),
            },
        }
    }
}

impl DeepView for PlaylistImportStep {
    type V = PlaylistImportStepView;

    open spec fn deep_view(&self) -> PlaylistImportStepView {
        match *self {
            PlaylistImportStep::Send { request, next } => PlaylistImportStepView::Send {
                request: request.deep_view(),
                next: next.deep_view(),
            },
            PlaylistImportStep::Done => PlaylistImportStepView::Done,
            PlaylistImportStep::Failed(error) => PlaylistImportStepView::Failed(error.deep_view()),
        }
    }
}

impl DeepView for PlaylistImportPlan {
    type V = PlaylistImportPlanView;

    open spec fn deep_view(&self) -> PlaylistImportPlanView {
        match *self {
            PlaylistImportPlan::DryRun { count } => PlaylistImportPlanView::DryRun {
                count: count as nat,
            },
            PlaylistImportPlan::Apply(step) => PlaylistImportPlanView::Apply(step.deep_view()),
        }
    }
}

/// What is due once the playlist exists and `pending` chunks remain: the
/// request that adds the first of them, or nothing more.
pub open spec fn spec_add_next(
    access_token: Seq<char>,
    playlist_id: Seq<char>,
    pending: Seq<Seq<Seq<char>>>,
) -> PlaylistImportStepView {
    if pending.len() == 0 {
        PlaylistImportStepView::Done
    } else {
        match spec_add_tracks_to_playlist(access_token, playlist_id, pending[0]) {
            Ok(request) => PlaylistImportStepView::Send {
                request,
                next: PlaylistImportView::Adding {
                    access_token,
                    playlist_id,
                    rest: pending.drop_first(),
                },
            },
            Err(error) => PlaylistImportStepView::Failed(error),
        }
    }
}

/// The import's transition on the answer to its request. While the playlist
/// is being created, any failure of the creation ends the import and no
/// chunk is sent; its success names the playlist that the chunks go to.
/// After that, a failed chunk ends the import, and an accepted one is
/// followed by the next.
pub open spec fn spec_import_step(
    import: PlaylistImportView,
    reply: HttpReplyView<Option<Seq<char>>>,
) -> PlaylistImportStepView {
    match import {
        PlaylistImportView::Creating { access_token, tracks } => {
            match spec_created_playlist(reply) {
                Ok(playlist_id) => spec_add_next(access_token, playlist_id, tracks),
                Err(error) => PlaylistImportStepView::Failed(error),
            }
        },
        PlaylistImportView::Adding { access_token, playlist_id, rest } => {
            match spec_failure(reply) {
                Some(failure) => PlaylistImportStepView::Failed(
                    ErrorView::BulkMutationHttpError(failure),
                ),
                None => spec_add_next(access_token, playlist_id, rest),
            }
        },
    }
}

/// The plan for importing one playlist: without `force`, only the number of
/// tracks found in the records; with it, the creation of the playlist,
/// followed by the track URIs in chunks of [`PLAYLIST_CHUNK_SIZE`].
pub open spec fn spec_import_playlist(
    access_token: Seq<char>,
    user_id: Seq<char>,
    playlist_name: Seq<char>,
    records: Seq<Seq<Seq<char>>>,
    force: bool,
) -> PlaylistImportPlanView {
    if force {
        PlaylistImportPlanView::Apply(
            match spec_create_playlist(access_token, user_id, playlist_name) {
                Ok(request) => PlaylistImportStepView::Send {
                    request,
                    next: PlaylistImportView::Creating {
                        access_token,
                        tracks: spec_chunks(spec_track_uris(records), PLAYLIST_CHUNK_SIZE as nat),
                    },
                },
                Err(error) => PlaylistImportStepView::Failed(error),
            },
        )
    } else {
        PlaylistImportPlanView::DryRun { count: spec_track_uris(records).len() }
    }
}

/// Plans the import of one playlist from the records of its export file.
pub fn import_playlist(
    access_token: &str,
    user_id: &str,
    playlist_name: &str,
    records: &Vec<Vec<String>>,
    force: bool,
) -> (plan: PlaylistImportPlan)
    ensures
        plan.deep_view() == spec_import_playlist(
            access_token@,
            user_id@,
            playlist_name@,
            records.deep_view(),
            force,
        ),
{
    let uris = track_uris(records);
    if force {
        match create_playlist(access_token, user_id, playlist_name) {
            Ok(request) => PlaylistImportPlan::Apply(
                PlaylistImportStep::Send {
                    request,
                    next: PlaylistImport::Creating {
                        access_token: String::from_str(access_token),
                        tracks: BulkMutation::new(&uris, PLAYLIST_CHUNK_SIZE),
                    },
                },
            ),
            Err(error) => PlaylistImportPlan::Apply(PlaylistImportStep::Failed(error)),
        }
    } else {
        PlaylistImportPlan::DryRun { count: uris.len() }
    }
}

fn add_next(access_token: String, playlist_id: String, pending: BulkMutation) -> (out:
    PlaylistImportStep)
    ensures
        out.deep_view() == spec_add_next(access_token@, playlist_id@, pending.deep_view()),
{
    match pending.next() {
        BulkStep::Send { chunk, rest } => {
            match add_tracks_to_playlist(access_token.as_str(), playlist_id.as_str(), &chunk) {
                Ok(request) => PlaylistImportStep::Send {
                    request,
                    next: PlaylistImport::Adding { access_token, playlist_id, rest },
                },
                Err(error) => PlaylistImportStep::Failed(error),
            }
        },
        BulkStep::Done => PlaylistImportStep::Done,
        BulkStep::Failed(error) => PlaylistImportStep::Failed(error),
    }
}

impl PlaylistImport {
    /// Takes the import one step further, given the answer to the request
    /// sent last. A creation that failed sends no chunk.
    pub fn step(self, reply: HttpReply<Option<String>>) -> (out: PlaylistImportStep)
        ensures
            out.deep_view() == spec_import_step(self.deep_view(), reply.deep_view()),
            self is Creating && spec_created_playlist(reply.deep_view()) is Err ==> out is Failed,
            spec_failure(reply.deep_view()) is Some ==> out is Failed,
    {
        match self {
            PlaylistImport::Creating { access_token, tracks } => match created_playlist(reply) {
                Ok(playlist_id) => add_next(access_token, playlist_id, tracks),
                Err(error) => PlaylistImportStep::Failed(error),
            },
            PlaylistImport::Adding { access_token, playlist_id, rest } => {
                match check_mutation(&reply) {
                    Ok(()) => add_next(access_token, playlist_id, rest),
                    Err(error) => PlaylistImportStep::Failed(error),
                }
            },
        }
    }
}

/// The playlists found among the files of the export directory: the stems
/// of the CSV files, the saved-tracks file left out, in directory order.
pub open spec fn spec_import_playlists(files: Seq<(Seq<char>, Option<Seq<char>>)>) -> Seq<
    Seq<char>,
>
    decreases files.len(),
{
    if files.len() == 0 {
        Seq::empty()
    } else {
        let before = spec_import_playlists(files.drop_last());
        let (stem, extension) = files.last();
        if extension == Some("csv"@) && stem != SAVED_TRACKS_STEM@ {
            before.push(stem)
        } else {
            before
        }
    }
}

/// Picks the playlists to import from the regular files of the export
/// directory, each given by its stem and its extension. Every playlist
/// picked is named after its file and imported by [`import_playlist`].
pub fn import_playlists(files: &Vec<(String, Option<String>)>) -> (names: Vec<String>)
    ensures
        names.deep_view() == spec_import_playlists(files.deep_view()),
{
    let mut names: Vec<String> = Vec::new();
    let mut i: usize = 0;
    while i < files.len()
        invariant
            i <= files.len(),
            names.deep_view() == spec_import_playlists(files.deep_view().take(i as int)),
        decreases files.len() - i,
    {
        proof {
            let all = files.deep_view();
            assert(all.take(i + 1).drop_last() =~= all.take(i as int));
            assert(all.take(i + 1).last() == files[i as int].deep_view());
        }
        let picked = match &files[i].1 {
            Some(extension) => is_playlist_file(files[i].0.as_str(), Some(extension.as_str())),
            None => false,
        };
        if picked {
            let ghost before = names.deep_view();
            names.push(files[i].0.clone());
            assert(names.deep_view() =~= before.push(files[i as int].0@));
        }
        i += 1;
    }
    proof {
        assert(files.deep_view().take(files.len() as int) =~= files.deep_view());
    }
    names
}

} // verus!
