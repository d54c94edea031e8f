use spoti_dump::bulk::{bulk_request, bulk_requests, BulkKind, QueueStep, RequestQueue};
use spoti_dump::error::{Error, HttpFailure};
use spoti_dump::http::{Body, HttpReply, Method, MutationRequest};
use spoti_dump::import::playlists::{
    add_tracks_to_playlist, create_playlist, created_playlist, import_playlist,
    import_playlists, is_playlist_file, track_uri, track_uris, PlaylistImportPlan,
    PlaylistImportStep, IMPORT_DESCRIPTION, SAVED_TRACKS_STEM,
};
use spoti_dump::import::saved_tracks::{import_saved_tracks, save_tracks};
use spoti_dump::import::{track_ids, ImportPlan, ID_COLUMN};
use spoti_dump::purge::playlists::{pick_playlists, purge_playlists, unfollow_url};
use spoti_dump::purge::saved_tracks::purge_saved_tracks;
use spoti_dump::purge::PurgePlan;
use spoti_dump::types::{PlaylistEntry, Track, TrackEntry};
use spoti_dump::{
    run, Cli, Commands, Operation, RunStep, SCOPE_EXPORT, SCOPE_IMPORT, SCOPE_PURGE,
};

fn record(fields: &[&str]) -> Vec<String> {
    fields.iter().map(|f| f.to_string()).collect()
}

fn strings(items: &[&str]) -> Vec<String> {
    items.iter().map(|f| f.to_string()).collect()
}

fn numbered_records(n: usize) -> Vec<Vec<String>> {
    (0..n).map(|i| record(&["at", "name", "artists", "album", &format!("t{}", i)])).collect()
}

/// Collects the requests of a queue that all succeed.
fn all_requests(queue: RequestQueue) -> Vec<MutationRequest> {
    let mut out = Vec::new();
    let mut step = queue.next();
    loop {
        match step {
            QueueStep::Send { request, rest } => {
                step = rest.step(&HttpReply::Response {
                    status: 200,
                    body: Some(()),
                    text: String::new(),
                });
                out.push(request);
            },
            QueueStep::Done => return out,
            QueueStep::Failed(error) => panic!("unexpected failure: {:?}", error),
        }
    }
}

fn urls(requests: &[MutationRequest]) -> Vec<String> {
    requests.iter().map(|request| request.url.clone()).collect()
}

fn ids_in_body(request: &MutationRequest) -> Vec<String> {
    match &request.body {
        Body::Ids(ids) => ids.clone(),
        _ => panic!("the body lists the identifiers"),
    }
}

#[test]
fn track_ids_come_from_the_fifth_column() {
    assert_eq!(ID_COLUMN, 4);
    let records = vec![
        record(&["at", "name", "artists", "album", "t1"]),
        record(&["at", "name", "artists", "album"]),
        record(&[]),
        record(&["at", "name", "artists", "album", "t2", "extra"]),
        record(&["at", "name", "artists", "album", ""]),
    ];
    assert_eq!(track_ids(&records), strings(&["t1", "t2", ""]));
    assert_eq!(track_ids(&Vec::new()), Vec::<String>::new());
}

#[test]
fn track_uri_has_the_provider_prefix() {
    assert_eq!(track_uri("abc"), "spotify:track:abc");
    assert_eq!(track_uri(""), "spotify:track:");
    let records = vec![
        record(&["at", "name", "artists", "album", "t1"]),
        record(&["short"]),
        record(&["at", "name", "artists", "album", "t2"]),
    ];
    assert_eq!(track_uris(&records), strings(&["spotify:track:t1", "spotify:track:t2"]));
}

#[test]
fn playlist_files_are_csv_files_other_than_saved_tracks() {
    assert_eq!(SAVED_TRACKS_STEM, "saved_tracks");
    assert!(is_playlist_file("My_Mix", Some("csv")));
    assert!(!is_playlist_file("saved_tracks", Some("csv")));
    assert!(!is_playlist_file("My_Mix", Some("txt")));
    assert!(!is_playlist_file("My_Mix", Some("CSV")));
    assert!(!is_playlist_file("My_Mix", None));
    assert!(is_playlist_file("Saved_Tracks", Some("csv")));
    assert!(is_playlist_file("", Some("csv")));
}

#[test]
fn playlists_to_import_are_picked_in_directory_order() {
    let files = vec![
        ("b".to_string(), Some("csv".to_string())),
        ("saved_tracks".to_string(), Some("csv".to_string())),
        ("notes".to_string(), Some("txt".to_string())),
        ("README".to_string(), None),
        ("a".to_string(), Some("csv".to_string())),
    ];
    assert_eq!(import_playlists(&files), strings(&["b", "a"]));
    assert_eq!(import_playlists(&Vec::new()), Vec::<String>::new());
}

#[test]
fn saved_tracks_import_dry_run_counts() {
    match import_saved_tracks("tok", &numbered_records(120), false).unwrap() {
        ImportPlan::DryRun { count } => assert_eq!(count, 120),
        ImportPlan::Apply(_) => panic!("a dry run sends nothing"),
    }
}

#[test]
fn saved_tracks_import_dry_run_does_not_look_at_the_token() {
    assert!(matches!(
        import_saved_tracks("bad\ntoken", &numbered_records(3), false),
        Ok(ImportPlan::DryRun { count: 3 })
    ));
}

#[test]
fn saved_tracks_import_goes_in_chunks_of_fifty() {
    match import_saved_tracks("tok", &numbered_records(120), true).unwrap() {
        ImportPlan::Apply(queue) => {
            let requests = all_requests(queue);
            assert_eq!(requests.len(), 3);
            let sizes: Vec<usize> = requests.iter().map(|r| ids_in_body(r).len()).collect();
            assert_eq!(sizes, vec![50, 50, 20]);
            for request in &requests {
                assert_eq!(request.method, Method::Put);
                assert_eq!(request.authorization, "Bearer tok");
                assert_eq!(
                    request.url,
                    format!("https://api.spotify.com/v1/me/tracks?ids={}", ids_in_body(request).join(","))
                );
            }
            assert_eq!(ids_in_body(&requests[0])[0], "t0");
            assert_eq!(ids_in_body(&requests[2])[19], "t119");
        },
        ImportPlan::DryRun { .. } => panic!("a forced import sends"),
    }
}

#[test]
fn saved_tracks_import_with_an_unusable_token_is_refused() {
    assert_eq!(
        import_saved_tracks("bad\ntoken", &numbered_records(3), true).err(),
        Some(Error::InvalidAccessToken)
    );
    assert!(matches!(
        import_saved_tracks("bad\ntoken", &Vec::new(), true),
        Ok(ImportPlan::Apply(_))
    ));
}

#[test]
fn refused_request_stops_the_queue_and_keeps_the_text() {
    let queue = match import_saved_tracks("tok", &numbered_records(120), true).unwrap() {
        ImportPlan::Apply(queue) => queue,
        ImportPlan::DryRun { .. } => panic!("a forced import sends"),
    };
    let ok: HttpReply<()> = HttpReply::Response { status: 200, body: None, text: String::new() };
    let no: HttpReply<()> =
        HttpReply::Response { status: 429, body: None, text: "slow down".to_string() };
    let first = match queue.next() {
        QueueStep::Send { rest, .. } => rest,
        _ => panic!("three requests are pending"),
    };
    let second = match first.step(&ok) {
        QueueStep::Send { rest, .. } => rest,
        _ => panic!("two requests are pending"),
    };
    assert_eq!(second.pending.len(), 1);
    match second.step(&no) {
        QueueStep::Failed(error) => assert_eq!(
            error,
            Error::BulkMutationHttpError(HttpFailure::Status {
                status: 429,
                response: "slow down".to_string(),
            })
        ),
        _ => panic!("a refused request ends the queue"),
    }
}

#[test]
fn requests_of_each_kind() {
    let chunk = strings(&["a", "b"]);
    let save = bulk_request(BulkKind::SaveTracks, "tok", &chunk).unwrap();
    assert_eq!(save.method, Method::Put);
    assert_eq!(save.url, "https://api.spotify.com/v1/me/tracks?ids=a,b");
    assert_eq!(ids_in_body(&save), chunk);
    let remove = bulk_request(BulkKind::RemoveTracks, "tok", &chunk).unwrap();
    assert_eq!(remove.method, Method::Delete);
    assert_eq!(remove.url, "https://api.spotify.com/v1/me/tracks?ids=a,b");
    assert!(matches!(remove.body, Body::Empty));
    let unfollow = bulk_request(BulkKind::UnfollowPlaylist, "tok", &strings(&["p1"])).unwrap();
    assert_eq!(unfollow.method, Method::Delete);
    assert_eq!(unfollow.url, "https://api.spotify.com/v1/playlists/p1/followers");
    assert!(matches!(unfollow.body, Body::Empty));
    assert_eq!(
        bulk_request(BulkKind::RemoveTracks, "a\nb", &chunk).err(),
        Some(Error::InvalidAccessToken)
    );
    let queue = bulk_requests(BulkKind::RemoveTracks, "tok", &vec![chunk.clone(), chunk]).unwrap();
    assert_eq!(queue.pending.len(), 2);
}

/// Drives a playlist import against recorded answers; returns the requests
/// that were sent and how the import ended.
fn drive(
    plan: PlaylistImportPlan,
    mut answers: Vec<HttpReply<Option<String>>>,
) -> (Vec<MutationRequest>, Option<Result<(), Error>>) {
    answers.reverse();
    let mut sent = Vec::new();
    let mut step = match plan {
        PlaylistImportPlan::Apply(step) => step,
        PlaylistImportPlan::DryRun { .. } => panic!("a forced import sends"),
    };
    loop {
        match step {
            PlaylistImportStep::Send { request, next } => {
                sent.push(request);
                match answers.pop() {
                    Some(answer) => step = next.step(answer),
                    None => return (sent, None),
                }
            },
            PlaylistImportStep::Done => return (sent, Some(Ok(()))),
            PlaylistImportStep::Failed(error) => return (sent, Some(Err(error))),
        }
    }
}

fn created(id: &str) -> HttpReply<Option<String>> {
    HttpReply::Response { status: 201, body: Some(Some(id.to_string())), text: String::new() }
}

fn accepted() -> HttpReply<Option<String>> {
    HttpReply::Response { status: 200, body: Some(None), text: String::new() }
}

fn denied(status: u16, text: &str) -> HttpReply<Option<String>> {
    HttpReply::Response { status, body: None, text: text.to_string() }
}

#[test]
fn playlist_import_dry_run_counts() {
    match import_playlist("tok", "user1", "Mix", &numbered_records(3), false) {
        PlaylistImportPlan::DryRun { count } => assert_eq!(count, 3),
        PlaylistImportPlan::Apply(_) => panic!("a dry run sends nothing"),
    }
}

#[test]
fn playlist_is_created_first_and_then_filled_in_chunks_of_a_hundred() {
    let plan = import_playlist("tok", "user1", "Mix", &numbered_records(250), true);
    let (sent, outcome) = drive(plan, vec![created("p9"), accepted(), accepted(), accepted()]);
    assert_eq!(outcome, Some(Ok(())));
    assert_eq!(sent.len(), 4);
    assert_eq!(sent[0].method, Method::Post);
    assert_eq!(sent[0].url, "https://api.spotify.com/v1/users/user1/playlists");
    assert!(matches!(sent[0].body, Body::NewPlaylist { .. }));
    let mut sizes = Vec::new();
    for request in &sent[1..] {
        assert_eq!(request.method, Method::Post);
        assert_eq!(request.url, "https://api.spotify.com/v1/playlists/p9/tracks");
        assert_eq!(request.authorization, "Bearer tok");
        match &request.body {
            Body::Uris(uris) => sizes.push(uris.len()),
            _ => panic!("the body lists the URIs"),
        }
    }
    assert_eq!(sizes, vec![100, 100, 50]);
    match &sent[1].body {
        Body::Uris(uris) => assert_eq!(uris[0], "spotify:track:t0"),
        _ => panic!("the body lists the URIs"),
    }
    match &sent[3].body {
        Body::Uris(uris) => assert_eq!(uris[49], "spotify:track:t249"),
        _ => panic!("the body lists the URIs"),
    }
}

#[test]
fn refused_creation_sends_no_tracks() {
    let plan = import_playlist("tok", "user1", "Mix", &numbered_records(250), true);
    let (sent, outcome) = drive(plan, vec![denied(403, "forbidden"), accepted(), accepted()]);
    assert_eq!(sent.len(), 1);
    assert_eq!(
        outcome,
        Some(Err(Error::BulkMutationHttpError(HttpFailure::Status {
            status: 403,
            response: "forbidden".to_string(),
        })))
    );
}

#[test]
fn unreachable_creation_sends_no_tracks() {
    let plan = import_playlist("tok", "user1", "Mix", &numbered_records(5), true);
    let (sent, outcome) = drive(plan, vec![HttpReply::Unreachable, accepted()]);
    assert_eq!(sent.len(), 1);
    assert_eq!(outcome, Some(Err(Error::BulkMutationHttpError(HttpFailure::Transport))));
}

#[test]
fn creation_without_an_id_is_a_decode_error() {
    for answer in [
        HttpReply::Response { status: 201, body: Some(None), text: "{}".to_string() },
        HttpReply::Response { status: 200, body: None, text: "not json".to_string() },
    ] {
        let plan = import_playlist("tok", "user1", "Mix", &numbered_records(5), true);
        let (sent, outcome) = drive(plan, vec![answer, accepted()]);
        assert_eq!(sent.len(), 1);
        assert_eq!(outcome, Some(Err(Error::BulkMutationDecodeError)));
    }
}

#[test]
fn refused_chunk_stops_the_import() {
    let plan = import_playlist("tok", "user1", "Mix", &numbered_records(250), true);
    let (sent, outcome) =
        drive(plan, vec![created("p9"), accepted(), denied(500, "oops"), accepted()]);
    assert_eq!(sent.len(), 3);
    assert_eq!(
        outcome,
        Some(Err(Error::BulkMutationHttpError(HttpFailure::Status {
            status: 500,
            response: "oops".to_string(),
        })))
    );
}

#[test]
fn empty_playlist_is_created_and_done() {
    let plan = import_playlist("tok", "user1", "Mix", &Vec::new(), true);
    let (sent, outcome) = drive(plan, vec![created("p9")]);
    assert_eq!(sent.len(), 1);
    assert_eq!(outcome, Some(Ok(())));
}

#[test]
fn import_with_an_unusable_token_sends_nothing() {
    let plan = import_playlist("bad\ntoken", "user1", "Mix", &numbered_records(5), true);
    let (sent, outcome) = drive(plan, vec![created("p9")]);
    assert!(sent.is_empty());
    assert_eq!(outcome, Some(Err(Error::InvalidAccessToken)));
}

#[test]
fn created_playlist_answers() {
    assert_eq!(created_playlist(created("p1")), Ok("p1".to_string()));
    assert_eq!(
        created_playlist(HttpReply::Response {
            status: 299,
            body: Some(Some(String::new())),
            text: String::new(),
        }),
        Ok(String::new())
    );
    assert_eq!(created_playlist(accepted()), Err(Error::BulkMutationDecodeError));
    assert_eq!(
        created_playlist(HttpReply::Response { status: 200, body: None, text: "x".to_string() }),
        Err(Error::BulkMutationDecodeError)
    );
    assert_eq!(
        created_playlist(denied(404, "gone")),
        Err(Error::BulkMutationHttpError(HttpFailure::Status {
            status: 404,
            response: "gone".to_string(),
        }))
    );
    assert_eq!(
        created_playlist(HttpReply::Response {
            status: 500,
            body: Some(Some("p1".to_string())),
            text: "boom".to_string(),
        }),
        Err(Error::BulkMutationHttpError(HttpFailure::Status {
            status: 500,
            response: "boom".to_string(),
        }))
    );
    assert_eq!(
        created_playlist(HttpReply::Unreachable),
        Err(Error::BulkMutationHttpError(HttpFailure::Transport))
    );
}

#[test]
fn create_playlist_request() {
    let request = create_playlist("tok", "user1", "Road Trip").unwrap();
    assert_eq!(request.method, Method::Post);
    assert_eq!(request.url, "https://api.spotify.com/v1/users/user1/playlists");
    assert_eq!(request.authorization, "Bearer tok");
    match request.body {
        Body::NewPlaylist { name, description, public } => {
            assert_eq!(name, "Road Trip");
            assert_eq!(description, "Imported playlist");
            assert_eq!(description, IMPORT_DESCRIPTION);
            assert!(!public);
        },
        _ => panic!("the body describes the playlist"),
    }
    assert_eq!(create_playlist("a\rb", "user1", "x").err(), Some(Error::InvalidAccessToken));
}

#[test]
fn add_tracks_request() {
    let uris = strings(&["spotify:track:a", "spotify:track:b"]);
    let request = add_tracks_to_playlist("tok", "p1", &uris).unwrap();
    assert_eq!(request.method, Method::Post);
    assert_eq!(request.url, "https://api.spotify.com/v1/playlists/p1/tracks");
    assert_eq!(request.authorization, "Bearer tok");
    match request.body {
        Body::Uris(sent) => assert_eq!(sent, uris),
        _ => panic!("the body lists the URIs"),
    }
    assert_eq!(add_tracks_to_playlist("a\nb", "p1", &uris).err(), Some(Error::InvalidAccessToken));
}

#[test]
fn save_tracks_request() {
    let ids = strings(&["a", "b", "c"]);
    let request = save_tracks("tok", &ids).unwrap();
    assert_eq!(request.method, Method::Put);
    assert_eq!(request.url, "https://api.spotify.com/v1/me/tracks?ids=a,b,c");
    assert_eq!(request.authorization, "Bearer tok");
    match request.body {
        Body::Ids(sent) => assert_eq!(sent, ids),
        _ => panic!("the body lists the identifiers"),
    }
    assert_eq!(save_tracks("a\nb", &ids).err(), Some(Error::InvalidAccessToken));
}

fn saved(id: Option<&str>) -> TrackEntry {
    TrackEntry {
        added_at: Some("now".to_string()),
        track: Some(Track::new(id.map(|s| s.to_string()), None, None, None)),
    }
}

fn listed(id: Option<&str>, name: Option<&str>) -> PlaylistEntry {
    PlaylistEntry { id: id.map(|s| s.to_string()), name: name.map(|s| s.to_string()) }
}

#[test]
fn purge_saved_tracks_dry_run_lists_the_ids() {
    let entries = vec![saved(Some("a")), saved(Some("b")), saved(Some("c"))];
    match purge_saved_tracks("tok", &entries, false).unwrap() {
        PurgePlan::DryRun { listed, skipped } => {
            assert_eq!(listed, strings(&["a", "b", "c"]));
            assert_eq!(skipped, 0);
        },
        PurgePlan::Apply { .. } => panic!("a dry run deletes nothing"),
    }
}

#[test]
fn purge_skips_entries_without_track_or_id() {
    let entries = vec![
        saved(Some("a")),
        TrackEntry { added_at: None, track: None },
        saved(None),
        saved(Some("b")),
    ];
    match purge_saved_tracks("tok", &entries, false).unwrap() {
        PurgePlan::DryRun { listed, skipped } => {
            assert_eq!(listed, strings(&["a", "b"]));
            assert_eq!(skipped, 2);
        },
        PurgePlan::Apply { .. } => panic!("a dry run deletes nothing"),
    }
    match purge_saved_tracks("tok", &entries, true).unwrap() {
        PurgePlan::Apply { requests, skipped } => {
            assert_eq!(
                urls(&all_requests(requests)),
                vec!["https://api.spotify.com/v1/me/tracks?ids=a,b"]
            );
            assert_eq!(skipped, 2);
        },
        PurgePlan::DryRun { .. } => panic!("a forced purge deletes"),
    }
}

#[test]
fn purge_saved_tracks_deletes_in_chunks_of_fifty() {
    let ids: Vec<String> = (0..101).map(|i| format!("t{}", i)).collect();
    let entries: Vec<TrackEntry> = ids.iter().map(|id| saved(Some(id))).collect();
    match purge_saved_tracks("tok", &entries, true).unwrap() {
        PurgePlan::Apply { requests, skipped } => {
            let sent = all_requests(requests);
            assert_eq!(
                urls(&sent),
                vec![
                    format!("https://api.spotify.com/v1/me/tracks?ids={}", ids[..50].join(",")),
                    format!("https://api.spotify.com/v1/me/tracks?ids={}", ids[50..100].join(",")),
                    "https://api.spotify.com/v1/me/tracks?ids=t100".to_string(),
                ]
            );
            for request in &sent {
                assert_eq!(request.method, Method::Delete);
                assert_eq!(request.authorization, "Bearer tok");
                assert!(matches!(request.body, Body::Empty));
            }
            assert_eq!(skipped, 0);
        },
        PurgePlan::DryRun { .. } => panic!("a forced purge deletes"),
    }
}

#[test]
fn purge_of_an_empty_listing() {
    match purge_saved_tracks("tok", &Vec::new(), true).unwrap() {
        PurgePlan::Apply { requests, skipped } => {
            assert!(all_requests(requests).is_empty());
            assert_eq!(skipped, 0);
        },
        PurgePlan::DryRun { .. } => panic!("a forced purge deletes"),
    }
}

#[test]
fn purge_with_an_unusable_token_is_refused() {
    let entries = vec![saved(Some("a"))];
    assert_eq!(
        purge_saved_tracks("bad\ntoken", &entries, true).err(),
        Some(Error::InvalidAccessToken)
    );
    assert!(purge_saved_tracks("bad\ntoken", &entries, false).is_ok());
    let playlists = vec![listed(Some("p1"), Some("One"))];
    assert_eq!(
        purge_playlists("bad\ntoken", &playlists, true).err(),
        Some(Error::InvalidAccessToken)
    );
    assert!(purge_playlists("bad\ntoken", &playlists, false).is_ok());
}

#[test]
fn purge_playlists_dry_run_lists_the_names() {
    let entries = vec![listed(Some("p1"), Some("One")), listed(Some("p2"), Some("Two"))];
    match purge_playlists("tok", &entries, false).unwrap() {
        PurgePlan::DryRun { listed, skipped } => {
            assert_eq!(listed, strings(&["One", "Two"]));
            assert_eq!(skipped, 0);
        },
        PurgePlan::Apply { .. } => panic!("a dry run deletes nothing"),
    }
}

#[test]
fn purge_playlists_dry_run_lists_every_name_even_without_an_id() {
    let entries = vec![listed(None, Some("x"))];
    match purge_playlists("tok", &entries, false).unwrap() {
        PurgePlan::DryRun { listed, skipped } => {
            assert_eq!(listed, strings(&["x"]));
            assert_eq!(skipped, 1);
        },
        PurgePlan::Apply { .. } => panic!("a dry run deletes nothing"),
    }
}

#[test]
fn purge_playlists_unfollows_one_by_one() {
    let entries = vec![
        listed(Some("p1"), Some("One")),
        listed(Some("p2"), Some("Two")),
        listed(Some("p3"), Some("Three")),
    ];
    match purge_playlists("tok", &entries, true).unwrap() {
        PurgePlan::Apply { requests, skipped } => {
            let sent = all_requests(requests);
            assert_eq!(
                urls(&sent),
                vec![
                    "https://api.spotify.com/v1/playlists/p1/followers",
                    "https://api.spotify.com/v1/playlists/p2/followers",
                    "https://api.spotify.com/v1/playlists/p3/followers",
                ]
            );
            for request in &sent {
                assert_eq!(request.method, Method::Delete);
                assert!(matches!(request.body, Body::Empty));
            }
            assert_eq!(skipped, 0);
        },
        PurgePlan::DryRun { .. } => panic!("a forced purge deletes"),
    }
    assert_eq!(unfollow_url("p1"), "https://api.spotify.com/v1/playlists/p1/followers");
}

#[test]
fn purge_playlists_skips_entries_without_id_only_when_forced() {
    let entries = vec![
        listed(None, Some("Ghost")),
        listed(Some("p1"), None),
        listed(None, None),
        listed(Some("p2"), Some("Two")),
    ];
    let picked = pick_playlists(&entries);
    assert_eq!(picked.len(), 2);
    assert_eq!(picked[0].id, "p1");
    assert_eq!(picked[0].name, "");
    assert_eq!(picked[1].name, "Two");
    match purge_playlists("tok", &entries, false).unwrap() {
        PurgePlan::DryRun { listed, skipped } => {
            assert_eq!(listed, strings(&["Ghost", "", "", "Two"]));
            assert_eq!(skipped, 2);
        },
        PurgePlan::Apply { .. } => panic!("a dry run deletes nothing"),
    }
    match purge_playlists("tok", &entries, true).unwrap() {
        PurgePlan::Apply { requests, skipped } => {
            assert_eq!(
                urls(&all_requests(requests)),
                vec![
                    "https://api.spotify.com/v1/playlists/p1/followers",
                    "https://api.spotify.com/v1/playlists/p2/followers",
                ]
            );
            assert_eq!(skipped, 2);
        },
        PurgePlan::DryRun { .. } => panic!("a forced purge deletes"),
    }
}

#[test]
fn scopes_per_command() {
    assert_eq!(Commands::Export { force: true }.scope(), "user-library-read playlist-read-private");
    assert_eq!(
        Commands::Import { force: false }.scope(),
        "user-library-modify playlist-modify-public playlist-modify-private"
    );
    assert_eq!(
        Commands::Purge { force: false }.scope(),
        "user-library-read user-library-modify playlist-read-private playlist-modify-public playlist-modify-private"
    );
    assert_eq!(Commands::Export { force: false }.scope(), SCOPE_EXPORT);
    assert_eq!(Commands::Import { force: true }.scope(), SCOPE_IMPORT);
    assert_eq!(Commands::Purge { force: true }.scope(), SCOPE_PURGE);
}

#[test]
fn force_flag_per_command() {
    assert!(Commands::Export { force: true }.force());
    assert!(!Commands::Export { force: false }.force());
    assert!(Commands::Import { force: true }.force());
    assert!(!Commands::Import { force: false }.force());
    assert!(Commands::Purge { force: true }.force());
    assert!(!Commands::Purge { force: false }.force());
}

#[test]
fn run_without_a_command_does_nothing() {
    assert!(run(&Cli { command: None }).is_none());
}

#[test]
fn run_plans_the_operations_of_each_command() {
    let plan = run(&Cli { command: Some(Commands::Export { force: true }) }).unwrap();
    assert_eq!(plan.command, Commands::Export { force: true });
    assert!(plan.force);
    assert_eq!(plan.operations, vec![Operation::ExportSavedTracks, Operation::ExportPlaylists]);

    let plan = run(&Cli { command: Some(Commands::Import { force: false }) }).unwrap();
    assert!(!plan.force);
    assert_eq!(
        plan.operations,
        vec![Operation::FetchUserId, Operation::ImportSavedTracks, Operation::ImportPlaylists]
    );

    let plan = run(&Cli { command: Some(Commands::Purge { force: true }) }).unwrap();
    assert_eq!(plan.operations, vec![Operation::PurgeSavedTracks, Operation::PurgePlaylists]);
}

#[test]
fn failed_token_acquisition_starts_no_operation() {
    for command in [
        Commands::Export { force: true },
        Commands::Import { force: false },
        Commands::Purge { force: true },
    ] {
        let plan = run(&Cli { command: Some(command) }).unwrap();
        match plan.start(Err(Error::AuthorizationTimeout)) {
            RunStep::Failed(error) => assert_eq!(error, Error::AuthorizationTimeout),
            _ => panic!("without a token nothing is started"),
        }
    }
}

/// Runs a plan with a token against recorded outcomes; returns what was
/// started and how the run ended.
fn run_with(command: Commands, outcomes: Vec<Result<(), String>>) -> (Vec<Operation>, Option<String>) {
    let plan = run(&Cli { command: Some(command) }).unwrap();
    let mut outcomes = outcomes.into_iter();
    let mut started = Vec::new();
    let mut step = plan.start(Ok("tok".to_string()));
    loop {
        match step {
            RunStep::Do { operation, rest } => {
                assert_eq!(rest.access_token, "tok");
                assert_eq!(rest.force, command.force());
                started.push(operation);
                step = rest.step(outcomes.next().unwrap());
            },
            RunStep::Done => return (started, None),
            RunStep::Failed(error) => return (started, Some(error)),
        }
    }
}

#[test]
fn run_carries_out_every_operation_in_order() {
    let (started, failure) = run_with(Commands::Import { force: true }, vec![Ok(()), Ok(()), Ok(())]);
    assert_eq!(
        started,
        vec![Operation::FetchUserId, Operation::ImportSavedTracks, Operation::ImportPlaylists]
    );
    assert_eq!(failure, None);
    let (started, failure) = run_with(Commands::Export { force: false }, vec![Ok(()), Ok(())]);
    assert_eq!(started, vec![Operation::ExportSavedTracks, Operation::ExportPlaylists]);
    assert_eq!(failure, None);
}

#[test]
fn first_failed_operation_ends_the_run() {
    let (started, failure) =
        run_with(Commands::Import { force: true }, vec![Ok(()), Err("disk".to_string()), Ok(())]);
    assert_eq!(started, vec![Operation::FetchUserId, Operation::ImportSavedTracks]);
    assert_eq!(failure, Some("disk".to_string()));
    let (started, failure) =
        run_with(Commands::Purge { force: true }, vec![Err("net".to_string()), Ok(())]);
    assert_eq!(started, vec![Operation::PurgeSavedTracks]);
    assert_eq!(failure, Some("net".to_string()));
}
