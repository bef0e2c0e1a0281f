use spotdl_player::metadata::{combine, first_song, Song};
use spotdl_player::resolver::{ProcessRun, ResolveError, SpotifyCredential};
use spotdl_player::source::{song_from_run, SpotifyDl};
use std::sync::Arc;

fn song(name: &str) -> Song {
    Song {
        name: name.to_string(),
        artists: vec!["A".to_string()],
        artist: "A".to_string(),
        genres: vec![],
        disc_number: 1,
        disc_count: 1,
        album_name: "Album".to_string(),
        album_artist: "A".to_string(),
        album_type: "album".to_string(),
        duration: 215,
        year: 2020,
        date: "2020-01-31".to_string(),
        track_number: 3,
        tracks_count: 10,
        song_id: "id".to_string(),
        explicit: false,
        publisher: "P".to_string(),
        url: "https://open.spotify.com/track/id".to_string(),
        isrc: "ISRC".to_string(),
        cover_url: "https://img/cover.jpg".to_string(),
        copyright_text: "C".to_string(),
        download_url: None,
        lyrics: None,
        popularity: 50,
        album_id: "album".to_string(),
        list_name: None,
        list_url: None,
        list_position: None,
        list_length: None,
        artist_id: "artist".to_string(),
    }
}

/// Builds the entries of a metadata file from its JSON text, reading the
/// fields that the tests look at.
fn songs_from_json(text: &str) -> Option<Vec<Song>> {
    let value: serde_json::Value = serde_json::from_str(text).ok()?;
    let entries = value.as_array()?;
    let mut out = Vec::new();
    for e in entries {
        let mut s = song(e.get("name")?.as_str()?);
        if let Some(artists) = e.get("artists").and_then(|a| a.as_array()) {
            s.artists = artists.iter().filter_map(|a| a.as_str().map(|t| t.to_string())).collect();
        }
        out.push(s);
    }
    Some(out)
}

fn url_ok(url: &str) -> ProcessRun {
    ProcessRun::Finished {
        success: true,
        stdout: format!("Processing query: q\n{}\n", url).into_bytes(),
        stderr: vec![],
    }
}

fn save_ok() -> ProcessRun {
    ProcessRun::Finished { success: true, stdout: vec![], stderr: vec![] }
}

fn source() -> SpotifyDl {
    SpotifyDl::new(reqwest::Client::new(), "some song".to_string(), None)
}

#[test]
fn metadata_file_first_entry() {
    let parsed = songs_from_json(r#"[{"name":"Song","artists":["A"]}]"#);
    let s = song_from_run(&save_ok(), parsed).unwrap();
    assert_eq!(s.name, "Song");
    assert_eq!(s.artists, vec!["A".to_string()]);
}

#[test]
fn failed_metadata_run_ignores_file() {
    let failed = ProcessRun::Finished { success: false, stdout: vec![], stderr: b"no such track".to_vec() };
    assert_eq!(
        song_from_run(&failed, Some(vec![song("Song")])).unwrap_err(),
        ResolveError::ResolverFailed("no such track".to_string())
    );
    assert_eq!(song_from_run(&ProcessRun::NotFound, None).unwrap_err(), ResolveError::ExecutableNotFound);
}

#[test]
fn metadata_file_takes_first_of_several() {
    let parsed = Some(vec![song("One"), song("Two")]);
    assert_eq!(first_song(parsed).unwrap().name, "One");
}

#[test]
fn metadata_file_empty_or_unreadable() {
    assert_eq!(first_song(Some(vec![])).unwrap_err(), ResolveError::NoResult);
    assert_eq!(first_song(None).unwrap_err(), ResolveError::NoResult);
    assert_eq!(first_song(songs_from_json("not json")).unwrap_err(), ResolveError::NoResult);
}

#[test]
fn combine_fills_track() {
    let t = combine("https://stream/a".to_string(), song("Song"));
    assert_eq!(t.url, "https://stream/a");
    assert_eq!(t.webpage_url.as_deref(), Some("https://stream/a"));
    assert_eq!(t.title.as_deref(), Some("Song"));
    assert_eq!(t.artist.as_deref(), Some("A"));
    assert_eq!(t.album.as_deref(), Some("Album"));
    assert_eq!(t.thumbnail.as_deref(), Some("https://img/cover.jpg"));
    assert_eq!(t.duration, Some(215));
    assert_eq!(t.release_date.as_deref(), Some("2020-01-31"));
    assert_eq!(t.track_number, Some(3));
    assert!(t.http_headers.is_none());
    assert!(t.filesize.is_none());
}

#[test]
fn new_source_is_unresolved() {
    let s = source();
    assert!(s.needs_resolution());
    assert!(s.cached_metadata().is_none());
    assert_eq!(s.query_str(), "some song");
}

#[test]
fn fetch_twice_resolves_once() {
    let mut s = source();
    assert!(s.needs_resolution());
    let t = s.finish_query(url_ok("https://stream/a"), save_ok(), Some(vec![song("Song")])).unwrap();
    assert_eq!(t.title.as_deref(), Some("Song"));
    // the second fetch finds the metadata kept and runs nothing
    assert!(!s.needs_resolution());
    let cached = s.cached_metadata().unwrap();
    assert_eq!(cached.url, "https://stream/a");
    assert_eq!(cached.title.as_deref(), Some("Song"));
}

#[test]
fn failed_resolution_keeps_source_unresolved() {
    let mut s = source();
    let failed = ProcessRun::Finished { success: false, stdout: vec![], stderr: b"boom".to_vec() };
    let r = s.finish_query(failed, save_ok(), Some(vec![song("Song")]));
    assert_eq!(r.unwrap_err(), ResolveError::ResolverFailed("boom".to_string()));
    assert!(s.needs_resolution());
}

#[test]
fn url_failure_is_reported_before_metadata_failure() {
    let mut s = source();
    let r = s.finish_query(ProcessRun::NotFound, ProcessRun::NotFound, None);
    assert_eq!(r.unwrap_err(), ResolveError::ExecutableNotFound);
    let r = s.finish_query(url_ok("https://stream/a"), save_ok(), Some(vec![]));
    assert_eq!(r.unwrap_err(), ResolveError::NoResult);
    assert!(s.needs_resolution());
}

#[test]
fn open_yields_stream_request() {
    let mut s = source();
    let req = s.finish_open(url_ok("https://stream/b"), save_ok(), Some(vec![song("Song")])).unwrap();
    assert_eq!(req.url, "https://stream/b");
    assert!(req.headers.is_empty());
    assert!(req.content_length.is_none());
    assert!(!s.needs_resolution());
}

#[test]
fn jobs_carry_query_and_credentials() {
    let cred = SpotifyCredential {
        client_id: Arc::new("cid".to_string()),
        client_secret: Arc::new("SECRET-REDACTED".to_string()),
    };
    let s = SpotifyDl::new(reqwest::Client::new(), "https://open.spotify.com/track/1".to_string(), Some(cred));
    let job = s.url_job();
    assert_eq!(job.program, "spotdl");
    assert_eq!(
        job.args,
        vec!["url", "https://open.spotify.com/track/1", "--client-id", "cid", "--client-secret", "SECRET-REDACTED"]
    );
    let job = s.save_job("/tmp/x.spotdl");
    assert_eq!(
        job.args,
        vec![
            "save",
            "https://open.spotify.com/track/1",
            "--save-file",
            "/tmp/x.spotdl",
            "--client-id",
            "cid",
            "--client-secret",
            "SECRET-REDACTED"
        ]
    );
}

#[test]
fn clone_keeps_request_and_metadata() {
    let mut s = source();
    s.finish_query(url_ok("https://stream/a"), save_ok(), Some(vec![song("Song")])).unwrap();
    let c = s.clone();
    assert_eq!(c.query_str(), "some song");
    assert!(!c.needs_resolution());
    assert_eq!(c.cached_metadata().unwrap().url, "https://stream/a");
}
