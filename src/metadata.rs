//! Track metadata: the record that the resolver writes to its metadata file,
//! and the resolved track built from it and the stream URL.
use vstd::prelude::*;

use crate::resolver::{ResolveError, ResolveFailure};

verus! {

/// One entry of the resolver's metadata file.
#[derive(Debug, Clone)]
pub struct Song {
    pub name: String,
    pub artists: Vec<String>,
    pub artist: String,
    pub genres: Vec<String>,
    pub disc_number: i32,
    pub disc_count: i32,
    pub album_name: String,
    pub album_artist: String,
    pub album_type: String,
    pub duration: i32,
    pub year: i32,
    pub date: String,
    pub track_number: i32,
    pub tracks_count: i32,
    pub song_id: String,
    pub explicit: bool,
    pub publisher: String,
    pub url: String,
    pub isrc: String,
    pub cover_url: String,
    pub copyright_text: String,
    pub download_url: Option<String>,
    pub lyrics: Option<String>,
    pub popularity: i32,
    pub album_id: String,
    pub list_name: Option<String>,
    pub list_url: Option<String>,
    pub list_position: Option<i32>,
    pub list_length: Option<i32>,
    pub artist_id: String,
}

/// A track whose stream URL and metadata are known.
#[derive(Debug, Clone)]
pub struct ResolvedTrack {
    /// Where the audio bytes are fetched from.
    pub url: String,
    pub webpage_url: Option<String>,
    pub title: Option<String>,
    pub artist: Option<String>,
    pub album: Option<String>,
    pub thumbnail: Option<String>,
    /// Length in seconds.
    pub duration: Option<i32>,
    pub release_date: Option<String>,
    pub track_number: Option<i32>,
    /// Extra request headers for the stream, as name and value.
    pub http_headers: Option<Vec<(String, String)>>,
    /// Length of the stream in bytes, where known beforehand.
    pub filesize: Option<u64>,
}

/// The outcome of reading the metadata file: the first entry, or `NoResult`
/// where the file could not be read or parsed (`None`) or holds no entry.
pub open spec fn first_song_outcome(parsed: Option<Seq<Song>>) -> Result<Song, ResolveFailure> {
    match parsed {
        Some(songs) => if songs.len() > 0 {
            Ok(songs[0])
        } else {
            Err(ResolveFailure::NoResult)
        },
        None => Err(ResolveFailure::NoResult),
    }
}

/// The entries of a parsed metadata file, as a sequence.
pub open spec fn songs_view(parsed: Option<Vec<Song>>) -> Option<Seq<Song>> {
    match parsed {
        Some(v) => Some(v@),
        None => None,
    }
}

/// The first entry of the parsed metadata file (see `first_song_outcome`).
pub fn first_song(parsed: Option<Vec<Song>>) -> (r: Result<Song, ResolveError>)
    ensures
        match (r, first_song_outcome(songs_view(parsed))) {
            (Ok(s), Ok(expected)) => s == expected,
            (Err(e), Err(expected)) => e@ == expected,
            _ => false,
        },
{
    match parsed {
        Some(mut songs) => {
            if songs.len() > 0 {
                Ok(songs.swap_remove(0))
            } else {
                Err(ResolveError::NoResult)
            }
        },
        None => Err(ResolveError::NoResult),
    }
}

/// The track built from a stream URL and a metadata entry.
pub open spec fn combined(url: Seq<char>, song: Song, r: ResolvedTrack) -> bool {
    &&& r.url@ == url
    &&& r.webpage_url is Some && r.webpage_url->Some_0@ == url
    &&& r.title == Some(song.name)
    &&& r.artist == Some(song.artist)
    &&& r.album == Some(song.album_name)
    &&& r.thumbnail == Some(song.cover_url)
    &&& r.duration == Some(song.duration)
    &&& r.release_date == Some(song.date)
    &&& r.track_number == Some(song.track_number)
    &&& r.http_headers is None
    &&& r.filesize is None
}

/// Builds the resolved track from the stream URL and the metadata entry.
pub fn combine(url: String, song: Song) -> (r: ResolvedTrack)
    ensures
        combined(url@, song, r),
{
    let page = url.clone();
    ResolvedTrack {
        url,
        webpage_url: Some(page),
        title: Some(song.name),
        artist: Some(song.artist),
        album: Some(song.album_name),
        thumbnail: Some(song.cover_url),
        duration: Some(song.duration),
        release_date: Some(song.date),
        track_number: Some(song.track_number),
        http_headers: None,
        filesize: None,
    }
}

} // verus!
