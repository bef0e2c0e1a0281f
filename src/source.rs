//! The lazy audio source: a request that is resolved into a stream URL and
//! metadata only when first used, and that keeps the metadata once known.
use vstd::prelude::*;
use vstd::string::*;

use crate::metadata::{combine, combined, first_song, first_song_outcome, songs_view, ResolvedTrack, Song};
use crate::resolver::{
    check_run, run_error, save_args, url_args, url_from_run, url_outcome, ProcessRun, ResolveError,
    ResolveFailure, SpotifyCredential, SPOTIFY_DL_COMMAND,
};

verus! {

/// reqwest's `Client`, which a source carries to the stream request; nothing
/// is assumed of it.
#[verifier::external_type_specification]
#[verifier::external_body]
pub struct ExClient(reqwest::Client);

/// Relies on the derived `Clone` of reqwest's `Client`, which clones the `Arc`
/// of its one field: the clone is a handle to the same client.
pub assume_specification[ <reqwest::Client as Clone>::clone ](c: &reqwest::Client) -> (r:
    reqwest::Client)
    ensures
        r == *c,
;

#[derive(Clone, Debug)]
enum QueryType {
    UrlOrSearch(String),
}

/// A request for audio that is resolved through the resolver program on
/// first use.
#[derive(Clone, Debug)]
pub struct SpotifyDl {
    program: &'static str,
    client: reqwest::Client,
    metadata: Option<ResolvedTrack>,
    query: QueryType,
    credentials: Option<SpotifyCredential>,
}

/// One run of the resolver program: the program and its arguments.
pub struct ResolverJob {
    pub program: String,
    pub args: Vec<String>,
}

/// What an opened stream is fetched from.
pub struct StreamRequest {
    pub url: String,
    pub headers: Vec<(String, String)>,
    pub content_length: Option<u64>,
}

/// What the run of the metadata subcommand yields: its failure, or the first
/// entry of the metadata file it wrote.
pub open spec fn save_outcome(save_run: ProcessRun, parsed: Option<Seq<Song>>) -> Result<Song, ResolveFailure> {
    match run_error(save_run) {
        Some(e) => Err(e),
        None => first_song_outcome(parsed),
    }
}

/// The metadata that a run of the metadata subcommand produced, from the
/// run and the parsed metadata file (`None` where it could not be read or
/// parsed).
pub fn song_from_run(save_run: &ProcessRun, parsed: Option<Vec<Song>>) -> (r: Result<Song, ResolveError>)
    ensures
        match (r, save_outcome(*save_run, songs_view(parsed))) {
            (Ok(s), Ok(expected)) => s == expected,
            (Err(e), Err(expected)) => e@ == expected,
            _ => false,
        },
{
    match check_run(save_run) {
        Err(e) => Err(e),
        Ok(()) => first_song(parsed),
    }
}

/// What the resolution of a query yields: the failure of the URL run if it
/// failed, else that of the metadata run, else the URL and the first entry of
/// the metadata file.
pub open spec fn query_outcome(url_run: ProcessRun, save_run: ProcessRun, parsed: Option<Seq<Song>>) -> Result<
    (Seq<char>, Song),
    ResolveFailure,
> {
    match (url_outcome(url_run), save_outcome(save_run, parsed)) {
        (Err(e), _) => Err(e),
        (Ok(_), Err(e)) => Err(e),
        (Ok(url), Ok(song)) => Ok((url, song)),
    }
}

/// `after` is `before` once a resolution with the given outcome has been
/// recorded: the metadata is replaced on success and kept on failure, the rest
/// is unchanged.
pub open spec fn records_resolution(
    before: SpotifyDl,
    outcome: Result<(Seq<char>, Song), ResolveFailure>,
    after: SpotifyDl,
) -> bool {
    &&& after.request() == before.request()
    &&& after.http_client() == before.http_client()
    &&& match outcome {
        Ok((url, song)) => after.cached() is Some && combined(url, song, after.cached()->Some_0),
        Err(_) => after.cached() == before.cached(),
    }
}

/// `after` is `before` once metadata has been fetched with the given resolver
/// runs: a source that holds metadata is left as it is and runs nothing;
/// another records the resolution.
pub open spec fn fetch_step(
    before: SpotifyDl,
    url_run: ProcessRun,
    save_run: ProcessRun,
    parsed: Option<Seq<Song>>,
    after: SpotifyDl,
) -> bool {
    if before.cached() is Some {
        after == before
    } else {
        records_resolution(before, query_outcome(url_run, save_run, parsed), after)
    }
}

/// How many resolutions a metadata fetch on `s` runs.
pub open spec fn fetch_resolutions(s: SpotifyDl) -> nat {
    if s.cached() is Some {
        0
    } else {
        1
    }
}

impl SpotifyDl {
    /// The metadata kept from the last successful resolution.
    pub closed spec fn cached(&self) -> Option<ResolvedTrack> {
        self.metadata
    }

    /// The HTTP client that streams are fetched with.
    pub closed spec fn http_client(&self) -> reqwest::Client {
        self.client
    }

    /// Program, query and credentials, which no resolution changes.
    pub closed spec fn request(&self) -> (Seq<char>, Seq<char>, Option<(Seq<char>, Seq<char>)>) {
        (
            self.program@,
            match self.query {
                QueryType::UrlOrSearch(q) => q@,
            },
            crate::resolver::credential_view(self.credentials),
        )
    }

    /// A lazy request for `url` (a link or a search phrase), resolved with the
    /// resolver program.
    pub fn new(client: reqwest::Client, url: String, credentials: Option<SpotifyCredential>) -> (r: Self)
        ensures
            r.cached() is None,
            r.request() == (SPOTIFY_DL_COMMAND@, url@, crate::resolver::credential_view(credentials)),
            r.http_client() == client,
    {
        Self::new_spotdl_like(SPOTIFY_DL_COMMAND, client, url, credentials)
    }

    /// A lazy request for `url` as in `new`, resolved with `program`.
    fn new_spotdl_like(
        program: &'static str,
        client: reqwest::Client,
        url: String,
        credentials: Option<SpotifyCredential>,
    ) -> (r: Self)
        ensures
            r.cached() is None,
            r.request() == (program@, url@, crate::resolver::credential_view(credentials)),
            r.http_client() == client,
    {
        Self { program, client, metadata: None, query: QueryType::UrlOrSearch(url), credentials }
    }

    /// The HTTP client that streams are fetched with.
    pub fn client(&self) -> (r: &reqwest::Client)
        ensures
            *r == self.http_client(),
    {
        &self.client
    }

    /// The query this source resolves.
    pub fn query_str(&self) -> (r: &String)
        ensures
            r@ == self.request().1,
    {
        match &self.query {
            QueryType::UrlOrSearch(q) => q,
        }
    }

    /// The metadata kept from the last successful resolution, if any.
    pub fn cached_metadata(&self) -> (r: Option<&ResolvedTrack>)
        ensures
            match (r, self.cached()) {
                (Some(t), Some(c)) => *t == c,
                (None, None) => true,
                _ => false,
            },
    {
        self.metadata.as_ref()
    }

    /// Whether fetching metadata must run the resolver.
    pub fn needs_resolution(&self) -> (r: bool)
        ensures
            r == (self.cached() is None),
    {
        self.metadata.is_none()
    }

    /// The run of the resolver that prints the stream URL.
    pub fn url_job(&self) -> (r: ResolverJob)
        ensures
            r.program@ == self.request().0,
            crate::resolver::strings_view(r.args@) == crate::resolver::url_args_spec(
                self.request().1,
                self.request().2,
            ),
    {
        let q = self.query_str();
        ResolverJob { program: String::from_str(self.program), args: url_args(q.as_str(), &self.credentials) }
    }

    /// The run of the resolver that writes the metadata to `save_file`.
    pub fn save_job(&self, save_file: &str) -> (r: ResolverJob)
        ensures
            r.program@ == self.request().0,
            crate::resolver::strings_view(r.args@) == crate::resolver::save_args_spec(
                self.request().1,
                save_file@,
                self.request().2,
            ),
    {
        let q = self.query_str();
        ResolverJob {
            program: String::from_str(self.program),
            args: save_args(q.as_str(), save_file, &self.credentials),
        }
    }

    /// Records the outcome of one resolution: the run of the URL subcommand,
    /// the run of the metadata subcommand, and the parsed metadata file
    /// (`None` where it could not be read or parsed). On success the combined
    /// track is kept as the metadata and returned.
    pub fn finish_query(&mut self, url_run: ProcessRun, save_run: ProcessRun, parsed: Option<Vec<Song>>) -> (r:
        Result<ResolvedTrack, ResolveError>)
        ensures
            records_resolution(*old(self), query_outcome(url_run, save_run, songs_view(parsed)), *final(self)),
            match (r, query_outcome(url_run, save_run, songs_view(parsed))) {
                (Ok(t), Ok((url, song))) => combined(url, song, t),
                (Err(e), Err(expected)) => e@ == expected,
                _ => false,
            },
    {
        let ghost expected = query_outcome(url_run, save_run, songs_view(parsed));
        let url = url_from_run(url_run);
        let meta = song_from_run(&save_run, parsed);
        match url {
            Err(e) => Err(e),
            Ok(url) => match meta {
                Err(e) => Err(e),
                Ok(song) => {
                    let track = combine(url, song);
                    let kept = copy_track(&track);
                    self.metadata = Some(kept);
                    Ok(track)
                },
            },
        }
    }

    /// Finishes opening the byte stream: records the resolution as
    /// `finish_query` does and yields the request for the resolved stream.
    pub fn finish_open(&mut self, url_run: ProcessRun, save_run: ProcessRun, parsed: Option<Vec<Song>>) -> (r:
        Result<StreamRequest, ResolveError>)
        ensures
            records_resolution(*old(self), query_outcome(url_run, save_run, songs_view(parsed)), *final(self)),
            match (r, query_outcome(url_run, save_run, songs_view(parsed))) {
                (Ok(req), Ok((url, _))) => req.url@ == url && req.headers@.len() == 0
                    && req.content_length is None,
                (Err(e), Err(expected)) => e@ == expected,
                _ => false,
            },
    {
        match self.finish_query(url_run, save_run, parsed) {
            Err(e) => Err(e),
            Ok(track) => {
                let headers = match track.http_headers {
                    Some(h) => h,
                    None => Vec::new(),
                };
                Ok(StreamRequest { url: track.url, headers, content_length: track.filesize })
            },
        }
    }
}

/// A copy of a track as `combine` builds it.
fn copy_track(t: &ResolvedTrack) -> (r: ResolvedTrack)
    requires
        t.http_headers is None,
    ensures
        r == *t,
{
    ResolvedTrack {
        url: t.url.clone(),
        webpage_url: copy_text(&t.webpage_url),
        title: copy_text(&t.title),
        artist: copy_text(&t.artist),
        album: copy_text(&t.album),
        thumbnail: copy_text(&t.thumbnail),
        duration: t.duration,
        release_date: copy_text(&t.release_date),
        track_number: t.track_number,
        http_headers: None,
        filesize: t.filesize,
    }
}

fn copy_text(s: &Option<String>) -> (r: Option<String>)
    ensures
        r == *s,
{
    match s {
        Some(t) => Some(t.clone()),
        None => None,
    }
}

/// Two metadata fetches in a row run the resolver at most once where the
/// first one succeeds, and the second fetch leaves the source unchanged, so
/// that it yields the same metadata.
pub proof fn lemma_fetch_resolves_once(
    s0: SpotifyDl,
    url_run: ProcessRun,
    save_run: ProcessRun,
    parsed: Option<Seq<Song>>,
    s1: SpotifyDl,
    url_run2: ProcessRun,
    save_run2: ProcessRun,
    parsed2: Option<Seq<Song>>,
    s2: SpotifyDl,
)
    requires
        fetch_step(s0, url_run, save_run, parsed, s1),
        s0.cached() is Some || query_outcome(url_run, save_run, parsed) is Ok,
        fetch_step(s1, url_run2, save_run2, parsed2, s2),
    ensures
        fetch_resolutions(s0) + fetch_resolutions(s1) <= 1,
        s1.cached() is Some,
        s2 == s1,
{
}

} // verus!
