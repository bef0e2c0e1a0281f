//! The resolver adapter: the argument lists handed to the resolver program and
//! the classification of what a run of it produced.
use std::sync::Arc;
use vstd::prelude::*;
use vstd::string::*;
use vstd::utf8::*;

use crate::text::{decode_utf8_bytes, extract_result_line, result_line};

verus! {

/// The resolver program.
pub const SPOTIFY_DL_COMMAND: &'static str = "spotdl";

/// Subcommand that prints a playable stream URL.
pub const SPOTIFY_DL_OPTION_URL: &'static str = "url";

/// Subcommand that writes the track's metadata to a file.
pub const SPOTIFY_DL_OPTION_SAVE: &'static str = "save";

/// Flag naming the metadata file.
pub const SPOTIFY_DL_OPTION_SAVE_SAVE_FILE_FLAG: &'static str = "--save-file";

/// Flag carrying the streaming-service client id.
pub const SPOTIFY_DL_OPTION_SPOTIFY_CLIENT_ID_FLAG: &'static str = "--client-id";

/// Flag carrying the streaming-service client secret.
pub const SPOTIFY_DL_OPTION_SPOTIFY_CLIENT_SECRET_FLAG: &'static str = "--client-secret";

/// Text of a failure whose error output could not be read.
pub const NO_ERROR_MESSAGE: &'static str = "<no error message>";

/// Client id and secret of the streaming service, shared read-only.
#[derive(Clone, Debug)]
pub struct SpotifyCredential {
    pub client_id: Arc<String>,
    pub client_secret: Arc<String>,
}

/// Why a resolution failed.
#[derive(Clone, Debug, PartialEq, Eq)]
pub enum ResolveError {
    /// The resolver program is not on the path.
    ExecutableNotFound,
    /// The resolver could not be run or exited unsuccessfully; holds its error text.
    ResolverFailed(String),
    /// The resolver printed something that is not UTF-8.
    InvalidOutput,
    /// The resolver's metadata file is absent, unreadable or holds no track.
    NoResult,
}

/// What a `ResolveError` says, with its text as characters.
pub ghost enum ResolveFailure {
    ExecutableNotFound,
    ResolverFailed(Seq<char>),
    InvalidOutput,
    NoResult,
}

impl View for ResolveError {
    type V = ResolveFailure;

    open spec fn view(&self) -> ResolveFailure {
        match self {
            ResolveError::ExecutableNotFound => ResolveFailure::ExecutableNotFound,
            ResolveError::ResolverFailed(m) => ResolveFailure::ResolverFailed(m@),
            ResolveError::InvalidOutput => ResolveFailure::InvalidOutput,
            ResolveError::NoResult => ResolveFailure::NoResult,
        }
    }
}

/// What running the resolver once produced, as seen by the caller that ran it.
#[derive(Clone, Debug)]
pub enum ProcessRun {
    /// The program could not be found.
    NotFound,
    /// The program could not be started for another reason, described by the text.
    LaunchFailed(String),
    /// The program ran to its end.
    Finished { success: bool, stdout: Vec<u8>, stderr: Vec<u8> },
}

/// The arguments that follow the query when credentials are given.
pub open spec fn credential_args(credentials: Option<(Seq<char>, Seq<char>)>) -> Seq<Seq<char>> {
    match credentials {
        Some((id, secret)) => seq![
            SPOTIFY_DL_OPTION_SPOTIFY_CLIENT_ID_FLAG@,
            id,
            SPOTIFY_DL_OPTION_SPOTIFY_CLIENT_SECRET_FLAG@,
            secret,
        ],
        None => Seq::empty(),
    }
}

/// The credentials as a pair of character sequences.
pub open spec fn credential_view(credentials: Option<SpotifyCredential>) -> Option<(Seq<char>, Seq<char>)> {
    match credentials {
        Some(c) => Some(((*c.client_id)@, (*c.client_secret)@)),
        None => None,
    }
}

/// Arguments of the run that prints a stream URL for `query`.
pub open spec fn url_args_spec(query: Seq<char>, credentials: Option<(Seq<char>, Seq<char>)>) -> Seq<Seq<char>> {
    seq![SPOTIFY_DL_OPTION_URL@, query] + credential_args(credentials)
}

/// Arguments of the run that writes the metadata of `query` to `save_file`.
pub open spec fn save_args_spec(
    query: Seq<char>,
    save_file: Seq<char>,
    credentials: Option<(Seq<char>, Seq<char>)>,
) -> Seq<Seq<char>> {
    seq![SPOTIFY_DL_OPTION_SAVE@, query, SPOTIFY_DL_OPTION_SAVE_SAVE_FILE_FLAG@, save_file]
        + credential_args(credentials)
}

/// The character sequences of a list of strings.
pub open spec fn strings_view(v: Seq<String>) -> Seq<Seq<char>> {
    v.map_values(|s: String| s@)
}

fn push_str(v: &mut Vec<String>, s: &str)
    ensures
        strings_view(final(v)@) == strings_view(old(v)@).push(s@),
{
    v.push(String::from_str(s));
    assert(strings_view(v@) =~= strings_view(old(v)@).push(s@));
}

fn push_credentials(v: &mut Vec<String>, credentials: &Option<SpotifyCredential>)
    ensures
        strings_view(final(v)@) == strings_view(old(v)@) + credential_args(
            credential_view(*credentials),
        ),
{
    match credentials {
        Some(c) => {
            push_str(v, SPOTIFY_DL_OPTION_SPOTIFY_CLIENT_ID_FLAG);
            push_str(v, c.client_id.as_str());
            push_str(v, SPOTIFY_DL_OPTION_SPOTIFY_CLIENT_SECRET_FLAG);
            push_str(v, c.client_secret.as_str());
        },
        None => {},
    }
    assert(strings_view(v@) =~= strings_view(old(v)@) + credential_args(
        credential_view(*credentials),
    ));
}

/// Arguments of the run that prints a stream URL for `query`.
pub fn url_args(query: &str, credentials: &Option<SpotifyCredential>) -> (r: Vec<String>)
    ensures
        strings_view(r@) == url_args_spec(query@, credential_view(*credentials)),
{
    let mut v: Vec<String> = Vec::new();
    push_str(&mut v, SPOTIFY_DL_OPTION_URL);
    push_str(&mut v, query);
    push_credentials(&mut v, credentials);
    assert(strings_view(v@) =~= url_args_spec(query@, credential_view(*credentials)));
    v
}

/// Arguments of the run that writes the metadata of `query` to `save_file`.
pub fn save_args(query: &str, save_file: &str, credentials: &Option<SpotifyCredential>) -> (r: Vec<
    String,
>)
    ensures
        strings_view(r@) == save_args_spec(query@, save_file@, credential_view(*credentials)),
{
    let mut v: Vec<String> = Vec::new();
    push_str(&mut v, SPOTIFY_DL_OPTION_SAVE);
    push_str(&mut v, query);
    push_str(&mut v, SPOTIFY_DL_OPTION_SAVE_SAVE_FILE_FLAG);
    push_str(&mut v, save_file);
    push_credentials(&mut v, credentials);
    assert(strings_view(v@) =~= save_args_spec(
        query@,
        save_file@,
        credential_view(*credentials),
    ));
    v
}

/// The error text of a failed run: its error output, or a placeholder where
/// that output is not UTF-8.
pub open spec fn failure_text(stderr: Seq<u8>) -> Seq<char> {
    if valid_utf8(stderr) {
        decode_utf8(stderr)
    } else {
        NO_ERROR_MESSAGE@
    }
}

/// The error that a run that did not succeed stands for, if any.
pub open spec fn run_error(run: ProcessRun) -> Option<ResolveFailure> {
    match run {
        ProcessRun::NotFound => Some(ResolveFailure::ExecutableNotFound),
        ProcessRun::LaunchFailed(msg) => Some(ResolveFailure::ResolverFailed(msg@)),
        ProcessRun::Finished { success, stderr, .. } => if success {
            None
        } else {
            Some(ResolveFailure::ResolverFailed(failure_text(stderr@)))
        },
    }
}

/// What the run that prints a stream URL yields: the failure of the run, or
/// the result line of its output where that output is UTF-8.
pub open spec fn url_outcome(run: ProcessRun) -> Result<Seq<char>, ResolveFailure> {
    match run_error(run) {
        Some(e) => Err(e),
        None => match run {
            ProcessRun::Finished { stdout, .. } => if valid_utf8(stdout@) {
                Ok(result_line(decode_utf8(stdout@)))
            } else {
                Err(ResolveFailure::InvalidOutput)
            },
            _ => Err(ResolveFailure::InvalidOutput),
        },
    }
}

/// The error text of a failed run (see `failure_text`).
pub fn failure_message(stderr: &Vec<u8>) -> (r: String)
    ensures
        r@ == failure_text(stderr@),
{
    let copy = stderr.clone();
    assert(copy@ =~= stderr@);
    match decode_utf8_bytes(copy) {
        Some(text) => text,
        None => String::from_str(NO_ERROR_MESSAGE),
    }
}

/// Whether a run of the resolver succeeded, and if not, the error it stands for.
pub fn check_run(run: &ProcessRun) -> (r: Result<(), ResolveError>)
    ensures
        match run_error(*run) {
            Some(e) => r is Err && r->Err_0@ == e,
            None => r is Ok,
        },
{
    match run {
        ProcessRun::NotFound => Err(ResolveError::ExecutableNotFound),
        ProcessRun::LaunchFailed(msg) => Err(ResolveError::ResolverFailed(msg.clone())),
        ProcessRun::Finished { success, stderr, .. } => {
            if *success {
                Ok(())
            } else {
                Err(ResolveError::ResolverFailed(failure_message(stderr)))
            }
        },
    }
}

/// The stream URL that a run of the resolver's URL subcommand printed: the
/// last line of its output, after its diagnostics.
pub fn url_from_run(run: ProcessRun) -> (r: Result<String, ResolveError>)
    ensures
        match (r, url_outcome(run)) {
            (Ok(url), Ok(expected)) => url@ == expected,
            (Err(e), Err(expected)) => e@ == expected,
            _ => false,
        },
{
    match check_run(&run) {
        Err(e) => Err(e),
        Ok(()) => match run {
            ProcessRun::Finished { stdout, .. } => match decode_utf8_bytes(stdout) {
                Some(text) => Ok(extract_result_line(text.as_str())),
                None => Err(ResolveError::InvalidOutput),
            },
            _ => Err(ResolveError::InvalidOutput),
        },
    }
}

} // verus!
