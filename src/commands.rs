//! Decisions and replies of the playback commands that do not depend on the
//! chat transport: how a query is read, what a skip reports, which search hits
//! are listed, and the texts shown to the user.
use vstd::prelude::*;
use vstd::string::*;

use crate::metadata::ResolvedTrack;
use crate::text::{chars_of, string_of};

verus! {

/// Shown when a command finds no voice connection and joins first.
pub const JOINING_NOTICE: &'static str = "Not in a voice channel to play in, joining...";

/// Shown when a track was started.
pub const PLAYING_REPLY: &'static str = "Playing song";

/// Shown when a track was added to the queue.
pub const QUEUED_REPLY: &'static str = "Queued song";

/// Shown when the queue command is given something that is not a link.
pub const NOT_A_URL_REPLY: &'static str = "Must provide a valid URL";

/// Placeholder for a metadata field that the resolver left empty.
pub const UNKNOWN_FIELD: &'static str = "Unknown";

/// How a query is resolved.
#[derive(Clone, Copy, Debug, PartialEq, Eq)]
pub enum QueryKind {
    /// A phrase to search for.
    Search,
    /// A link to resolve directly.
    Direct,
}

pub open spec fn is_alpha(c: char) -> bool {
    ('a' <= c && c <= 'z') || ('A' <= c && c <= 'Z')
}

/// A character that may follow the first letter of a URI scheme.
pub open spec fn is_scheme_char(c: char) -> bool {
    is_alpha(c) || ('0' <= c && c <= '9') || c == '+' || c == '-' || c == '.'
}

/// `s` begins with a URI scheme and its `://` separator.
pub open spec fn starts_with_scheme(s: Seq<char>) -> bool {
    exists|k: int|
        #![trigger s[k]]
        1 <= k && k + 3 <= s.len() && is_alpha(s[0]) && (forall|i: int|
            1 <= i < k ==> is_scheme_char(#[trigger] s[i])) && s[k] == ':' && s[k + 1] == '/' && s[k
            + 2] == '/'
    }

fn scheme_char(c: char) -> (r: bool)
    ensures
        r == is_scheme_char(c),
{
    ('a' <= c && c <= 'z') || ('A' <= c && c <= 'Z') || ('0' <= c && c <= '9') || c == '+' || c
        == '-' || c == '.'
}

/// Whether `query` is a link, that is begins with a URI scheme such as `https://`.
pub fn is_url(query: &str) -> (r: bool)
    ensures
        r == starts_with_scheme(query@),
{
    let v = chars_of(query);
    let n = v.len();
    if n == 0 || !(('a' <= v[0] && v[0] <= 'z') || ('A' <= v[0] && v[0] <= 'Z')) {
        return false;
    }
    let mut i: usize = 1;
    while i < n && scheme_char(v[i])
        invariant
            1 <= i <= n,
            n == v@.len(),
            v@ == query@,
            forall|j: int| 1 <= j < i ==> is_scheme_char(#[trigger] v@[j]),
        decreases n - i,
    {
        i = i + 1;
    }
    let r = i < n && n - i >= 3 && v[i] == ':' && v[i + 1] == '/' && v[i + 2] == '/';
    proof {
        if starts_with_scheme(query@) {
            let k = choose|k: int|
                #![trigger query@[k]]
                1 <= k && k + 3 <= query@.len() && is_alpha(query@[0]) && (forall|i: int|
                    1 <= i < k ==> is_scheme_char(#[trigger] query@[i])) && query@[k] == ':'
                    && query@[k + 1] == '/' && query@[k + 2] == '/';
            if (i as int) < k {
                assert(is_scheme_char(query@[i as int]));
            }
            if (i as int) > k {
                assert(is_scheme_char(v@[k]));
            }
            assert(i as int == k);
        }
        if r {
            assert(query@[i as int] == ':');
        }
    }
    r
}

/// Links are resolved directly, anything else is searched for.
pub fn query_kind(query: &str) -> (r: QueryKind)
    ensures
        r == (if starts_with_scheme(query@) {
            QueryKind::Direct
        } else {
            QueryKind::Search
        }),
{
    if is_url(query) {
        QueryKind::Direct
    } else {
        QueryKind::Search
    }
}

/// A user's playback request: the guild it is for and the query, read once
/// as a link or a search phrase. It does not change once made.
#[derive(Clone, Debug)]
pub struct PlaybackRequest {
    guild_id: u64,
    raw_query: String,
    is_url: bool,
}

impl PlaybackRequest {
    pub closed spec fn guild(&self) -> u64 {
        self.guild_id
    }

    pub closed spec fn query(&self) -> Seq<char> {
        self.raw_query@
    }

    pub closed spec fn link(&self) -> bool {
        self.is_url
    }

    /// The request for `query` in `guild_id`.
    pub fn new(guild_id: u64, query: String) -> (r: PlaybackRequest)
        ensures
            r.guild() == guild_id,
            r.query() == query@,
            r.link() == starts_with_scheme(query@),
    {
        let is_url = is_url(query.as_str());
        PlaybackRequest { guild_id, raw_query: query, is_url }
    }

    pub fn guild_id(&self) -> (r: u64)
        ensures
            r == self.guild(),
    {
        self.guild_id
    }

    pub fn raw_query(&self) -> (r: &String)
        ensures
            r@ == self.query(),
    {
        &self.raw_query
    }

    /// How the query is resolved: directly where it is a link.
    pub fn kind(&self) -> (r: QueryKind)
        ensures
            r == (if self.link() {
                QueryKind::Direct
            } else {
                QueryKind::Search
            }),
    {
        if self.is_url {
            QueryKind::Direct
        } else {
            QueryKind::Search
        }
    }
}

/// The number of tracks left once the current one of a queue of `len` is
/// skipped; an empty queue stays empty.
pub fn remaining_after_skip(len: usize) -> (r: usize)
    ensures
        r == if len == 0 {
            0
        } else {
            len - 1
        },
{
    if len == 0 {
        0
    } else {
        len - 1
    }
}

/// The decimal digit of `d`.
pub open spec fn digit_char(d: nat) -> char {
    if d == 0 { '0' } else if d == 1 { '1' } else if d == 2 { '2' } else if d == 3 { '3' }
    else if d == 4 { '4' } else if d == 5 { '5' } else if d == 6 { '6' } else if d == 7 { '7' }
    else if d == 8 { '8' } else { '9' }
}

/// The decimal notation of `n`.
pub open spec fn decimal(n: nat) -> Seq<char>
    decreases n,
{
    if n < 10 {
        seq![digit_char(n)]
    } else {
        decimal(n / 10).push(digit_char(n % 10))
    }
}

fn digit(d: usize) -> (r: char)
    requires
        d < 10,
    ensures
        r == digit_char(d as nat),
{
    if d == 0 { '0' } else if d == 1 { '1' } else if d == 2 { '2' } else if d == 3 { '3' }
    else if d == 4 { '4' } else if d == 5 { '5' } else if d == 6 { '6' } else if d == 7 { '7' }
    else if d == 8 { '8' } else { '9' }
}

fn push_decimal(n: usize, out: &mut Vec<char>)
    ensures
        final(out)@ == old(out)@ + decimal(n as nat),
    decreases n,
{
    if n >= 10 {
        push_decimal(n / 10, out);
    }
    out.push(digit(n % 10));
    assert(final(out)@ =~= old(out)@ + decimal(n as nat));
}

/// The decimal notation of `n` (see `decimal`).
pub fn decimal_string(n: usize) -> (r: String)
    ensures
        r@ == decimal(n as nat),
{
    let mut out: Vec<char> = Vec::new();
    push_decimal(n, &mut out);
    assert(out@ =~= decimal(n as nat));
    string_of(&out)
}

/// The reply of a command that could not get a voice connection within
/// `max_trials` trials.
pub fn gave_up_message(max_trials: u32) -> (r: String)
    ensures
        r@ == "Could not establish a voice connection after "@ + decimal(max_trials as nat)
            + " attempts."@,
{
    let n = decimal_string(max_trials as usize);
    String::from_str("Could not establish a voice connection after ").concat(n.as_str()).concat(
        " attempts.",
    )
}

/// The reply of a skip on a queue of `len` tracks.
pub fn skip_reply(len: usize) -> (r: String)
    ensures
        r@ == "Song skipped: "@ + decimal(
            (if len == 0 {
                0
            } else {
                len - 1
            }) as nat,
        ) + " in queue."@,
{
    let n = decimal_string(remaining_after_skip(len));
    String::from_str("Song skipped: ").concat(n.as_str()).concat(" in queue.")
}

/// One result of a search: its title and link, where the search gave them.
#[derive(Clone, Debug)]
pub struct SearchHit {
    pub title: Option<String>,
    pub source_url: Option<String>,
}

/// One listed search result: a name and the link it stands for.
#[derive(Clone, Debug)]
pub struct QueryResult {
    pub name: String,
    pub value: String,
}

/// The hits that have both a title and a link, as (title, link), in order.
pub open spec fn listed_hits(hits: Seq<SearchHit>) -> Seq<(Seq<char>, Seq<char>)>
    decreases hits.len(),
{
    if hits.len() == 0 {
        Seq::empty()
    } else {
        let rest = listed_hits(hits.drop_last());
        let h = hits.last();
        match (h.title, h.source_url) {
            (Some(t), Some(u)) => rest.push((t@, u@)),
            _ => rest,
        }
    }
}

pub open spec fn results_view(v: Seq<QueryResult>) -> Seq<(Seq<char>, Seq<char>)> {
    v.map_values(|q: QueryResult| (q.name@, q.value@))
}

/// The search hits that can be listed (see `listed_hits`).
pub fn collect_query_results(hits: Vec<SearchHit>) -> (r: Vec<QueryResult>)
    ensures
        results_view(r@) == listed_hits(hits@),
{
    let mut out: Vec<QueryResult> = Vec::new();
    let mut i: usize = 0;
    while i < hits.len()
        invariant
            i <= hits@.len(),
            results_view(out@) == listed_hits(hits@.subrange(0, i as int)),
        decreases hits@.len() - i,
    {
        let ghost before = out@;
        assert(hits@.subrange(0, i + 1).drop_last() =~= hits@.subrange(0, i as int));
        let h = &hits[i];
        match (&h.title, &h.source_url) {
            (Some(t), Some(u)) => {
                out.push(QueryResult { name: t.clone(), value: u.clone() });
                assert(results_view(out@) =~= results_view(before).push((t@, u@)));
            },
            _ => {},
        }
        i = i + 1;
    }
    assert(hits@.subrange(0, hits@.len() as int) =~= hits@);
    out
}

/// The texts shown for a track that starts playing.
#[derive(Clone, Debug)]
pub struct TrackCard {
    pub title: String,
    pub artist: String,
    pub album: String,
    pub image: String,
}

/// `field`, or `fallback` where it is absent.
pub open spec fn or_else(field: Option<String>, fallback: Seq<char>) -> Seq<char> {
    match field {
        Some(s) => s@,
        None => fallback,
    }
}

fn text_or(field: &Option<String>, fallback: &str) -> (r: String)
    ensures
        r@ == or_else(*field, fallback@),
{
    match field {
        Some(s) => s.clone(),
        None => String::from_str(fallback),
    }
}

/// The card of a resolved track: absent title, artist and album read
/// "Unknown", an absent image is empty.
pub fn track_card(track: &ResolvedTrack) -> (r: TrackCard)
    ensures
        r.title@ == or_else(track.title, UNKNOWN_FIELD@),
        r.artist@ == or_else(track.artist, UNKNOWN_FIELD@),
        r.album@ == or_else(track.album, UNKNOWN_FIELD@),
        r.image@ == or_else(track.thumbnail, Seq::empty()),
{
    TrackCard {
        title: text_or(&track.title, UNKNOWN_FIELD),
        artist: text_or(&track.artist, UNKNOWN_FIELD),
        album: text_or(&track.album, UNKNOWN_FIELD),
        image: {
            proof {
                reveal_strlit("");
            }
            text_or(&track.thumbnail, "")
        },
    }
}

} // verus!
