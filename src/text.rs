//! Character-level helpers: UTF-8 decoding and extraction of the result line
//! that the resolver prints after its diagnostics.
use vstd::prelude::*;
use vstd::string::*;
use vstd::utf8::*;

verus! {

/// Whitespace that surrounds the resolver's printed result: the characters
/// with the Unicode White_Space property.
pub open spec fn is_blank(c: char) -> bool {
    ('\t' <= c && c <= '\r') || c == ' ' || c == '\u{85}' || c == '\u{A0}' || c == '\u{1680}'
        || ('\u{2000}' <= c && c <= '\u{200A}') || c == '\u{2028}' || c == '\u{2029}' || c
        == '\u{202F}' || c == '\u{205F}' || c == '\u{3000}'
}

/// Whether `c` is whitespace (see `is_blank`).
pub fn blank(c: char) -> (r: bool)
    ensures
        r == is_blank(c),
{
    ('\t' <= c && c <= '\r') || c == ' ' || c == '\u{85}' || c == '\u{A0}' || c == '\u{1680}'
        || ('\u{2000}' <= c && c <= '\u{200A}') || c == '\u{2028}' || c == '\u{2029}' || c
        == '\u{202F}' || c == '\u{205F}' || c == '\u{3000}'
}

/// `s` without its leading whitespace.
pub open spec fn trim_start(s: Seq<char>) -> Seq<char>
    decreases s.len(),
{
    if s.len() > 0 && is_blank(s[0]) {
        trim_start(s.drop_first())
    } else {
        s
    }
}

/// `s` without its trailing whitespace.
pub open spec fn trim_end(s: Seq<char>) -> Seq<char>
    decreases s.len(),
{
    if s.len() > 0 && is_blank(s.last()) {
        trim_end(s.drop_last())
    } else {
        s
    }
}

/// What follows the last line feed of `s` (all of `s` when it holds none).
pub open spec fn last_line(s: Seq<char>) -> Seq<char>
    decreases s.len(),
{
    if s.len() == 0 {
        s
    } else if s.last() == '\n' {
        Seq::empty()
    } else {
        last_line(s.drop_last()).push(s.last())
    }
}

/// The result line of the resolver's output: the last line of the output once
/// the surrounding whitespace of the whole output is removed, itself without
/// leading whitespace. It is the last line that holds anything but
/// whitespace, trimmed.
pub open spec fn result_line(s: Seq<char>) -> Seq<char> {
    trim_start(last_line(trim_end(trim_start(s))))
}

/// Relies on `String::from_utf8`: it accepts exactly the well-formed UTF-8
/// byte sequences and then holds the characters they encode.
#[verifier::external_body]
pub(crate) fn decode_utf8_bytes(bytes: Vec<u8>) -> (r: Option<String>)
    ensures
        r is Some <==> valid_utf8(bytes@),
        r is Some ==> r->Some_0@ == decode_utf8(bytes@),
{
    String::from_utf8(bytes).ok()
}

/// Relies on `String::push`: appends one character.
#[verifier::external_body]
fn push_char(s: &mut String, c: char)
    ensures
        final(s)@ == old(s)@.push(c),
{
    s.push(c)
}

/// The characters of `s` in order.
pub(crate) fn chars_of(s: &str) -> (r: Vec<char>)
    ensures
        r@ == s@,
{
    let mut v: Vec<char> = Vec::new();
    for c in it: s.chars()
        invariant
            it.seq() == s@,
            v@ == it.seq().take(it.index() as int),
    {
        v.push(c);
        assert(v@ =~= it.seq().take(it.index() + 1));
    }
    assert(v@ =~= s@);
    v
}

/// The string of the given characters in order.
pub(crate) fn string_of(chars: &Vec<char>) -> (r: String)
    ensures
        r@ == chars@,
{
    let mut out = String::new();
    let mut i: usize = 0;
    while i < chars.len()
        invariant
            i <= chars@.len(),
            out@ == chars@.subrange(0, i as int),
        decreases chars@.len() - i,
    {
        push_char(&mut out, chars[i]);
        assert(out@ =~= chars@.subrange(0, i + 1));
        i = i + 1;
    }
    assert(chars@.subrange(0, chars@.len() as int) =~= chars@);
    out
}

/// The result line of `output` (see `result_line`).
pub fn extract_result_line(output: &str) -> (r: String)
    ensures
        r@ == result_line(output@),
{
    let v = chars_of(output);
    let n = v.len();
    let ghost s = v@;
    let mut i: usize = 0;
    assert(s.subrange(0, n as int) =~= s);
    while i < n && blank(v[i])
        invariant
            i <= n,
            n == s.len(),
            v@ == s,
            trim_start(s) == trim_start(s.subrange(i as int, n as int)),
        decreases n - i,
    {
        assert(s.subrange(i as int, n as int).drop_first() =~= s.subrange(i + 1, n as int));
        i = i + 1;
    }
    assert(trim_start(s) == s.subrange(i as int, n as int));
    let mut j: usize = n;
    while j > i && blank(v[j - 1])
        invariant
            i <= j <= n,
            n == s.len(),
            v@ == s,
            trim_end(trim_start(s)) == trim_end(s.subrange(i as int, j as int)),
        decreases j,
    {
        assert(s.subrange(i as int, j as int).drop_last() =~= s.subrange(i as int, j - 1));
        j = j - 1;
    }
    assert(trim_end(trim_start(s)) == s.subrange(i as int, j as int));
    let mut k: usize = j;
    assert(s.subrange(j as int, j as int) =~= Seq::<char>::empty());
    assert(s.subrange(i as int, j as int) =~= s.subrange(i as int, j as int) + Seq::<char>::empty());
    while k > i && v[k - 1] != '\n'
        invariant
            i <= k <= j,
            j <= n,
            n == s.len(),
            v@ == s,
            last_line(trim_end(trim_start(s))) == last_line(s.subrange(i as int, k as int))
                + s.subrange(k as int, j as int),
        decreases k,
    {
        let ghost t = s.subrange(i as int, k as int);
        assert(t.drop_last() =~= s.subrange(i as int, k - 1));
        assert(last_line(t) == last_line(t.drop_last()).push(t.last()));
        assert(last_line(t.drop_last()).push(t.last()) + s.subrange(k as int, j as int)
            =~= last_line(s.subrange(i as int, k - 1)) + s.subrange(k - 1, j as int));
        k = k - 1;
    }
    assert(last_line(s.subrange(i as int, k as int)) =~= Seq::<char>::empty());
    assert(last_line(trim_end(trim_start(s))) =~= s.subrange(k as int, j as int));
    let mut m: usize = k;
    while m < j && blank(v[m])
        invariant
            k <= m <= j,
            j <= n,
            n == s.len(),
            v@ == s,
            result_line(s) == trim_start(s.subrange(m as int, j as int)),
        decreases j - m,
    {
        assert(s.subrange(m as int, j as int).drop_first() =~= s.subrange(m + 1, j as int));
        m = m + 1;
    }
    assert(result_line(s) == s.subrange(m as int, j as int));
    let k = m;
    let mut out: Vec<char> = Vec::new();
    let mut p: usize = k;
    while p < j
        invariant
            k <= p <= j,
            j <= n,
            n == s.len(),
            v@ == s,
            out@ == s.subrange(k as int, p as int),
        decreases j - p,
    {
        out.push(v[p]);
        assert(out@ =~= s.subrange(k as int, p + 1));
        p = p + 1;
    }
    string_of(&out)
}

} // verus!
