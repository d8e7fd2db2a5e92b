//! Pulling identifiers and URLs out of text: the video id of a shorts URL, and
//! the absolute URL embedded in a worker's log line.
use vstd::prelude::*;

verus! {

/// The pattern that locates a shorts video id: the path marker, then the id
/// as capture group 1.
pub const SHORTS_ID_PATTERN: &'static str = r"youtube\.com/shorts/([a-zA-Z0-9_-]+)";

/// The text that precedes a video id in a shorts URL.
pub open spec fn shorts_marker() -> Seq<char> {
    seq!['y', 'o', 'u', 't', 'u', 'b', 'e', '.', 'c', 'o', 'm', '/', 's', 'h', 'o', 'r', 't', 's', '/']
}

/// A character that may stand in a video id.
pub open spec fn is_id_char(c: char) -> bool {
    ('a' <= c && c <= 'z') || ('A' <= c && c <= 'Z') || ('0' <= c && c <= '9') || c == '_' || c == '-'
}

/// A well-formed video id: non-empty, of id characters only.
pub open spec fn is_video_id(s: Seq<char>) -> bool {
    s.len() > 0 && forall|i: int| 0 <= i < s.len() ==> is_id_char(#[trigger] s[i])
}

/// The marker stands at `p` and an id character follows it.
pub open spec fn id_starts_after_marker(s: Seq<char>, p: int) -> bool {
    &&& 0 <= p
    &&& p + shorts_marker().len() < s.len()
    &&& s.subrange(p, p + shorts_marker().len()) == shorts_marker()
    &&& is_id_char(s[p + shorts_marker().len()])
}

/// The first position at or after `from` where the marker stands followed by an id character.
pub open spec fn first_marker_from(s: Seq<char>, from: int) -> Option<int>
    decreases s.len() - from,
{
    if from < 0 || from >= s.len() {
        None
    } else if id_starts_after_marker(s, from) {
        Some(from)
    } else {
        first_marker_from(s, from + 1)
    }
}

/// The end of the run of id characters that starts at `q`.
pub open spec fn id_run_end(s: Seq<char>, q: int) -> int
    decreases s.len() - q,
{
    if q < 0 || q >= s.len() || !is_id_char(s[q]) {
        q
    } else {
        id_run_end(s, q + 1)
    }
}

/// The video id of the leftmost marker followed by an id character: the
/// longest run of id characters after it.
pub open spec fn shorts_id(s: Seq<char>) -> Option<Seq<char>> {
    match first_marker_from(s, 0) {
        None => None,
        Some(p) => {
            let q = p + shorts_marker().len();
            Some(s.subrange(q, id_run_end(s, q)))
        },
    }
}

pub open spec fn string_option_view(r: Option<String>) -> Option<Seq<char>> {
    match r {
        None => None,
        Some(x) => Some(x@),
    }
}

/// Relies on regex::Regex::new, Regex::captures and Captures::get: the pattern
/// compiles, the search finds the leftmost match, and the greedy group 1 is the
/// longest run of id characters after the marker.
#[verifier::external_body]
fn regex_capture_id(pattern: &str, text: &str) -> (r: Option<String>)
    requires
        pattern@ == SHORTS_ID_PATTERN@,
    ensures
        string_option_view(r) == shorts_id(text@),
{
    let re = regex::Regex::new(pattern).ok()?;
    re.captures(text)?.get(1).map(|m| m.as_str().to_string())
}

proof fn lemma_id_run(s: Seq<char>, q: int)
    requires
        0 <= q <= s.len(),
    ensures
        q <= id_run_end(s, q) <= s.len(),
        forall|k: int| q <= k < id_run_end(s, q) ==> is_id_char(#[trigger] s[k]),
        q < s.len() && is_id_char(s[q]) ==> id_run_end(s, q) > q,
    decreases s.len() - q,
{
    if q < s.len() && is_id_char(s[q]) {
        lemma_id_run(s, q + 1);
    }
}

proof fn lemma_first_marker(s: Seq<char>, from: int)
    requires
        0 <= from,
    ensures
        first_marker_from(s, from) matches Some(p) ==> from <= p && id_starts_after_marker(s, p),
    decreases s.len() - from,
{
    if from < s.len() && !id_starts_after_marker(s, from) {
        lemma_first_marker(s, from + 1);
    }
}

/// The video id of a shorts URL, or `None` when the URL holds no marker
/// followed by an id. Never fails on any input; an id it returns is well formed.
pub fn extract_video_id(url: &str) -> (r: Option<String>)
    ensures
        string_option_view(r) == shorts_id(url@),
        r matches Some(id) ==> is_video_id(id@),
{
    let r = regex_capture_id(SHORTS_ID_PATTERN, url);
    proof {
        let s = url@;
        lemma_first_marker(s, 0);
        if let Some(p) = first_marker_from(s, 0) {
            let q = p + shorts_marker().len();
            lemma_id_run(s, q);
            let id = s.subrange(q, id_run_end(s, q));
            assert forall|i: int| 0 <= i < id.len() implies is_id_char(#[trigger] id[i]) by {
                assert(id[i] == s[q + i]);
            }
        }
    }
    r
}

/// The scheme that opens a plain absolute URL.
pub open spec fn http_marker() -> Seq<char> {
    seq!['h', 't', 't', 'p', ':', '/', '/']
}

/// The scheme that opens a secure absolute URL.
pub open spec fn https_marker() -> Seq<char> {
    seq!['h', 't', 't', 'p', 's', ':', '/', '/']
}

pub open spec fn occurs_at(s: Seq<char>, p: int, pat: Seq<char>) -> bool {
    0 <= p && p + pat.len() <= s.len() && s.subrange(p, p + pat.len()) == pat
}

/// An absolute URL starts at `p`.
pub open spec fn url_starts_at(s: Seq<char>, p: int) -> bool {
    occurs_at(s, p, http_marker()) || occurs_at(s, p, https_marker())
}

/// The first position at or after `from` where an absolute URL starts.
pub open spec fn first_url_from(s: Seq<char>, from: int) -> Option<int>
    decreases s.len() - from,
{
    if from < 0 || from >= s.len() {
        None
    } else if url_starts_at(s, from) {
        Some(from)
    } else {
        first_url_from(s, from + 1)
    }
}

pub open spec fn is_space(c: char) -> bool {
    c == ' ' || c == '\t' || c == '\n' || c == '\r'
}

/// The first whitespace position at or after `q`, or the end of `s`.
pub open spec fn token_end(s: Seq<char>, q: int) -> int
    decreases s.len() - q,
{
    if q < 0 || q >= s.len() || is_space(s[q]) {
        q
    } else {
        token_end(s, q + 1)
    }
}

/// The first absolute URL in a log line, up to the next whitespace or the end
/// of the line.
pub open spec fn line_url(s: Seq<char>) -> Option<Seq<char>> {
    match first_url_from(s, 0) {
        None => None,
        Some(p) => Some(s.subrange(p, token_end(s, p))),
    }
}

fn chars_of(s: &str) -> (r: Vec<char>)
    ensures
        r@ == s@,
{
    let n = s.unicode_len();
    let mut r: Vec<char> = Vec::new();
    let mut i: usize = 0;
    while i < n
        invariant
            n == s@.len(),
            i <= n,
            r@ == s@.take(i as int),
        decreases n - i,
    {
        r.push(s.get_char(i));
        proof {
            assert(r@ == s@.take(i as int + 1));
        }
        i = i + 1;
    }
    proof {
        assert(s@.take(n as int) == s@);
    }
    r
}

fn occurs_at_exec(s: &Vec<char>, p: usize, pat: &Vec<char>) -> (r: bool)
    ensures
        r == occurs_at(s@, p as int, pat@),
{
    if p > s.len() || pat.len() > s.len() - p {
        return false;
    }
    let mut k: usize = 0;
    while k < pat.len()
        invariant
            p + pat@.len() <= s@.len(),
            s@.len() == s.len(),
            pat@.len() == pat.len(),
            k <= pat@.len(),
            forall|j: int| 0 <= j < k ==> s@[p + j] == pat@[j],
        decreases pat@.len() - k,
    {
        if s[p + k] != pat[k] {
            proof {
                assert(s@.subrange(p as int, p + pat@.len())[k as int] != pat@[k as int]);
            }
            return false;
        }
        k = k + 1;
    }
    proof {
        assert(s@.subrange(p as int, p + pat@.len()) =~= pat@);
    }
    true
}

/// The absolute URL that a worker's log line carries, from its scheme up to
/// the next whitespace; `None` for a line without one.
pub fn classify_line(line: &str) -> (r: Option<String>)
    ensures
        string_option_view(r) == line_url(line@),
{
    let s = chars_of(line);
    let http: Vec<char> = vec!['h', 't', 't', 'p', ':', '/', '/'];
    let https: Vec<char> = vec!['h', 't', 't', 'p', 's', ':', '/', '/'];
    proof {
        assert(http@ =~= http_marker());
        assert(https@ =~= https_marker());
    }
    let n = s.len();
    let mut p: usize = 0;
    while p < n
        invariant
            n == s@.len(),
            s@ == line@,
            http@ == http_marker(),
            https@ == https_marker(),
            p <= n,
            first_url_from(s@, 0) == first_url_from(s@, p as int),
        decreases n - p,
    {
        if occurs_at_exec(&s, p, &http) || occurs_at_exec(&s, p, &https) {
            let mut e: usize = p;
            while e < n && !(s[e] == ' ' || s[e] == '\t' || s[e] == '\n' || s[e] == '\r')
                invariant
                    n == s@.len(),
                    p <= e <= n,
                    token_end(s@, p as int) == token_end(s@, e as int),
                decreases n - e,
            {
                e = e + 1;
            }
            let u = line.substring_char(p, e);
            return Some(u.to_owned());
        }
        p = p + 1;
    }
    None
}

} // verus!
