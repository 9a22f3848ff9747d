//! Reading the session token out of the landing page.
//!
//! The scan is line-oriented and deliberately loose: the first line that
//! mentions the marker is taken, and on it the text between the first
//! `content="` and the next `"`. The token is passed on as found, without
//! escaping or validation.
use vstd::prelude::*;
use crate::error::ProxyError;
use crate::text::{
    collect_chars, find_within, first_within, lemma_first_within_unique, occurs_at,
    occurs_within,
};

verus! {

/// Text that marks the line holding the session token.
pub const MARKER: &'static str = "csrf-token";

/// Text that opens the token's value on the marked line.
pub const OPENER: &'static str = "content=\"";

/// `s[a..b]` is a whole line of `s`: no line break inside, one (or an end of
/// the text) on either side.
pub open spec fn is_line(s: Seq<char>, a: int, b: int) -> bool {
    &&& 0 <= a <= b <= s.len()
    &&& a == 0 || s[a - 1] == '\n'
    &&& b == s.len() || s[b] == '\n'
    &&& forall|k: int| a <= k < b ==> s[k] != '\n'
}

/// `s[a..b]` is the first line of `s` that holds the marker.
pub open spec fn marked_line(s: Seq<char>, a: int, b: int) -> bool {
    &&& is_line(s, a, b)
    &&& occurs_within(s, MARKER@, a, b)
    &&& !occurs_within(s, MARKER@, 0, a)
}

/// `q` is the first double quote inside `s[lo..hi]`.
pub open spec fn first_quote(s: Seq<char>, lo: int, hi: int, q: int) -> bool {
    &&& 0 <= lo <= q < hi <= s.len()
    &&& s[q] == '"'
    &&& forall|j: int| lo <= j < q ==> s[j] != '"'
}

/// On the first marked line `s[a..b]`, the first opener starts at `c` and the
/// first quote after it is at `q`: the token's value is `s[c + |opener|..q]`.
pub open spec fn value_span(s: Seq<char>, a: int, b: int, c: int, q: int) -> bool {
    &&& marked_line(s, a, b)
    &&& first_within(s, OPENER@, a, b, c)
    &&& first_quote(s, c + OPENER@.len(), b, q)
}

/// The page carries a token: its marked line has a well-formed, non-empty value.
pub open spec fn has_credential(s: Seq<char>) -> bool {
    exists|a: int, b: int, c: int, q: int|
        #[trigger] value_span(s, a, b, c, q) && q > c + OPENER@.len()
}

/// The token that the page carries (meaningful where `has_credential(s)`).
pub open spec fn credential(s: Seq<char>) -> Seq<char> {
    let (a, b, c, q) = choose|a: int, b: int, c: int, q: int|
        #[trigger] value_span(s, a, b, c, q) && q > c + OPENER@.len();
    s.subrange(c + OPENER@.len(), q)
}

proof fn lemma_marker_has_no_break()
    ensures
        MARKER@.len() > 0,
        forall|k: int| 0 <= k < MARKER@.len() ==> MARKER@[k] != '\n',
{
    reveal_strlit("csrf-token");
}

proof fn lemma_marked_line_unique(s: Seq<char>, a: int, b: int, a2: int, b2: int)
    requires
        marked_line(s, a, b),
        marked_line(s, a2, b2),
    ensures
        a == a2,
        b == b2,
{
    if a < a2 {
        let j = choose|j: int| a <= j && j + MARKER@.len() <= b && #[trigger] occurs_at(s, MARKER@, j);
        assert(s[a2 - 1] == '\n');
        assert(b <= a2 - 1);
        assert(occurs_within(s, MARKER@, 0, a2));
    } else if a2 < a {
        let j = choose|j: int| a2 <= j && j + MARKER@.len() <= b2 && #[trigger] occurs_at(s, MARKER@, j);
        assert(s[a - 1] == '\n');
        assert(b2 <= a - 1);
        assert(occurs_within(s, MARKER@, 0, a));
    }
    if b < b2 {
        assert(s[b] == '\n');
    } else if b2 < b {
        assert(s[b2] == '\n');
    }
}

proof fn lemma_value_span_unique(
    s: Seq<char>,
    a: int,
    b: int,
    c: int,
    q: int,
    a2: int,
    b2: int,
    c2: int,
    q2: int,
)
    requires
        value_span(s, a, b, c, q),
        value_span(s, a2, b2, c2, q2),
    ensures
        a == a2 && b == b2 && c == c2 && q == q2,
{
    lemma_marked_line_unique(s, a, b, a2, b2);
    lemma_first_within_unique(s, OPENER@, a, b, c, c2);
    if q < q2 {
        assert(s[q] == '"');
    } else if q2 < q {
        assert(s[q2] == '"');
    }
}

/// Where the page's marked line holds a well-formed value, the token read from
/// the page is exactly the text between that line's first `content="` and the
/// next `"`.
pub proof fn lemma_credential_is_quoted_value(s: Seq<char>, a: int, b: int, c: int, q: int)
    requires
        value_span(s, a, b, c, q),
        q > c + OPENER@.len(),
    ensures
        has_credential(s),
        credential(s) == s.subrange(c + OPENER@.len(), q),
{
    assert(value_span(s, a, b, c, q) && q > c + OPENER@.len());
    let (a2, b2, c2, q2) = choose|a2: int, b2: int, c2: int, q2: int|
        #[trigger] value_span(s, a2, b2, c2, q2) && q2 > c2 + OPENER@.len();
    lemma_value_span_unique(s, a, b, c, q, a2, b2, c2, q2);
}

/// A page with no line holding the marker carries no token.
pub proof fn lemma_no_marker_no_credential(s: Seq<char>)
    requires
        !occurs_within(s, MARKER@, 0, s.len() as int),
    ensures
        !has_credential(s),
{
    if has_credential(s) {
        let (a, b, c, q) = choose|a: int, b: int, c: int, q: int|
            #[trigger] value_span(s, a, b, c, q) && q > c + OPENER@.len();
        let j = choose|j: int| a <= j && j + MARKER@.len() <= b && #[trigger] occurs_at(s, MARKER@, j);
        assert(occurs_within(s, MARKER@, 0, s.len() as int));
    }
}

/// A page whose marked line has no `content="` carries no token.
pub proof fn lemma_no_opener_no_credential(s: Seq<char>, a: int, b: int)
    requires
        marked_line(s, a, b),
        !occurs_within(s, OPENER@, a, b),
    ensures
        !has_credential(s),
{
    if has_credential(s) {
        let (a2, b2, c, q) = choose|a2: int, b2: int, c: int, q: int|
            #[trigger] value_span(s, a2, b2, c, q) && q > c + OPENER@.len();
        lemma_marked_line_unique(s, a, b, a2, b2);
        assert(occurs_at(s, OPENER@, c));
    }
}

/// Start of the line that holds index `i`.
fn line_start(s: &Vec<char>, i: usize) -> (a: usize)
    requires
        i <= s@.len(),
    ensures
        a <= i,
        a == 0 || s@[a - 1] == '\n',
        forall|k: int| a <= k < i ==> s@[k] != '\n',
{
    let mut a: usize = i;
    while a > 0 && s[a - 1] != '\n'
        invariant
            a <= i <= s@.len(),
            forall|k: int| a <= k < i ==> s@[k] != '\n',
        decreases a,
    {
        a -= 1;
    }
    a
}

/// End of the line that holds index `i`.
fn line_end(s: &Vec<char>, i: usize) -> (b: usize)
    requires
        i <= s@.len(),
    ensures
        i <= b <= s@.len(),
        b == s@.len() || s@[b as int] == '\n',
        forall|k: int| i <= k < b ==> s@[k] != '\n',
{
    let mut b: usize = i;
    while b < s.len() && s[b] != '\n'
        invariant
            i <= b <= s@.len(),
            forall|k: int| i <= k < b ==> s@[k] != '\n',
        decreases s@.len() - b,
    {
        b += 1;
    }
    b
}

/// First double quote inside `s[lo..hi]`, if any.
fn find_quote(s: &Vec<char>, lo: usize, hi: usize) -> (r: Option<usize>)
    requires
        lo <= hi <= s@.len(),
    ensures
        match r {
            Some(q) => first_quote(s@, lo as int, hi as int, q as int),
            None => forall|j: int| lo <= j < hi ==> s@[j] != '"',
        },
{
    let mut q: usize = lo;
    while q < hi
        invariant
            lo <= q <= hi <= s@.len(),
            forall|j: int| lo <= j < q ==> s@[j] != '"',
        decreases hi - q,
    {
        if s[q] == '"' {
            return Some(q);
        }
        q += 1;
    }
    None
}

/// Reads the session token out of the landing page `html`.
///
/// Takes the first line that holds `csrf-token`, and on it the text between
/// the first `content="` and the next `"`. Fails with `CredentialNotFound`
/// where no line holds the marker, where that line has no such quoted value,
/// or where the value is empty.
pub fn extract_credential(html: &str) -> (r: Result<String, ProxyError>)
    ensures
        match r {
            Ok(t) => has_credential(html@) && t@ == credential(html@),
            Err(e) => !has_credential(html@) && e == ProxyError::CredentialNotFound,
        },
{
    let s = collect_chars(html);
    let marker = collect_chars(MARKER);
    let opener = collect_chars(OPENER);
    let m = match find_within(&s, &marker, 0, s.len()) {
        Some(m) => m,
        None => {
            proof { lemma_no_marker_no_credential(html@); }
            return Err(ProxyError::CredentialNotFound);
        },
    };
    let a = line_start(&s, m);
    let b = line_end(&s, m);
    proof {
        lemma_marker_has_no_break();
        assert forall|k: int| m <= k < m + MARKER@.len() implies s@[k] != '\n' by {
            assert(s@.subrange(m as int, m + MARKER@.len())[k - m] == MARKER@[k - m]);
        }
        assert(m + MARKER@.len() <= b);
        assert(is_line(s@, a as int, b as int));
        assert(occurs_within(s@, MARKER@, a as int, b as int));
        assert(marked_line(s@, a as int, b as int));
    }
    let c = match find_within(&s, &opener, a, b) {
        Some(c) => c,
        None => {
            proof { lemma_no_opener_no_credential(html@, a as int, b as int); }
            return Err(ProxyError::CredentialNotFound);
        },
    };
    let v = c + opener.len();
    match find_quote(&s, v, b) {
        Some(q) => {
            if q == v {
                proof {
                    if has_credential(html@) {
                        let (a2, b2, c2, q2) = choose|a2: int, b2: int, c2: int, q2: int|
                            #[trigger] value_span(html@, a2, b2, c2, q2) && q2 > c2 + OPENER@.len();
                        lemma_value_span_unique(html@, a as int, b as int, c as int, q as int, a2, b2, c2, q2);
                    }
                }
                return Err(ProxyError::CredentialNotFound);
            }
            proof { lemma_credential_is_quoted_value(html@, a as int, b as int, c as int, q as int); }
            Ok(html.substring_char(v, q).to_owned())
        },
        None => {
            proof {
                if has_credential(html@) {
                    let (a2, b2, c2, q2) = choose|a2: int, b2: int, c2: int, q2: int|
                        #[trigger] value_span(html@, a2, b2, c2, q2) && q2 > c2 + OPENER@.len();
                    lemma_marked_line_unique(html@, a as int, b as int, a2, b2);
                    lemma_first_within_unique(html@, OPENER@, a as int, b as int, c as int, c2);
                    assert(html@[q2] == '"');
                }
            }
            Err(ProxyError::CredentialNotFound)
        },
    }
}

} // verus!
