//! Resolving an item identifier from a reference string.

use crate::text::{chars_of, text_view};
use vstd::prelude::*;
use vstd::string::*;

verus! {

/// Number of characters of an item identifier.
pub const ID_LEN: usize = 11;

/// True when `c` ends the identifier token inside a reference.
pub open spec fn is_terminator(c: char) -> bool {
    c == '&' || c == ' ' || c == '\r' || c == '\n'
}

/// True when the marker `v=` stands at position `i` of `s`.
pub open spec fn marker_at(s: Seq<char>, i: int) -> bool {
    0 <= i && i + 1 < s.len() && s[i] == 'v' && s[i + 1] == '='
}

/// Position of the first marker at or after `from`, or `s.len()` when there is none.
pub open spec fn marker_from(s: Seq<char>, from: int) -> int
    decreases s.len() - from,
{
    if from < 0 || from + 1 >= s.len() {
        s.len() as int
    } else if marker_at(s, from) {
        from
    } else {
        marker_from(s, from + 1)
    }
}

/// Where the identifier token starts: right after the first marker, or at
/// position 0 when the reference holds no marker.
pub open spec fn scan_start(s: Seq<char>) -> int {
    let m = marker_from(s, 0);
    if m < s.len() {
        m + 2
    } else {
        0
    }
}

/// Position of the first terminator at or after `from`, or `s.len()` when
/// there is none.
pub open spec fn token_end(s: Seq<char>, from: int) -> int
    decreases s.len() - from,
{
    if from < 0 || from >= s.len() {
        s.len() as int
    } else if is_terminator(s[from]) {
        from
    } else {
        token_end(s, from + 1)
    }
}

/// The identifier that a reference resolves to, if any: the token that starts
/// at `scan_start` and runs up to the next terminator, provided that it has
/// exactly `ID_LEN` characters.
pub open spec fn resolve(s: Seq<char>) -> Option<Seq<char>> {
    let a = scan_start(s);
    let b = token_end(s, a);
    if b - a == ID_LEN {
        Some(s.subrange(a, b))
    } else {
        None
    }
}

/// `marker_from` stays within `from ..= s.len()`, and names a marker whenever
/// it is below `s.len()`.
pub proof fn lemma_marker_from_bounds(s: Seq<char>, from: int)
    requires
        0 <= from <= s.len(),
    ensures
        from <= marker_from(s, from) <= s.len(),
        marker_from(s, from) < s.len() ==> marker_at(s, marker_from(s, from)),
        forall|i: int| from <= i < marker_from(s, from) ==> !marker_at(s, i),
    decreases s.len() - from,
{
    if from + 1 < s.len() && !marker_at(s, from) {
        lemma_marker_from_bounds(s, from + 1);
    }
}

/// `token_end` stays within `from ..= s.len()`, stops on a terminator or at
/// the end, and passes over no terminator.
pub proof fn lemma_token_end_bounds(s: Seq<char>, from: int)
    requires
        0 <= from <= s.len(),
    ensures
        from <= token_end(s, from) <= s.len(),
        token_end(s, from) < s.len() ==> is_terminator(s[token_end(s, from)]),
        forall|k: int| from <= k < token_end(s, from) ==> !is_terminator(s[k]),
    decreases s.len() - from,
{
    if from < s.len() && !is_terminator(s[from]) {
        lemma_token_end_bounds(s, from + 1);
    }
}

/// A position that holds the first marker at or after `from` is what
/// `marker_from` finds.
pub proof fn lemma_marker_from_is_first(s: Seq<char>, from: int, p: int)
    requires
        0 <= from <= p,
        marker_at(s, p),
        forall|i: int| from <= i < p ==> !marker_at(s, i),
    ensures
        marker_from(s, from) == p,
    decreases p - from,
{
    if from < p {
        lemma_marker_from_is_first(s, from + 1, p);
    }
}

/// A position that ends the token starting at `from` is what `token_end`
/// finds.
pub proof fn lemma_token_end_is_first(s: Seq<char>, from: int, e: int)
    requires
        0 <= from <= e <= s.len(),
        forall|k: int| from <= k < e ==> !is_terminator(s[k]),
        e == s.len() || is_terminator(s[e]),
    ensures
        token_end(s, from) == e,
    decreases e - from,
{
    if from < e {
        lemma_token_end_is_first(s, from + 1, e);
    }
}

/// True when the first marker of `s` stands at `p`.
pub open spec fn first_marker_at(s: Seq<char>, p: int) -> bool {
    marker_at(s, p) && forall|i: int| 0 <= i < p ==> !marker_at(s, i)
}

/// True when `s` holds no marker.
pub open spec fn no_marker(s: Seq<char>) -> bool {
    forall|i: int| !marker_at(s, i)
}

/// True when the token of `s` that starts at `a` ends at `e`: no terminator
/// stands in between, and at `e` stands a terminator or `s` ends.
pub open spec fn token_spans(s: Seq<char>, a: int, e: int) -> bool {
    &&& 0 <= a <= e <= s.len()
    &&& forall|k: int| a <= k < e ==> !is_terminator(s[k])
    &&& e == s.len() || is_terminator(s[e])
}

/// True when the token that follows the marker at `p` ends at `e`.
pub open spec fn id_ends_at(s: Seq<char>, p: int, e: int) -> bool {
    token_spans(s, p + 2, e)
}

/// The identifier that a token from `a` to `e` gives: the token itself when
/// it has exactly eleven characters, and none otherwise.
pub open spec fn token_as_id(s: Seq<char>, a: int, e: int) -> Option<Seq<char>> {
    if e - a == ID_LEN {
        Some(s.subrange(a, e))
    } else {
        None
    }
}

/// Acceptance and rejection: a reference resolves to the token that follows
/// its first marker, up to the next terminator or the end, exactly when that
/// token has eleven characters; with any other length it does not resolve.
pub proof fn lemma_resolve_after_marker(s: Seq<char>, p: int, e: int)
    requires
        first_marker_at(s, p),
        id_ends_at(s, p, e),
    ensures
        resolve(s) == token_as_id(s, p + 2, e),
{
    lemma_marker_from_is_first(s, 0, p);
    lemma_token_end_is_first(s, p + 2, e);
}

/// Acceptance: when the first marker of a reference is followed by exactly
/// eleven characters, none of them a terminator, and then by a terminator or
/// the end of the reference, the reference resolves to those eleven
/// characters.
pub proof fn lemma_resolve_accepts(s: Seq<char>, p: int)
    requires
        first_marker_at(s, p),
        id_ends_at(s, p, p + 2 + ID_LEN),
    ensures
        resolve(s) == Some(s.subrange(p + 2, p + 2 + ID_LEN)),
{
    lemma_resolve_after_marker(s, p, p + 2 + ID_LEN);
}

/// Rejection: when the token after the first marker of a reference, taken up
/// to the next terminator or the end, does not have exactly eleven
/// characters, the reference does not resolve.
pub proof fn lemma_resolve_rejects(s: Seq<char>, p: int, e: int)
    requires
        first_marker_at(s, p),
        id_ends_at(s, p, e),
        e - (p + 2) != ID_LEN,
    ensures
        resolve(s) is None,
{
    lemma_resolve_after_marker(s, p, e);
}

/// Fallback: a reference without any marker is scanned from its first
/// character.
pub proof fn lemma_resolve_without_marker(s: Seq<char>, e: int)
    requires
        no_marker(s),
        token_spans(s, 0, e),
    ensures
        resolve(s) == token_as_id(s, 0, e),
{
    lemma_marker_from_bounds(s, 0);
    lemma_token_end_is_first(s, 0, e);
}

/// An identifier that resolves has exactly eleven characters, none of them a
/// terminator.
pub proof fn lemma_resolved_shape(s: Seq<char>)
    requires
        resolve(s) is Some,
    ensures
        resolve(s)->0.len() == ID_LEN,
        forall|k: int| 0 <= k < ID_LEN ==> !is_terminator(#[trigger] resolve(s)->0[k]),
{
    lemma_marker_from_bounds(s, 0);
    let a = scan_start(s);
    lemma_token_end_bounds(s, a);
}

/// True when `c` ends the identifier token.
pub fn terminates(c: char) -> (r: bool)
    ensures
        r == is_terminator(c),
{
    c == '&' || c == ' ' || c == '\r' || c == '\n'
}

/// Resolves the identifier of the item that `link` refers to.
///
/// The token that follows the first `v=` of `link`, up to the next `&`,
/// space, carriage return or line feed or to the end, is the identifier if
/// it has exactly eleven characters; with any other length there is none.
/// A `link` without `v=` is read from its first character in the same way.
pub fn extract_id(link: &String) -> (r: Option<String>)
    ensures
        text_view(r) == resolve(link@),
        forall|p: int, e: int|
            #![trigger first_marker_at(link@, p), id_ends_at(link@, p, e)]
            first_marker_at(link@, p) && id_ends_at(link@, p, e) ==> text_view(r) == token_as_id(
                link@,
                p + 2,
                e,
            ),
        forall|e: int|
            no_marker(link@) && #[trigger] token_spans(link@, 0, e) ==> text_view(r)
                == token_as_id(link@, 0, e),
{
    proof {
        assert forall|p: int, e: int|
            #![trigger first_marker_at(link@, p), id_ends_at(link@, p, e)]
            first_marker_at(link@, p) && id_ends_at(link@, p, e) implies resolve(link@)
            == token_as_id(link@, p + 2, e) by {
            lemma_resolve_after_marker(link@, p, e);
        }
        assert forall|e: int| no_marker(link@) && #[trigger] token_spans(link@, 0, e) implies resolve(
            link@,
        ) == token_as_id(link@, 0, e) by {
            lemma_resolve_without_marker(link@, e);
        }
    }
    let chars = chars_of(link.as_str());
    let n = chars.len();
    let mut i: usize = 0;
    let mut found = false;
    while !found && n - i > 1
        invariant
            n == chars@.len(),
            i <= n,
            marker_from(chars@, 0) == marker_from(chars@, i as int),
            found ==> marker_at(chars@, i as int),
        decreases (if found { 0int } else { 1int }), n - i,
    {
        if chars[i] == 'v' && chars[i + 1] == '=' {
            found = true;
        } else {
            i = i + 1;
        }
    }
    let start: usize = if found { i + 2 } else { 0 };
    assert(start as int == scan_start(chars@));
    let mut j: usize = start;
    while j < n && !terminates(chars[j])
        invariant
            n == chars@.len(),
            start <= j <= n,
            token_end(chars@, start as int) == token_end(chars@, j as int),
        decreases n - j,
    {
        j = j + 1;
    }
    assert(token_end(chars@, start as int) == j);
    assert(chars@ == link@);
    if j - start == ID_LEN {
        Some(String::from_str(link.as_str().substring_char(start, j)))
    } else {
        None
    }
}

} // verus!
