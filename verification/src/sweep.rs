//! Choosing the stray raw downloads that are removed from the working
//! directory once an artifact has been placed.

use crate::media::{raw_extension, MediaKind};
use crate::text::chars_of;
use vstd::prelude::*;
use vstd::string::*;

verus! {

/// True when the file name `name` has the extension `ext`: it ends with a
/// dot followed by `ext`, and at least one character stands before that
/// dot. For an `ext` that holds no dot this is what the standard library's
/// `Path::extension` reports for a file name.
pub open spec fn has_extension(name: Seq<char>, ext: Seq<char>) -> bool {
    &&& name.len() >= ext.len() + 2
    &&& name[name.len() - ext.len() - 1] == '.'
    &&& name.subrange(name.len() - ext.len(), name.len() as int) == ext
}

/// True when `name` is a raw download of `kind`.
pub open spec fn is_raw_artifact(name: Seq<char>, kind: MediaKind) -> bool {
    has_extension(name, raw_extension(kind))
}

/// `is_raw_artifact` for a fixed kind, as a predicate value.
pub open spec fn raw_pred(kind: MediaKind) -> spec_fn(Seq<char>) -> bool {
    |name: Seq<char>| is_raw_artifact(name, kind)
}

/// The names of a directory listing that a sweep for `kind` removes: its
/// raw downloads of that kind, in the order of the listing.
pub open spec fn stale(names: Seq<Seq<char>>, kind: MediaKind) -> Seq<Seq<char>> {
    names.filter(raw_pred(kind))
}

/// A sweep removes exactly the raw downloads that the listing holds: a
/// name is removed if and only if it is listed and is a raw download of the
/// kind. So once the removed names are gone, no listed file of that
/// extension is left, and every other listed file still is.
pub proof fn lemma_sweep_is_exact(names: Seq<Seq<char>>, kind: MediaKind, name: Seq<char>)
    ensures
        stale(names, kind).contains(name) <==> names.contains(name) && is_raw_artifact(name, kind),
        names.contains(name) && !stale(names, kind).contains(name) ==> !is_raw_artifact(
            name,
            kind,
        ),
    decreases names.len(),
{
    reveal(Seq::filter);
    if names.len() > 0 {
        let rest = names.drop_last();
        let last = names.last();
        lemma_sweep_is_exact(rest, kind, name);
        let kept = stale(rest, kind);
        if names.contains(name) {
            let i = choose|i: int| 0 <= i < names.len() && names[i] == name;
            if i < names.len() - 1 {
                assert(rest[i] == name);
                assert(rest.contains(name));
            }
        }
        if rest.contains(name) {
            let i = choose|i: int| 0 <= i < rest.len() && rest[i] == name;
            assert(names[i] == name);
        }
        if is_raw_artifact(last, kind) {
            assert(stale(names, kind) == kept.push(last));
            if kept.contains(name) {
                let i = choose|i: int| 0 <= i < kept.len() && kept[i] == name;
                assert(kept.push(last)[i] == name);
            }
            if name == last {
                assert(kept.push(last)[kept.len() as int] == name);
            }
            if stale(names, kind).contains(name) {
                let i = choose|i: int| 0 <= i < kept.len() + 1 && kept.push(last)[i] == name;
                if i < kept.len() {
                    assert(kept[i] == name);
                }
            }
        }
        assert(names[names.len() - 1] == last);
    }
}

/// Tells whether the file name `name` has the extension `ext`.
pub fn has_extension_of(name: &str, ext: &str) -> (r: bool)
    ensures
        r == has_extension(name@, ext@),
{
    let text = chars_of(name);
    let tail = chars_of(ext);
    let n = text.len();
    let m = tail.len();
    if n <= m || n - m < 2 {
        return false;
    }
    let base = n - m;
    if text[base - 1] != '.' {
        return false;
    }
    let mut k: usize = 0;
    while k < m
        invariant
            text@ == name@,
            tail@ == ext@,
            n == name@.len(),
            m == ext@.len(),
            base == n - m,
            base >= 2,
            k <= m,
            forall|j: int| 0 <= j < k ==> name@[base + j] == ext@[j],
        decreases m - k,
    {
        if text[base + k] != tail[k] {
            assert(name@.subrange(base as int, n as int)[k as int] != ext@[k as int]);
            return false;
        }
        k = k + 1;
    }
    assert(name@.subrange(base as int, n as int) =~= ext@);
    true
}

/// Filtering one more name extends the stale names by that name when it is
/// a raw download, and leaves them unchanged otherwise.
proof fn lemma_stale_step(names: Seq<Seq<char>>, kind: MediaKind, i: int)
    requires
        0 <= i < names.len(),
    ensures
        stale(names.take(i + 1), kind) == if is_raw_artifact(names[i], kind) {
            stale(names.take(i), kind).push(names[i])
        } else {
            stale(names.take(i), kind)
        },
{
    reveal(Seq::filter);
    assert(names.take(i + 1).drop_last() =~= names.take(i));
}

/// Picks from a listing of the working directory the raw downloads of
/// `kind`, which are the files to remove.
pub fn select_stale(names: &Vec<String>, kind: MediaKind) -> (r: Vec<String>)
    ensures
        r.deep_view() == stale(names.deep_view(), kind),
{
    let ghost all = names.deep_view();
    let mut out: Vec<String> = Vec::new();
    let mut i: usize = 0;
    assert(all.take(0) =~= Seq::<Seq<char>>::empty());
    assert(stale(Seq::<Seq<char>>::empty(), kind) =~= Seq::<Seq<char>>::empty()) by {
        reveal(Seq::filter);
    }
    assert(out.deep_view() =~= Seq::<Seq<char>>::empty());
    while i < names.len()
        invariant
            all == names.deep_view(),
            i <= names.len(),
            out.deep_view() == stale(all.take(i as int), kind),
        decreases names.len() - i,
    {
        proof {
            lemma_stale_step(all, kind, i as int);
        }
        assert(all[i as int] == names[i as int]@);
        if has_extension_of(names[i].as_str(), kind.raw_extension()) {
            let ghost before = out.deep_view();
            out.push(names[i].clone());
            assert(out.deep_view() =~= before.push(names[i as int]@));
        }
        i = i + 1;
    }
    assert(all.take(names.len() as int) =~= all);
    out
}

} // verus!
