//! Reading chains of evolution.
//!
//! A chain is written as `Name->how->Name->how->Name`: the names of the
//! species stand at every second place between the arrows.

use crate::text::str_eq;
use vstd::prelude::*;
use vstd::string::{StrSliceExecFns, StringExecFns};

verus! {

/// Whether `pattern` stands at place `i` of `text`.
pub open spec fn stands_at(text: Seq<char>, pattern: Seq<char>, i: int) -> bool {
    0 <= i && i + pattern.len() <= text.len() && text.subrange(i, i + pattern.len()) == pattern
}

/// Whether `pattern` stands somewhere in `text`.
pub open spec fn contains(text: Seq<char>, pattern: Seq<char>) -> bool {
    exists|i: int| stands_at(text, pattern, i)
}

/// Tells whether `pattern` stands somewhere in `text`.
pub fn str_contains(text: &str, pattern: &str) -> (found: bool)
    ensures
        found == contains(text@, pattern@),
{
    let n = text.unicode_len();
    let m = pattern.unicode_len();
    if m > n {
        assert forall|i: int| !stands_at(text@, pattern@, i) by {}
        return false;
    }
    let mut i: usize = 0;
    loop
        invariant
            m <= n,
            n == text@.len(),
            m == pattern@.len(),
            i <= n - m,
            forall|j: int| 0 <= j < i ==> !stands_at(text@, pattern@, j),
        decreases n - m - i,
    {
        if str_eq(text.substring_char(i, i + m), pattern) {
            assert(stands_at(text@, pattern@, i as int));
            return true;
        }
        if i == n - m {
            assert forall|j: int| !stands_at(text@, pattern@, j) by {}
            return false;
        }
        i = i + 1;
    }
}

/// Whether an arrow, `->`, stands at place `i` of `text`.
pub open spec fn arrow_at(text: Seq<char>, i: int) -> bool {
    0 <= i && i + 1 < text.len() && text[i] == '-' && text[i + 1] == '>'
}

/// The number of characters before the first arrow of a text, or the
/// length of a text without an arrow.
pub open spec fn before_arrow(text: Seq<char>) -> int
    decreases text.len(),
{
    if text.len() == 0 || arrow_at(text, 0) {
        0
    } else {
        1 + before_arrow(text.skip(1))
    }
}

/// The first arrow of a text stands where no arrow stands before.
proof fn lemma_before_arrow(text: Seq<char>, n: int)
    requires
        0 <= n <= text.len(),
        forall|j: int| 0 <= j < n ==> !arrow_at(text, j),
        n == text.len() || arrow_at(text, n),
    ensures
        before_arrow(text) == n,
    decreases n,
{
    if n > 0 {
        let rest = text.skip(1);
        assert(!arrow_at(text, 0));
        assert forall|j: int| 0 <= j < n - 1 implies !arrow_at(rest, j) by {
            assert(!arrow_at(text, j + 1));
            if j + 1 < rest.len() {
                assert(rest[j] == text[j + 1]);
                assert(rest[j + 1] == text[j + 2]);
            }
        }
        if n < text.len() {
            assert(rest[n - 1] == text[n]);
            assert(rest[n] == text[n + 1]);
        }
        lemma_before_arrow(rest, n - 1);
    }
}

/// The parts of a text between its arrows. A text without an arrow is
/// its own single part.
pub open spec fn parts(text: Seq<char>) -> Seq<Seq<char>>
    decreases text.len(),
{
    let n = before_arrow(text);
    if 0 <= n && n + 2 <= text.len() {
        seq![text.take(n)] + parts(text.skip(n + 2))
    } else {
        seq![text]
    }
}

/// The text with three spaces on either side of every arrow.
pub open spec fn spaced(text: Seq<char>) -> Seq<char>
    decreases text.len(),
{
    let n = before_arrow(text);
    if 0 <= n && n + 2 <= text.len() {
        text.take(n) + "   ->   "@ + spaced(text.skip(n + 2))
    } else {
        text
    }
}

/// Finds the first arrow of a text from the place `from` on: the place of
/// the arrow, or the length of the text where none follows.
fn find_arrow(text: &str, from: usize) -> (at: usize)
    requires
        from <= text@.len(),
    ensures
        from <= at <= text@.len(),
        at - from == before_arrow(text@.skip(from as int)),
        at < text@.len() ==> at + 2 <= text@.len(),
{
    let n = text.unicode_len();
    let ghost rest = text@.skip(from as int);
    let mut i: usize = from;
    while i < n
        invariant
            from <= i <= n,
            n == text@.len(),
            rest == text@.skip(from as int),
            forall|j: int| 0 <= j < i - from ==> !arrow_at(rest, j),
        decreases n - i,
    {
        if i + 1 < n && text.get_char(i) == '-' && text.get_char(i + 1) == '>' {
            proof {
                assert(rest[i - from] == text@[i as int]);
                assert(rest[i - from + 1] == text@[i + 1]);
                lemma_before_arrow(rest, i - from);
            }
            return i;
        }
        proof {
            if i + 1 < n {
                assert(rest[i - from] == text@[i as int]);
                assert(rest[i - from + 1] == text@[i + 1]);
            }
        }
        i = i + 1;
    }
    proof {
        lemma_before_arrow(rest, n - from);
    }
    n
}

/// The texts of a list as characters.
pub open spec fn views(texts: Seq<String>) -> Seq<Seq<char>> {
    texts.map_values(|t: String| t@)
}

/// Returns the parts of a text between its arrows.
pub fn split_arrows(text: &str) -> (out: Vec<String>)
    ensures
        views(out@) == parts(text@),
{
    let n = text.unicode_len();
    let mut out: Vec<String> = Vec::new();
    let mut start: usize = 0;
    assert(text@.skip(0) =~= text@);
    assert(views(out@) =~= Seq::<Seq<char>>::empty());
    loop
        invariant_except_break
            start <= n,
            n == text@.len(),
            parts(text@) == views(out@) + parts(text@.skip(start as int)),
        ensures
            views(out@) == parts(text@),
        decreases n - start,
    {
        let ghost rest = text@.skip(start as int);
        let ghost before = views(out@);
        let at = find_arrow(text, start);
        if at < n {
            let part = text.substring_char(start, at);
            assert(part@ =~= rest.take(at - start));
            assert(rest.skip(at - start + 2) =~= text@.skip(at + 2));
            out.push(part.to_owned());
            assert(views(out@) =~= before.push(part@));
            assert(parts(text@) =~= views(out@) + parts(text@.skip(at + 2)));
            start = at + 2;
        } else {
            let part = text.substring_char(start, n);
            assert(part@ =~= rest);
            out.push(part.to_owned());
            assert(views(out@) =~= before.push(part@));
            assert(parts(rest) =~= seq![rest]);
            break;
        }
    }
    out
}

/// Returns the text with three spaces on either side of every arrow.
pub fn space_arrows(text: &str) -> (out: String)
    ensures
        out@ == spaced(text@),
{
    let n = text.unicode_len();
    let mut out = String::new();
    let mut start: usize = 0;
    assert(text@.skip(0) =~= text@);
    assert(out@ + spaced(text@) =~= spaced(text@));
    loop
        invariant_except_break
            start <= n,
            n == text@.len(),
            spaced(text@) == out@ + spaced(text@.skip(start as int)),
        ensures
            out@ == spaced(text@),
        decreases n - start,
    {
        let ghost rest = text@.skip(start as int);
        let ghost before = out@;
        let at = find_arrow(text, start);
        if at < n {
            let part = text.substring_char(start, at);
            assert(part@ =~= rest.take(at - start));
            assert(rest.skip(at - start + 2) =~= text@.skip(at + 2));
            out.append(part);
            out.append("   ->   ");
            assert(spaced(text@) =~= out@ + spaced(text@.skip(at + 2)));
            start = at + 2;
        } else {
            let part = text.substring_char(start, n);
            assert(part@ =~= rest);
            out.append(part);
            assert(spaced(rest) =~= rest);
            assert(out@ =~= before + rest);
            break;
        }
    }
    out
}

} // verus!
