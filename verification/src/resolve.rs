//! What resolving entities computes, stated over scalar values.
//!
//! An annotation is a pair `(offset, length)` of UTF-16 code-unit counts.
//! A position is a number of scalar values from the start of the text.
//! Annotations are resolved in the order given by one cursor that only
//! moves forward: the start of a span is the first position at or after
//! the cursor that has at least `offset` code units before it, its end
//! the first position at or after the start that has at least
//! `offset + length` code units before it, or the end of the text where
//! no position has. The cursor then stands at that end. Resolution stops
//! at the first annotation whose offset lies beyond the whole text.

use vstd::prelude::*;
use crate::units::{lemma_prefix_monotonic, lemma_prefix_step, lemma_widths, utf16_len};

verus! {

/// The first position at or after `from` with at least `target` UTF-16
/// code units before it; the end of the text if there is none.
pub open spec fn seek(text: Seq<char>, from: int, target: nat) -> int
    decreases text.len() - from,
{
    if from < text.len() && utf16_len(text.take(from)) < target {
        seek(text, from + 1, target)
    } else {
        from
    }
}

/// The spans, as pairs of positions, of the annotations `anns` resolved
/// one after another with the cursor at `cursor`.
pub open spec fn resolve_from(text: Seq<char>, cursor: int, anns: Seq<(nat, nat)>) -> Seq<
    (int, int),
>
    decreases anns.len(),
{
    if anns.len() == 0 {
        Seq::empty()
    } else {
        let start = seek(text, cursor, anns[0].0);
        if utf16_len(text.take(start)) < anns[0].0 {
            Seq::empty()
        } else {
            let end = seek(text, start, anns[0].0 + anns[0].1);
            seq![(start, end)] + resolve_from(text, end, anns.drop_first())
        }
    }
}

/// The spans of `anns` in `text`, as pairs of positions.
pub open spec fn resolve(text: Seq<char>, anns: Seq<(nat, nat)>) -> Seq<(int, int)> {
    resolve_from(text, 0, anns)
}

/// `seek` stays inside the text, passes over no position that has
/// enough code units before it, and stops short of the end only at one
/// that has.
pub proof fn lemma_seek(text: Seq<char>, from: int, target: nat)
    requires
        0 <= from <= text.len(),
    ensures
        from <= seek(text, from, target) <= text.len(),
        forall|k: int|
            from <= k < seek(text, from, target) ==> utf16_len(#[trigger] text.take(k)) < target,
        seek(text, from, target) < text.len() ==> utf16_len(text.take(seek(text, from, target)))
            >= target,
    decreases text.len() - from,
{
    if from < text.len() && utf16_len(text.take(from)) < target {
        lemma_seek(text, from + 1, target);
    }
}

/// Whether the annotations come in ascending order and without overlap:
/// each ends where a later one starts, or before.
pub open spec fn ordered(anns: Seq<(nat, nat)>) -> bool {
    forall|i: int, j: int|
        0 <= i < j < anns.len() ==> (#[trigger] anns[i]).0 + anns[i].1 <= (#[trigger] anns[j]).0
}

/// Whether `target` UTF-16 code units end on a boundary between scalar
/// values of `text`: some position has exactly that many before it.
pub open spec fn on_boundary(text: Seq<char>, target: nat) -> bool {
    exists|k: int| 0 <= k <= text.len() && utf16_len(#[trigger] text.take(k)) == target
}

/// Seeking from a later position finds what seeking from the start
/// finds, unless that lies before the position.
pub proof fn lemma_seek_from(text: Seq<char>, from: int, target: nat)
    requires
        0 <= from <= text.len(),
    ensures
        seek(text, from, target) == if from <= seek(text, 0, target) {
            seek(text, 0, target)
        } else {
            from
        },
{
    let g = seek(text, 0, target);
    let s = seek(text, from, target);
    lemma_seek(text, 0, target);
    lemma_seek(text, from, target);
    if g <= from {
        if from < s {
            assert(utf16_len(text.take(from)) < target);
            lemma_prefix_monotonic(text, g, from);
        }
    } else {
        if s < g {
            assert(utf16_len(text.take(s)) < target);
        }
        if g < s {
            assert(utf16_len(text.take(g)) < target);
        }
    }
}

/// A larger target is found at the same position or later.
pub proof fn lemma_seek_monotonic(text: Seq<char>, target: nat, later: nat)
    requires
        target <= later,
    ensures
        seek(text, 0, target) <= seek(text, 0, later),
{
    let a = seek(text, 0, target);
    let b = seek(text, 0, later);
    lemma_seek(text, 0, target);
    lemma_seek(text, 0, later);
    if b < a {
        assert(utf16_len(text.take(b)) < target);
    }
}

/// A target that ends on a boundary is found exactly there.
pub proof fn lemma_seek_exact(text: Seq<char>, k: int)
    requires
        0 <= k <= text.len(),
    ensures
        seek(text, 0, utf16_len(text.take(k))) == k,
{
    let target = utf16_len(text.take(k));
    let s = seek(text, 0, target);
    lemma_seek(text, 0, target);
    if s < k {
        lemma_prefix_monotonic(text, s, k);
    }
    if k < s {
        assert(utf16_len(text.take(k)) < target);
    }
}

/// How many annotations are resolved: all of them up to the first whose
/// offset lies beyond the whole text, in the order given.
pub proof fn lemma_resolve_count(text: Seq<char>, cursor: int, anns: Seq<(nat, nat)>)
    requires
        0 <= cursor <= text.len(),
    ensures
        resolve_from(text, cursor, anns).len() <= anns.len(),
        forall|i: int|
            0 <= i < resolve_from(text, cursor, anns).len() ==> (#[trigger] anns[i]).0 <= utf16_len(
                text,
            ),
        resolve_from(text, cursor, anns).len() < anns.len() ==> anns[resolve_from(
            text,
            cursor,
            anns,
        ).len() as int].0 > utf16_len(text),
    decreases anns.len(),
{
    if anns.len() > 0 {
        let start = seek(text, cursor, anns[0].0);
        lemma_seek(text, cursor, anns[0].0);
        lemma_prefix_monotonic(text, start, text.len() as int);
        assert(text.take(text.len() as int) =~= text);
        if utf16_len(text.take(start)) >= anns[0].0 {
            let end = seek(text, start, anns[0].0 + anns[0].1);
            lemma_seek(text, start, anns[0].0 + anns[0].1);
            let rest = anns.drop_first();
            lemma_resolve_count(text, end, rest);
            let tail = resolve_from(text, end, rest);
            assert(resolve_from(text, cursor, anns) =~= seq![(start, end)] + tail);
            assert forall|i: int| 0 <= i < tail.len() + 1 implies (#[trigger] anns[i]).0
                <= utf16_len(text) by {
                if i > 0 {
                    assert(rest[i - 1] == anns[i]);
                }
            }
            if tail.len() < rest.len() {
                assert(rest[tail.len() as int] == anns[tail.len() as int + 1]);
            }
        }
    }
}

/// Where the spans lie: inside the text, none before the cursor, each
/// with its start not after its end, and each not before the one that
/// precedes it.
pub proof fn lemma_resolve_positions(text: Seq<char>, cursor: int, anns: Seq<(nat, nat)>)
    requires
        0 <= cursor <= text.len(),
    ensures
        forall|i: int|
            0 <= i < resolve_from(text, cursor, anns).len() ==> {
                let span = #[trigger] resolve_from(text, cursor, anns)[i];
                cursor <= span.0 <= span.1 <= text.len()
            },
        forall|i: int, j: int|
            0 <= i < j < resolve_from(text, cursor, anns).len() ==> (#[trigger] resolve_from(
                text,
                cursor,
                anns,
            )[i]).1 <= (#[trigger] resolve_from(text, cursor, anns)[j]).0,
    decreases anns.len(),
{
    if anns.len() > 0 {
        let start = seek(text, cursor, anns[0].0);
        lemma_seek(text, cursor, anns[0].0);
        if utf16_len(text.take(start)) >= anns[0].0 {
            let end = seek(text, start, anns[0].0 + anns[0].1);
            lemma_seek(text, start, anns[0].0 + anns[0].1);
            let rest = anns.drop_first();
            lemma_resolve_positions(text, end, rest);
            let tail = resolve_from(text, end, rest);
            let all = resolve_from(text, cursor, anns);
            assert(all =~= seq![(start, end)] + tail);
            assert forall|i: int| 0 <= i < all.len() implies ({
                let span = #[trigger] all[i];
                cursor <= span.0 <= span.1 <= text.len()
            }) by {
                if i > 0 {
                    assert(all[i] == tail[i - 1]);
                }
            }
            assert forall|i: int, j: int| 0 <= i < j < all.len() implies (#[trigger] all[i]).1 <= (
            #[trigger] all[j]).0 by {
                assert(all[j] == tail[j - 1]);
                if i > 0 {
                    assert(all[i] == tail[i - 1]);
                }
            }
        }
    }
}

/// Annotations in ascending order and without overlap are resolved
/// independently of each other: each span starts at the first position
/// of the text with `offset` code units before it and ends at the first
/// with `offset + length` before it.
pub proof fn lemma_resolve_ordered(text: Seq<char>, cursor: int, anns: Seq<(nat, nat)>)
    requires
        0 <= cursor <= text.len(),
        ordered(anns),
        anns.len() > 0 ==> cursor <= seek(text, 0, anns[0].0),
    ensures
        forall|i: int|
            0 <= i < resolve_from(text, cursor, anns).len() ==> #[trigger] resolve_from(
                text,
                cursor,
                anns,
            )[i] == (seek(text, 0, anns[i].0), seek(text, 0, anns[i].0 + anns[i].1)),
    decreases anns.len(),
{
    if anns.len() > 0 {
        let start = seek(text, cursor, anns[0].0);
        lemma_seek(text, cursor, anns[0].0);
        lemma_seek_from(text, cursor, anns[0].0);
        if utf16_len(text.take(start)) >= anns[0].0 {
            let limit = anns[0].0 + anns[0].1;
            let end = seek(text, start, limit);
            lemma_seek_from(text, start, limit);
            lemma_seek_monotonic(text, anns[0].0, limit);
            lemma_seek(text, 0, limit);
            let rest = anns.drop_first();
            assert forall|i: int, j: int| 0 <= i < j < rest.len() implies (#[trigger] rest[i]).0
                + rest[i].1 <= (#[trigger] rest[j]).0 by {
                assert(rest[i] == anns[i + 1] && rest[j] == anns[j + 1]);
            }
            if rest.len() > 0 {
                assert(rest[0] == anns[1]);
                assert(anns[0].0 + anns[0].1 <= anns[1].0);
                lemma_seek_monotonic(text, limit, rest[0].0);
            }
            lemma_resolve_ordered(text, end, rest);
            lemma_resolve_count(text, end, rest);
            let tail = resolve_from(text, end, rest);
            let all = resolve_from(text, cursor, anns);
            assert(all =~= seq![(start, end)] + tail);
            assert forall|i: int| 0 <= i < all.len() implies #[trigger] all[i] == (
                seek(text, 0, anns[i].0),
                seek(text, 0, anns[i].0 + anns[i].1),
            ) by {
                if i > 0 {
                    assert(all[i] == tail[i - 1]);
                    assert(rest[i - 1] == anns[i]);
                }
            }
        }
    }
}

/// By how many code units the first position that has `target` code
/// units before it lies beyond `target`.
pub open spec fn overshoot(text: Seq<char>, target: nat) -> int {
    utf16_len(text.take(seek(text, 0, target))) - target
}

/// A target inside the text is overshot by one code unit where it falls
/// inside a surrogate pair, and not at all where it falls between
/// scalar values.
pub proof fn lemma_overshoot(text: Seq<char>, target: nat)
    requires
        target <= utf16_len(text),
    ensures
        0 <= overshoot(text, target) <= 1,
        overshoot(text, target) == 0 <==> on_boundary(text, target),
{
    let found = seek(text, 0, target);
    lemma_seek(text, 0, target);
    assert(text.take(text.len() as int) =~= text);
    if found > 0 {
        assert(utf16_len(text.take(found - 1)) < target);
        lemma_prefix_step(text, found - 1);
        lemma_widths(text[found - 1]);
    } else {
        assert(text.take(0) =~= Seq::<char>::empty());
    }
    if on_boundary(text, target) {
        let k = choose|k: int| 0 <= k <= text.len() && utf16_len(#[trigger] text.take(k)) == target;
        lemma_seek_exact(text, k);
    }
}

/// Annotations of which each ends where the next starts, or before, are
/// in ascending order and without overlap.
pub proof fn lemma_ordered_by_neighbours(anns: Seq<(nat, nat)>)
    requires
        forall|i: int|
            0 <= i < anns.len() - 1 ==> (#[trigger] anns[i]).0 + anns[i].1 <= anns[i + 1].0,
    ensures
        ordered(anns),
{
    assert forall|i: int, j: int| 0 <= i < j < anns.len() implies (#[trigger] anns[i]).0
        + anns[i].1 <= (#[trigger] anns[j]).0 by {
        lemma_chain(anns, i, j);
    }
}

proof fn lemma_chain(anns: Seq<(nat, nat)>, i: int, j: int)
    requires
        forall|k: int|
            0 <= k < anns.len() - 1 ==> (#[trigger] anns[k]).0 + anns[k].1 <= anns[k + 1].0,
        0 <= i < j < anns.len(),
    ensures
        anns[i].0 + anns[i].1 <= anns[j].0,
    decreases j - i,
{
    if i + 1 < j {
        lemma_chain(anns, i, j - 1);
        assert(anns[j - 1].0 + anns[j - 1].1 <= anns[j - 1 + 1].0);
    } else {
        assert(anns[i].0 + anns[i].1 <= anns[i + 1].0);
    }
}

} // verus!
