//! Cutting a run of bytes at every occurrence of a mark.
//!
//! The host joins its completion candidates with a mark that no candidate is
//! expected to hold; this module takes such a run apart again.

use vstd::prelude::*;
use vstd::slice::{slice_subrange, slice_to_vec};

verus! {

/// The mark between two candidates: the five bytes of `_*#*_`.
pub open spec fn delimiter() -> Seq<u8> {
    seq![95u8, 42u8, 35u8, 42u8, 95u8]
}

/// The mark stands in the text at `at`.
pub open spec fn occurs_at(text: Seq<u8>, mark: Seq<u8>, at: int) -> bool {
    &&& 0 <= at
    &&& at + mark.len() <= text.len()
    &&& text.subrange(at, at + mark.len()) == mark
}

/// `at` is the first place at or after `from` where the mark stands.
pub open spec fn is_next_occurrence(text: Seq<u8>, mark: Seq<u8>, from: int, at: int) -> bool {
    &&& from <= at
    &&& occurs_at(text, mark, at)
    &&& forall|before: int| from <= before < at ==> !occurs_at(text, mark, before)
}

/// The first place at or after `from` where the mark stands, if any.
pub open spec fn next_occurrence(text: Seq<u8>, mark: Seq<u8>, from: int) -> Option<int> {
    if exists|at: int| is_next_occurrence(text, mark, from, at) {
        Some(choose|at: int| is_next_occurrence(text, mark, from, at))
    } else {
        None
    }
}

/// The pieces of the text from `from` on: what stands before the next
/// occurrence of the mark, then the pieces of what follows that occurrence.
/// Occurrences are taken from left to right and do not overlap. An empty
/// mark cuts nowhere.
pub open spec fn pieces_after(text: Seq<u8>, mark: Seq<u8>, from: int) -> Seq<Seq<u8>>
    decreases text.len() - from,
{
    if mark.len() == 0 || from < 0 || from > text.len() {
        seq![text.subrange(from, text.len() as int)]
    } else {
        match next_occurrence(text, mark, from) {
            None => seq![text.subrange(from, text.len() as int)],
            Some(at) => seq![text.subrange(from, at)] + pieces_after(
                text,
                mark,
                at + mark.len(),
            ),
        }
    }
}

/// All the pieces of the text, empty ones included: one more than there are
/// occurrences of the mark.
pub open spec fn pieces(text: Seq<u8>, mark: Seq<u8>) -> Seq<Seq<u8>> {
    pieces_after(text, mark, 0)
}

/// The pieces that hold at least one byte, in their order.
pub open spec fn filled(all: Seq<Seq<u8>>) -> Seq<Seq<u8>> {
    all.filter(|piece: Seq<u8>| piece.len() > 0)
}

/// The candidates that a reply of the host holds: its non-empty pieces
/// between the delimiters.
pub open spec fn candidates_of(text: Seq<u8>) -> Seq<Seq<u8>> {
    filled(pieces(text, delimiter()))
}

/// What each of the vectors holds.
pub open spec fn views(items: Seq<Vec<u8>>) -> Seq<Seq<u8>> {
    items.map_values(|item: Vec<u8>| item@)
}

/// The next occurrence is the one place that `is_next_occurrence` accepts.
pub proof fn lemma_next_occurrence_found(text: Seq<u8>, mark: Seq<u8>, from: int, at: int)
    requires
        is_next_occurrence(text, mark, from, at),
    ensures
        next_occurrence(text, mark, from) == Some(at),
{
    let chosen = choose|c: int| is_next_occurrence(text, mark, from, c);
    assert(is_next_occurrence(text, mark, from, chosen));
    if chosen < at {
        assert(!occurs_at(text, mark, chosen));
    } else if at < chosen {
        assert(!occurs_at(text, mark, at));
    }
}

/// Where the mark stands nowhere at or after `from`, there is no next occurrence.
pub proof fn lemma_next_occurrence_none(text: Seq<u8>, mark: Seq<u8>, from: int)
    requires
        forall|at: int| from <= at ==> !occurs_at(text, mark, at),
    ensures
        next_occurrence(text, mark, from) is None,
{
}

/// The pieces put together again, with the mark between each two.
pub open spec fn joined(all: Seq<Seq<u8>>, mark: Seq<u8>) -> Seq<u8>
    decreases all.len(),
{
    if all.len() == 0 {
        Seq::empty()
    } else if all.len() == 1 {
        all[0]
    } else {
        all[0] + mark + joined(all.drop_first(), mark)
    }
}

/// Where the mark stands somewhere at or after `from`, it has a first such place.
pub proof fn lemma_some_occurrence_is_first(text: Seq<u8>, mark: Seq<u8>, from: int, at: int)
    requires
        from <= at,
        occurs_at(text, mark, at),
    ensures
        next_occurrence(text, mark, from) is Some,
    decreases at - from,
{
    if forall|before: int| from <= before < at ==> !occurs_at(text, mark, before) {
        assert(is_next_occurrence(text, mark, from, at));
    } else {
        let earlier = choose|before: int| from <= before < at && occurs_at(text, mark, before);
        lemma_some_occurrence_is_first(text, mark, from, earlier);
    }
}

/// What `next_occurrence` says: its place is the first one, and without a
/// place the mark stands nowhere at or after `from`.
pub proof fn lemma_next_occurrence(text: Seq<u8>, mark: Seq<u8>, from: int)
    ensures
        next_occurrence(text, mark, from) matches Some(at) ==> is_next_occurrence(
            text,
            mark,
            from,
            at,
        ),
        next_occurrence(text, mark, from) is None ==> forall|at: int|
            from <= at ==> !occurs_at(text, mark, at),
{
    if next_occurrence(text, mark, from) is None {
        assert forall|at: int| from <= at implies !occurs_at(text, mark, at) by {
            if occurs_at(text, mark, at) {
                lemma_some_occurrence_is_first(text, mark, from, at);
            }
        }
    }
}

/// The pieces, joined with the mark, are the text again.
pub proof fn lemma_pieces_rejoin(text: Seq<u8>, mark: Seq<u8>)
    ensures
        joined(pieces(text, mark), mark) == text,
{
    lemma_pieces_after_rejoin(text, mark, 0);
    assert(text.subrange(0, text.len() as int) =~= text);
}

/// The pieces from `from` on, joined with the mark, are the text from `from` on.
pub proof fn lemma_pieces_after_rejoin(text: Seq<u8>, mark: Seq<u8>, from: int)
    requires
        0 <= from <= text.len(),
    ensures
        pieces_after(text, mark, from).len() >= 1,
        joined(pieces_after(text, mark, from), mark) == text.subrange(from, text.len() as int),
    decreases text.len() - from,
{
    let end = text.len() as int;
    if mark.len() > 0 {
        lemma_next_occurrence(text, mark, from);
        match next_occurrence(text, mark, from) {
            None => {},
            Some(at) => {
                let next = at + mark.len();
                let rest = pieces_after(text, mark, next);
                let all = seq![text.subrange(from, at)] + rest;
                lemma_pieces_after_rejoin(text, mark, next);
                assert(all.drop_first() =~= rest);
                assert(all[0] == text.subrange(from, at));
                assert(text.subrange(from, at) + mark + text.subrange(next, end)
                    =~= text.subrange(from, end)) by {
                    assert(text.subrange(at, next) == mark);
                }
            },
        }
    }
}

/// No piece holds the mark.
pub proof fn lemma_pieces_hold_no_mark(text: Seq<u8>, mark: Seq<u8>, i: int, at: int)
    requires
        mark.len() > 0,
        0 <= i < pieces(text, mark).len(),
    ensures
        !occurs_at(pieces(text, mark)[i], mark, at),
{
    lemma_pieces_after_hold_no_mark(text, mark, 0, i, at);
}

/// No piece from `from` on holds the mark.
pub proof fn lemma_pieces_after_hold_no_mark(
    text: Seq<u8>,
    mark: Seq<u8>,
    from: int,
    i: int,
    at: int,
)
    requires
        mark.len() > 0,
        0 <= from <= text.len(),
        0 <= i < pieces_after(text, mark, from).len(),
    ensures
        !occurs_at(pieces_after(text, mark, from)[i], mark, at),
    decreases text.len() - from,
{
    let end = text.len() as int;
    lemma_next_occurrence(text, mark, from);
    match next_occurrence(text, mark, from) {
        None => {
            let piece = text.subrange(from, end);
            if occurs_at(piece, mark, at) {
                assert(piece.subrange(at, at + mark.len()) =~= text.subrange(
                    from + at,
                    from + at + mark.len(),
                ));
                assert(occurs_at(text, mark, from + at));
            }
        },
        Some(stop) => {
            let piece = text.subrange(from, stop);
            let rest = pieces_after(text, mark, stop + mark.len());
            if i == 0 {
                if occurs_at(piece, mark, at) {
                    assert(piece.subrange(at, at + mark.len()) =~= text.subrange(
                        from + at,
                        from + at + mark.len(),
                    ));
                    assert(occurs_at(text, mark, from + at));
                }
            } else {
                assert((seq![piece] + rest)[i] == rest[i - 1]);
                lemma_pieces_after_hold_no_mark(text, mark, stop + mark.len(), i - 1, at);
            }
        },
    }
}

/// Every candidate holds at least one byte, and a reply without a byte
/// holds no candidate.
pub proof fn lemma_candidates_are_filled(text: Seq<u8>)
    ensures
        forall|i: int|
            0 <= i < candidates_of(text).len() ==> (#[trigger] candidates_of(text)[i]).len() > 0,
        text.len() == 0 ==> candidates_of(text).len() == 0,
{
    broadcast use vstd::seq_lib::group_filter_ensures;

    if text.len() == 0 {
        assert(delimiter().len() == 5);
        lemma_next_occurrence_none(text, delimiter(), 0);
        lemma_filled_last(text.subrange(0, 0));
    }
}

/// Dropping the empty pieces of one piece followed by others.
proof fn lemma_filled_first(piece: Seq<u8>, rest: Seq<Seq<u8>>)
    ensures
        filled(seq![piece] + rest) == if piece.len() > 0 {
            seq![piece] + filled(rest)
        } else {
            filled(rest)
        },
{
    let keep = |piece: Seq<u8>| piece.len() > 0;
    Seq::filter_distributes_over_add(seq![piece], rest, keep);
    reveal_with_fuel(Seq::filter, 2);
    assert(seq![piece].drop_last() =~= Seq::<Seq<u8>>::empty());
    if piece.len() > 0 {
        assert(seq![piece].filter(keep) =~= seq![piece]);
    } else {
        assert(seq![piece].filter(keep) =~= Seq::<Seq<u8>>::empty());
        assert(Seq::<Seq<u8>>::empty() + filled(rest) =~= filled(rest));
    }
}

/// Dropping the empty pieces of a single piece.
proof fn lemma_filled_last(piece: Seq<u8>)
    ensures
        filled(seq![piece]) == if piece.len() > 0 {
            seq![piece]
        } else {
            Seq::<Seq<u8>>::empty()
        },
{
    lemma_filled_first(piece, Seq::empty());
    reveal_with_fuel(Seq::filter, 1);
    assert(seq![piece] + Seq::<Seq<u8>>::empty() =~= seq![piece]);
    assert(filled(Seq::<Seq<u8>>::empty()) =~= Seq::<Seq<u8>>::empty());
}

/// Tells whether the mark stands in the text at `at`.
pub fn mark_at(text: &[u8], mark: &[u8], at: usize) -> (r: bool)
    ensures
        r == occurs_at(text@, mark@, at as int),
{
    if at > text.len() || mark.len() > text.len() - at {
        return false;
    }
    let mut k: usize = 0;
    while k < mark.len()
        invariant
            k <= mark.len(),
            at + mark.len() <= text.len(),
            forall|j: int| 0 <= j < k ==> text@[at + j] == mark@[j],
        decreases mark.len() - k,
    {
        if text[at + k] != mark[k] {
            proof {
                let found = text@.subrange(at as int, at + mark.len());
                assert(found[k as int] == text@[at + k]);
            }
            return false;
        }
        k += 1;
    }
    assert(text@.subrange(at as int, at + mark.len()) =~= mark@);
    true
}

/// Cuts the text at every occurrence of the mark, from left to right, and
/// hands out the pieces that are not empty, in their order.
pub fn split(text: &[u8], mark: &[u8]) -> (out: Vec<Vec<u8>>)
    ensures
        views(out@) == filled(pieces(text@, mark@)),
{
    let mut out: Vec<Vec<u8>> = Vec::new();
    let mut from: usize = 0;
    if mark.len() > 0 {
        let mut at: usize = 0;
        assert(views(out@) =~= Seq::<Seq<u8>>::empty());
        assert(views(out@) + filled(pieces_after(text@, mark@, 0)) =~= filled(
            pieces(text@, mark@),
        ));
        while mark.len() <= text.len() - at
            invariant
                mark.len() > 0,
                from <= at <= text.len(),
                forall|before: int| from <= before < at ==> !occurs_at(text@, mark@, before),
                views(out@) + filled(pieces_after(text@, mark@, from as int)) == filled(
                    pieces(text@, mark@),
                ),
            decreases text.len() - at,
        {
            if mark_at(text, mark, at) {
                let ghost piece = text@.subrange(from as int, at as int);
                let ghost rest = pieces_after(text@, mark@, at + mark.len());
                let ghost before = views(out@);
                proof {
                    lemma_next_occurrence_found(text@, mark@, from as int, at as int);
                    lemma_filled_first(piece, rest);
                }
                if from < at {
                    out.push(slice_to_vec(slice_subrange(text, from, at)));
                    assert(views(out@) =~= before + seq![piece]);
                    assert(views(out@) + filled(rest) =~= before + (seq![piece] + filled(rest)));
                }
                from = at + mark.len();
                at = from;
            } else {
                at += 1;
            }
        }
        proof {
            lemma_next_occurrence_none(text@, mark@, from as int);
        }
    } else {
        assert(views(out@) =~= Seq::<Seq<u8>>::empty());
        assert(views(out@) + filled(pieces_after(text@, mark@, 0)) =~= filled(
            pieces(text@, mark@),
        ));
    }
    let ghost last = text@.subrange(from as int, text.len() as int);
    let ghost before = views(out@);
    proof {
        lemma_filled_last(last);
    }
    if from < text.len() {
        out.push(slice_to_vec(slice_subrange(text, from, text.len())));
        assert(views(out@) =~= before + seq![last]);
    } else {
        assert(before + Seq::<Seq<u8>>::empty() =~= before);
    }
    out
}

/// The delimiter as bytes.
pub fn delimiter_bytes() -> (mark: Vec<u8>)
    ensures
        mark@ == delimiter(),
{
    let mut mark: Vec<u8> = Vec::new();
    mark.push(95);
    mark.push(42);
    mark.push(35);
    mark.push(42);
    mark.push(95);
    assert(mark@ =~= delimiter());
    mark
}

/// Takes a reply of the host apart: its non-empty pieces between the
/// delimiters, in their order.
pub fn split_candidates(text: &[u8]) -> (out: Vec<Vec<u8>>)
    ensures
        views(out@) == candidates_of(text@),
{
    let mark = delimiter_bytes();
    split(text, mark.as_slice())
}

} // verus!
