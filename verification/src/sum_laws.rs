//! What holds of totals: that the order of the entries does not matter,
//! that parts add up to the whole, and that a selection is summed over the
//! chosen entries alone.

use vstd::prelude::*;
use crate::duration::saturated;
use crate::entry::TimeEntry;
use crate::summary::{durations_of, folded, sum_seconds};

verus! {

/// Whether two exact totals, each held within `i64` and then added, give
/// what their exact sum gives when it is held within `i64`. They do unless
/// one of them lies outside `i64` and the other pulls the sum back toward
/// it; even then they do where both lie outside on opposite sides and
/// cancel to -1, the sum of the two bounds.
pub open spec fn halves_add_up(front: int, back: int) -> bool {
    &&& front > i64::MAX ==> back >= 0 || (back < i64::MIN && front + back == -1)
    &&& front < i64::MIN ==> back <= 0 || (back > i64::MAX && front + back == -1)
    &&& back > i64::MAX ==> front >= 0 || (front < i64::MIN && front + back == -1)
    &&& back < i64::MIN ==> front <= 0 || (front > i64::MAX && front + back == -1)
}

/// The items of a sequence that `chosen` marks, in their order.
pub open spec fn selection<T>(items: Seq<T>, chosen: Seq<bool>) -> Seq<T>
    decreases items.len(),
{
    if items.len() == 0 {
        Seq::empty()
    } else if chosen.last() {
        selection(items.drop_last(), chosen.drop_last()).push(items.last())
    } else {
        selection(items.drop_last(), chosen.drop_last())
    }
}

/// The marks of the items that `chosen` leaves out.
pub open spec fn left_out(chosen: Seq<bool>) -> Seq<bool> {
    Seq::new(chosen.len(), |i: int| !chosen[i])
}

/// A sum is the sum without one of its spans, and that span.
proof fn lemma_sum_without(spans: Seq<int>, at: int)
    requires
        0 <= at < spans.len(),
    ensures
        sum_seconds(spans) == sum_seconds(spans.remove(at)) + spans[at],
    decreases spans.len(),
{
    if at < spans.len() - 1 {
        lemma_sum_without(spans.drop_last(), at);
        assert(spans.remove(at).drop_last() =~= spans.drop_last().remove(at));
    }
}

/// The sum of no spans is zero.
pub proof fn lemma_sum_of_none()
    ensures
        sum_seconds(Seq::empty()) == 0,
        folded(Seq::empty()) == 0,
{
}

/// The sum of two sequences laid end to end is the sum of their sums.
pub proof fn lemma_sum_joined(front: Seq<int>, back: Seq<int>)
    ensures
        sum_seconds(front + back) == sum_seconds(front) + sum_seconds(back),
    decreases back.len(),
{
    if back.len() > 0 {
        lemma_sum_joined(front, back.drop_last());
        assert((front + back).drop_last() =~= front + back.drop_last());
    }
}

/// Wherever a sequence of spans is cut in two, the sums of the two parts add
/// up to the sum of the whole.
pub proof fn lemma_sum_split(spans: Seq<int>, at: int)
    requires
        0 <= at <= spans.len(),
    ensures
        sum_seconds(spans) == sum_seconds(spans.take(at)) + sum_seconds(spans.skip(at)),
{
    lemma_sum_joined(spans.take(at), spans.skip(at));
    assert(spans.take(at) + spans.skip(at) =~= spans);
}

/// Two sequences that hold the same spans, each as often as the other, have
/// the same sum, whatever their order.
pub proof fn lemma_sum_reordered(spans: Seq<int>, reordered: Seq<int>)
    requires
        spans.to_multiset() == reordered.to_multiset(),
    ensures
        sum_seconds(spans) == sum_seconds(reordered),
    decreases spans.len(),
{
    spans.to_multiset_ensures();
    reordered.to_multiset_ensures();
    if spans.len() > 0 {
        let last = spans.last();
        assert(reordered.to_multiset().count(last) > 0);
        let at = choose|at: int| 0 <= at < reordered.len() && reordered[at] == last;
        assert(spans.drop_last() =~= spans.remove(spans.len() - 1));
        lemma_sum_reordered(spans.drop_last(), reordered.remove(at));
        lemma_sum_without(reordered, at);
    }
}

/// The total of entries does not depend on the order in which they are
/// handed in.
pub proof fn lemma_fold_reordered(elements: Seq<&TimeEntry>, reordered: Seq<&TimeEntry>)
    requires
        elements.to_multiset() == reordered.to_multiset(),
    ensures
        sum_seconds(durations_of(elements)) == sum_seconds(durations_of(reordered)),
        folded(elements) == folded(reordered),
    decreases elements.len(),
{
    elements.to_multiset_ensures();
    reordered.to_multiset_ensures();
    if elements.len() > 0 {
        let last = elements.last();
        assert(reordered.to_multiset().count(last) > 0);
        let at = choose|at: int| 0 <= at < reordered.len() && reordered[at] == last;
        assert(elements.drop_last() =~= elements.remove(elements.len() - 1));
        lemma_fold_reordered(elements.drop_last(), reordered.remove(at));
        assert(durations_of(elements).drop_last() =~= durations_of(elements.drop_last()));
        assert(durations_of(reordered).remove(at) =~= durations_of(reordered.remove(at)));
        lemma_sum_without(durations_of(reordered), at);
    }
}

/// Wherever a sequence of entries is cut in two, the exact totals of the two
/// parts add up to the exact total of the whole.
pub proof fn lemma_total_split(elements: Seq<&TimeEntry>, at: int)
    requires
        0 <= at <= elements.len(),
    ensures
        sum_seconds(durations_of(elements)) == sum_seconds(durations_of(elements.take(at)))
            + sum_seconds(durations_of(elements.skip(at))),
{
    lemma_sum_split(durations_of(elements), at);
    assert(durations_of(elements).take(at) =~= durations_of(elements.take(at)));
    assert(durations_of(elements).skip(at) =~= durations_of(elements.skip(at)));
}

/// Wherever a sequence of entries is cut in two, adding the totals of the
/// parts as `Duration::saturating_add` does gives the total of the whole
/// exactly where `halves_add_up` holds of the exact totals of the parts, and
/// so whenever both lie within `i64`.
pub proof fn lemma_fold_split(elements: Seq<&TimeEntry>, at: int)
    requires
        0 <= at <= elements.len(),
    ensures
        (folded(elements) == saturated(folded(elements.take(at)) + folded(elements.skip(at))))
            <==> halves_add_up(
            sum_seconds(durations_of(elements.take(at))),
            sum_seconds(durations_of(elements.skip(at))),
        ),
{
    lemma_total_split(elements, at);
}

/// The total of a selection and the total of what it leaves out add up to
/// the total of all entries: a selection is summed over the chosen entries
/// and over no others.
pub proof fn lemma_selection_total(elements: Seq<&TimeEntry>, chosen: Seq<bool>)
    requires
        chosen.len() == elements.len(),
    ensures
        sum_seconds(durations_of(selection(elements, chosen))) + sum_seconds(
            durations_of(selection(elements, left_out(chosen))),
        ) == sum_seconds(durations_of(elements)),
    decreases elements.len(),
{
    if elements.len() > 0 {
        let before = elements.drop_last();
        let last = elements.last();
        lemma_selection_total(before, chosen.drop_last());
        assert(left_out(chosen).drop_last() =~= left_out(chosen.drop_last()));
        assert(durations_of(elements).drop_last() =~= durations_of(before));
        let taken = selection(before, chosen.drop_last());
        let left = selection(before, left_out(chosen.drop_last()));
        if chosen.last() {
            assert(durations_of(taken.push(last)).drop_last() =~= durations_of(taken));
        } else {
            assert(durations_of(left.push(last)).drop_last() =~= durations_of(left));
        }
    }
}

} // verus!
