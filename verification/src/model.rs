//! What a list holds, as a sequence of strings with the front value first, and
//! what insertions and removals at the front do to such a sequence.

use vstd::prelude::*;

verus! {

/// The contents after `value` was put in front of `items`.
pub open spec fn unshifted(items: Seq<Seq<char>>, value: Seq<char>) -> Seq<Seq<char>> {
    seq![value] + items
}

/// What a removal at the front hands out: the front value, or nothing where
/// there is none.
pub open spec fn front(items: Seq<Seq<char>>) -> Option<Seq<char>> {
    if items.len() == 0 {
        None
    } else {
        Some(items[0])
    }
}

/// The contents after a removal at the front: all but the front value. Empty
/// contents stay empty.
pub open spec fn shifted(items: Seq<Seq<char>>) -> Seq<Seq<char>> {
    if items.len() == 0 {
        items
    } else {
        items.subrange(1, items.len() as int)
    }
}

/// The contents after each of `values` was put in front of `items` in turn,
/// `values[0]` first.
pub open spec fn unshifted_all(items: Seq<Seq<char>>, values: Seq<Seq<char>>) -> Seq<Seq<char>>
    decreases values.len(),
{
    if values.len() == 0 {
        items
    } else {
        unshifted(unshifted_all(items, values.drop_last()), values.last())
    }
}

/// What `n` removals in a row hand out, the result of the first removal first.
pub open spec fn shifts(items: Seq<Seq<char>>, n: nat) -> Seq<Option<Seq<char>>>
    decreases n,
{
    if n == 0 {
        Seq::empty()
    } else {
        seq![front(items)] + shifts(shifted(items), (n - 1) as nat)
    }
}

/// The contents after `n` removals in a row.
pub open spec fn shifted_n(items: Seq<Seq<char>>, n: nat) -> Seq<Seq<char>>
    decreases n,
{
    if n == 0 {
        items
    } else {
        shifted_n(shifted(items), (n - 1) as nat)
    }
}

/// Values put in one after the other stand in the opposite order in front
/// of what was held before.
pub proof fn lemma_unshifted_all(items: Seq<Seq<char>>, values: Seq<Seq<char>>)
    ensures
        unshifted_all(items, values) == values.reverse() + items,
    decreases values.len(),
{
    if values.len() > 0 {
        lemma_unshifted_all(items, values.drop_last());
    }
}

/// Removals hand out the values in the order in which they are held, then
/// nothing: the removal number `i` gives `items[i]` while there is one, and
/// what stays behind is what the removals did not reach. So a list that
/// holds nothing hands out nothing, however often it is asked.
pub proof fn lemma_shifts(items: Seq<Seq<char>>, n: nat)
    ensures
        shifts(items, n).len() == n,
        forall|i: int|
            0 <= i < n ==> #[trigger] shifts(items, n)[i] == if i < items.len() {
                Some(items[i])
            } else {
                None
            },
        n <= items.len() ==> shifted_n(items, n) == items.skip(n as int),
        n >= items.len() ==> shifted_n(items, n) == Seq::<Seq<char>>::empty(),
    decreases n,
{
    if n > 0 {
        lemma_shifts(shifted(items), (n - 1) as nat);
    }
}

/// Last in, first out: after the values of `values` were put in one after the
/// other, as many removals hand them out again in the opposite order, the last
/// one first, and leave the list holding what it held before.
pub proof fn lemma_last_in_first_out(items: Seq<Seq<char>>, values: Seq<Seq<char>>)
    ensures
        shifts(unshifted_all(items, values), values.len()).len() == values.len(),
        forall|i: int|
            0 <= i < values.len() ==> #[trigger] shifts(
                unshifted_all(items, values),
                values.len(),
            )[i] == Some(values[values.len() - 1 - i]),
        shifted_n(unshifted_all(items, values), values.len()) == items,
{
    lemma_unshifted_all(items, values);
    lemma_shifts(unshifted_all(items, values), values.len());
}

} // verus!
