//! Laws that relate the operations to one another, over the sequences of live elements.

use vstd::prelude::*;
use crate::svec::after_push;

verus! {

/// What appending `items` one after another, first item first, makes of the elements `s` of a
/// container with `cap` slots.
pub open spec fn after_pushes<T>(s: Seq<T>, cap: nat, items: Seq<T>) -> Seq<T>
    decreases items.len(),
{
    if items.len() == 0 {
        s
    } else {
        after_pushes(after_push(s, cap, items.first()), cap, items.drop_first())
    }
}

/// As long as there is room, every append takes effect: the length grows by the number of
/// items appended, and the items stand behind the earlier elements in the order in which they
/// were appended.
pub proof fn law_pushes_keep_order<T>(s: Seq<T>, cap: nat, items: Seq<T>)
    requires
        s.len() + items.len() <= cap,
    ensures
        after_pushes(s, cap, items) == s + items,
        after_pushes(s, cap, items).len() == s.len() + items.len(),
    decreases items.len(),
{
    if items.len() == 0 {
        assert(s + items =~= s);
    } else {
        let next = after_push(s, cap, items.first());
        law_pushes_keep_order(next, cap, items.drop_first());
        assert(next + items.drop_first() =~= s + items);
    }
}

/// Appending to a full container leaves its elements as they were.
pub proof fn law_push_when_full<T>(s: Seq<T>, cap: nat, t: T)
    requires
        s.len() == cap,
    ensures
        after_push(s, cap, t) == s,
{
}

/// Taking the last element off a container and appending it again restores the elements.
pub proof fn law_pop_then_push<T>(s: Seq<T>, cap: nat)
    requires
        0 < s.len() <= cap,
    ensures
        after_push(s.drop_last(), cap, s.last()) == s,
{
    assert(s.drop_last().push(s.last()) =~= s);
}

/// Appending an element and taking the last element off gives that element back and restores
/// the elements.
pub proof fn law_push_then_pop<T>(s: Seq<T>, cap: nat, t: T)
    requires
        s.len() < cap,
    ensures
        after_push(s, cap, t).last() == t,
        after_push(s, cap, t).drop_last() == s,
{
    assert(s.push(t).drop_last() =~= s);
}

/// Inserting an element at a position and removing the element at that position restores the
/// elements, and the element removed is the one inserted.
pub proof fn law_insert_then_remove<T>(s: Seq<T>, i: int, t: T)
    requires
        0 <= i <= s.len(),
    ensures
        s.insert(i, t)[i] == t,
        s.insert(i, t).remove(i) == s,
{
    assert(s.insert(i, t).remove(i) =~= s);
}

/// Reversing twice restores the elements.
pub proof fn law_reverse_twice<T>(s: Seq<T>)
    ensures
        s.reverse().reverse() == s,
{
    assert(s.reverse().reverse() =~= s);
}

} // verus!
