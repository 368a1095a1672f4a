//! Laws of the queue store, stated over `matching` and `others`.

use crate::store::{lemma_split_last, matching, of_queue, others};
use crate::structs::Item;
use vstd::prelude::*;

verus! {

/// An inserted item is the newest item of its own queue.
pub proof fn law_insert_visible(items: Seq<Item>, item: Item)
    ensures
        matching(items.push(item), item.queue@) == matching(items, item.queue@).push(item),
{
    assert(items.push(item).drop_last() == items);
    lemma_split_last(items.push(item), item.queue@);
}

/// Isolation: an insert into one queue does not show in any other queue.
pub proof fn law_insert_isolated(items: Seq<Item>, item: Item, queue: Seq<char>)
    requires
        item.queue@ != queue,
    ensures
        matching(items.push(item), queue) == matching(items, queue),
{
    assert(items.push(item).drop_last() == items);
    lemma_split_last(items.push(item), queue);
}

/// Isolation: draining one queue leaves every other queue as it was.
pub proof fn law_drain_isolated(items: Seq<Item>, drained: Seq<char>, queue: Seq<char>)
    requires
        drained != queue,
    ensures
        matching(others(items, drained), queue) == matching(items, queue),
    decreases items.len(),
{
    reveal(Seq::filter);
    if items.len() > 0 {
        law_drain_isolated(items.drop_last(), drained, queue);
        lemma_split_last(items, drained);
        lemma_split_last(items, queue);
        if items.last().queue@ != drained {
            let kept = others(items.drop_last(), drained).push(items.last());
            assert(kept.drop_last() == others(items.drop_last(), drained));
            lemma_split_last(kept, queue);
        }
    }
}

/// Order preservation: what a queue shows of a store followed by later
/// inserts is what it showed before, followed by the later items of that
/// queue in the order of their insertion.
pub proof fn law_order_preserved(items: Seq<Item>, later: Seq<Item>, queue: Seq<char>)
    ensures
        matching(items + later, queue) == matching(items, queue) + matching(later, queue),
        (forall|i: int| 0 <= i < later.len() ==> (#[trigger] later[i]).queue@ == queue)
            ==> matching(later, queue) == later,
    decreases later.len(),
{
    Seq::filter_distributes_over_add(items, later, of_queue(queue));
    if later.len() > 0 {
        law_order_preserved(items, later.drop_last(), queue);
        lemma_split_last(later, queue);
        if forall|i: int| 0 <= i < later.len() ==> (#[trigger] later[i]).queue@ == queue {
            assert(later.drop_last().push(later.last()) == later);
        }
    } else {
        reveal(Seq::filter);
        assert(matching(later, queue) == later);
    }
}

/// Every item that a queue shows belongs to it, and stands in the store.
pub proof fn law_matching_members(items: Seq<Item>, queue: Seq<char>, i: int)
    requires
        0 <= i < matching(items, queue).len(),
    ensures
        matching(items, queue)[i].queue@ == queue,
        items.contains(matching(items, queue)[i]),
{
    items.lemma_filter_pred(of_queue(queue), i);
    assert(matching(items, queue).contains(matching(items, queue)[i]));
    items.lemma_filter_contains_rev(of_queue(queue), matching(items, queue)[i]);
}

/// A drain neither loses nor duplicates an item: what it returns and what it
/// leaves are together what was there.
pub proof fn law_drain_conserves(items: Seq<Item>, queue: Seq<char>)
    ensures
        items.to_multiset() == matching(items, queue).to_multiset().add(
            others(items, queue).to_multiset(),
        ),
        items.len() == matching(items, queue).len() + others(items, queue).len(),
    decreases items.len(),
{
    broadcast use vstd::seq_lib::group_to_multiset_ensures;

    if items.len() > 0 {
        law_drain_conserves(items.drop_last(), queue);
        lemma_split_last(items, queue);
        assert(items.drop_last().push(items.last()) == items);
        assert(items.to_multiset() =~= matching(items, queue).to_multiset().add(
            others(items, queue).to_multiset(),
        ));
    } else {
        reveal(Seq::filter);
        assert(items.to_multiset() =~= matching(items, queue).to_multiset().add(
            others(items, queue).to_multiset(),
        ));
    }
}

/// What a drain has returned, no later read of that queue shows again, and a
/// second drain removes nothing more.
pub proof fn law_drained_once(items: Seq<Item>, queue: Seq<char>)
    ensures
        matching(others(items, queue), queue) == Seq::<Item>::empty(),
        others(others(items, queue), queue) == others(items, queue),
    decreases items.len(),
{
    reveal(Seq::filter);
    if items.len() > 0 {
        law_drained_once(items.drop_last(), queue);
        lemma_split_last(items, queue);
        if items.last().queue@ != queue {
            let kept = others(items.drop_last(), queue).push(items.last());
            assert(kept.drop_last() == others(items.drop_last(), queue));
            lemma_split_last(kept, queue);
        }
    }
}

/// Idempotent emptiness: where a queue shows nothing, draining it leaves the
/// store as it was.
pub proof fn law_empty_drain(items: Seq<Item>, queue: Seq<char>)
    requires
        matching(items, queue).len() == 0,
    ensures
        others(items, queue) == items,
    decreases items.len(),
{
    reveal(Seq::filter);
    if items.len() > 0 {
        lemma_split_last(items, queue);
        law_empty_drain(items.drop_last(), queue);
        assert(items.drop_last().push(items.last()) == items);
    }
}

/// One call on the store.
pub enum Operation {
    Insert(Item),
    Peek(Seq<char>),
    Drain(Seq<char>),
}

/// The store after one call.
pub open spec fn step(items: Seq<Item>, op: Operation) -> Seq<Item> {
    match op {
        Operation::Insert(item) => items.push(item),
        Operation::Peek(_) => items,
        Operation::Drain(queue) => others(items, queue),
    }
}

/// The store after the calls `ops`, made one after the other on `start`.
pub open spec fn store_after(start: Seq<Item>, ops: Seq<Operation>) -> Seq<Item>
    decreases ops.len(),
{
    if ops.len() == 0 {
        start
    } else {
        step(store_after(start, ops.drop_last()), ops.last())
    }
}

/// The items that `ops` insert, in order.
pub open spec fn inserted_by(ops: Seq<Operation>) -> Seq<Item>
    decreases ops.len(),
{
    if ops.len() == 0 {
        Seq::empty()
    } else {
        match ops.last() {
            Operation::Insert(item) => inserted_by(ops.drop_last()).push(item),
            _ => inserted_by(ops.drop_last()),
        }
    }
}

/// The items that the drains among `ops` return, in order, when `ops` are
/// made one after the other on `start`.
pub open spec fn drained_by(start: Seq<Item>, ops: Seq<Operation>) -> Seq<Item>
    decreases ops.len(),
{
    if ops.len() == 0 {
        Seq::empty()
    } else {
        match ops.last() {
            Operation::Drain(queue) => drained_by(start, ops.drop_last()) + matching(
                store_after(start, ops.drop_last()),
                queue,
            ),
            _ => drained_by(start, ops.drop_last()),
        }
    }
}

/// Drain atomicity over a history: whatever calls are made in whatever
/// order, each item that was in the store at the start or was inserted since
/// is either still in the store or was returned by exactly one drain, and
/// nothing else is in the store or was returned.
pub proof fn law_history_conserves(start: Seq<Item>, ops: Seq<Operation>)
    ensures
        start.to_multiset().add(inserted_by(ops).to_multiset()) == store_after(
            start,
            ops,
        ).to_multiset().add(drained_by(start, ops).to_multiset()),
    decreases ops.len(),
{
    broadcast use {vstd::seq_lib::group_to_multiset_ensures, vstd::multiset::group_multiset_axioms};

    let before = start.to_multiset().add(inserted_by(ops).to_multiset());
    let after = store_after(start, ops).to_multiset().add(drained_by(start, ops).to_multiset());
    if ops.len() > 0 {
        let earlier = ops.drop_last();
        let held = store_after(start, earlier);
        law_history_conserves(start, earlier);
        match ops.last() {
            Operation::Insert(item) => {
                assert(inserted_by(ops).to_multiset() =~= inserted_by(
                    earlier,
                ).to_multiset().insert(item));
                assert(held.push(item).to_multiset() =~= held.to_multiset().insert(item));
                assert forall|x: Item| before.count(x) == after.count(x) by {
                    assert(start.to_multiset().add(inserted_by(earlier).to_multiset()).count(x)
                        == held.to_multiset().add(drained_by(start, earlier).to_multiset()).count(
                        x,
                    ));
                }
                assert(before =~= after);
            },
            Operation::Peek(_) => {
                assert(before =~= after);
            },
            Operation::Drain(queue) => {
                law_drain_conserves(held, queue);
                vstd::seq_lib::lemma_multiset_commutative(
                    drained_by(start, earlier),
                    matching(held, queue),
                );
                assert forall|x: Item| before.count(x) == after.count(x) by {
                    assert(start.to_multiset().add(inserted_by(earlier).to_multiset()).count(x)
                        == held.to_multiset().add(drained_by(start, earlier).to_multiset()).count(
                        x,
                    ));
                }
                assert(before =~= after);
            },
        }
    } else {
        assert(before =~= after);
    }
}

} // verus!
