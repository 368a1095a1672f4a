//! The queue store: one insertion-ordered sequence of items, read and drained
//! by queue name.

use crate::structs::Item;
use vstd::prelude::*;

verus! {

/// Whether an item belongs to `queue`: its tag is that name, character for
/// character.
pub open spec fn of_queue(queue: Seq<char>) -> spec_fn(Item) -> bool {
    |item: Item| item.queue@ == queue
}

/// Whether an item belongs to another queue than `queue`.
pub open spec fn not_of_queue(queue: Seq<char>) -> spec_fn(Item) -> bool {
    |item: Item| item.queue@ != queue
}

/// The items of `items` that belong to `queue`, in the order they have there.
pub open spec fn matching(items: Seq<Item>, queue: Seq<char>) -> Seq<Item> {
    items.filter(of_queue(queue))
}

/// The items of `items` that do not belong to `queue`, in the order they have
/// there.
pub open spec fn others(items: Seq<Item>, queue: Seq<char>) -> Seq<Item> {
    items.filter(not_of_queue(queue))
}

/// `matching` and `others` of a sequence, from those of all but its last item.
pub proof fn lemma_split_last(items: Seq<Item>, queue: Seq<char>)
    requires
        items.len() > 0,
    ensures
        items.last().queue@ == queue ==> matching(items, queue) == matching(
            items.drop_last(),
            queue,
        ).push(items.last()) && others(items, queue) == others(items.drop_last(), queue),
        items.last().queue@ != queue ==> matching(items, queue) == matching(
            items.drop_last(),
            queue,
        ) && others(items, queue) == others(items.drop_last(), queue).push(items.last()),
{
    reveal(Seq::filter);
}

/// All items held, oldest first.
pub struct QueueStore {
    pub items: Vec<Item>,
}

impl View for QueueStore {
    type V = Seq<Item>;

    open spec fn view(&self) -> Seq<Item> {
        self.items@
    }
}

impl QueueStore {
    /// A store that holds nothing.
    pub fn new() -> (store: Self)
        ensures
            store@ == Seq::<Item>::empty(),
    {
        QueueStore { items: Vec::new() }
    }

    /// The number of items held, over all queues.
    pub fn len(&self) -> (n: usize)
        ensures
            n == self@.len(),
    {
        self.items.len()
    }

    /// Whether no item is held.
    pub fn is_empty(&self) -> (empty: bool)
        ensures
            empty == (self@.len() == 0),
    {
        self.items.len() == 0
    }

    /// Appends `item` behind all items held.
    pub fn insert(&mut self, item: Item)
        ensures
            final(self)@ == old(self)@.push(item),
    {
        self.items.push(item);
    }

    /// Copies of the items of `queue`, oldest first. The store is not changed.
    pub fn peek(&self, queue: &String) -> (found: Vec<Item>)
        ensures
            found@ == matching(self@, queue@),
    {
        let mut found: Vec<Item> = Vec::new();
        let mut i: usize = 0;
        while i < self.items.len()
            invariant
                i <= self.items.len(),
                found@ == matching(self.items@.take(i as int), queue@),
            decreases self.items.len() - i,
        {
            proof {
                let next = self.items@.take(i + 1);
                assert(next.drop_last() == self.items@.take(i as int));
                lemma_split_last(next, queue@);
            }
            if self.items[i].queue == *queue {
                found.push(self.items[i].clone());
            }
            i += 1;
        }
        proof {
            assert(self.items@.take(i as int) == self.items@);
        }
        found
    }

    /// Removes the items of `queue` and returns them, oldest first. The other
    /// items stay, in their order.
    pub fn drain(&mut self, queue: &String) -> (taken: Vec<Item>)
        ensures
            taken@ == matching(old(self)@, queue@),
            final(self)@ == others(old(self)@, queue@),
    {
        let mut all: Vec<Item> = Vec::new();
        std::mem::swap(&mut self.items, &mut all);
        let mut taken: Vec<Item> = Vec::new();
        let mut kept: Vec<Item> = Vec::new();
        let ghost before = all@;
        for item in it: all
            invariant
                it.seq() == before,
                taken@ == matching(it.seq().take(it.index()), queue@),
                kept@ == others(it.seq().take(it.index()), queue@),
        {
            proof {
                let next = it.seq().take(it.index() + 1);
                assert(next.drop_last() == it.seq().take(it.index()));
                lemma_split_last(next, queue@);
            }
            if item.queue == *queue {
                taken.push(item);
            } else {
                kept.push(item);
            }
        }
        proof {
            assert(before.take(before.len() as int) == before);
        }
        self.items = kept;
        taken
    }
}

} // verus!
