//! An owned singly-ordered list with the operations of the `SMB2_LIST_*`
//! helpers: add at the front, add at the end, remove an item, report length.
//!
//! The list owns its items and keeps them in insertion order; its model is
//! the sequence of items from head to tail.
use std::collections::VecDeque;
use vstd::prelude::*;
use vstd::std_specs::cmp::PartialEqSpec;

verus! {

/// Owned list of items, head first.
#[derive(Clone, Debug, Eq, PartialEq)]
pub struct Smb2SList<T> {
    entries: VecDeque<T>,
}

impl<T> View for Smb2SList<T> {
    type V = Seq<T>;

    closed spec fn view(&self) -> Seq<T> {
        self.entries@
    }
}

impl<T> Smb2SList<T> {
    /// Creates an empty list.
    pub fn new() -> (r: Self)
        ensures
            r@ == Seq::<T>::empty(),
    {
        Smb2SList { entries: VecDeque::new() }
    }

    /// Adds `item` to the front of the list.
    pub fn add(&mut self, item: T)
        ensures
            final(self)@ == seq![item] + old(self)@,
    {
        self.entries.push_front(item);
    }

    /// Adds `item` to the end of the list.
    pub fn add_end(&mut self, item: T)
        ensures
            final(self)@ == old(self)@.push(item),
    {
        self.entries.push_back(item);
    }

    /// Removes and returns the first item for which `predicate` answers
    /// `true`. The predicate is asked about the items in order, up to and
    /// including the first one it accepts; the other items keep their order.
    pub fn remove_first_by<F: Fn(&T) -> bool>(&mut self, predicate: F) -> (r: Option<T>)
        requires
            forall|x: &T| #[trigger] predicate.requires((x,)),
        ensures
            match r {
                Some(x) => exists|i: int|
                    0 <= i < old(self)@.len()
                    && predicate.ensures((&old(self)@[i],), true)
                    && (forall|j: int| 0 <= j < i ==> predicate.ensures((&old(self)@[j],), false))
                    && x == old(self)@[i]
                    && final(self)@ == old(self)@.remove(i),
                None => {
                    &&& forall|j: int|
                        0 <= j < old(self)@.len() ==> predicate.ensures((&old(self)@[j],), false)
                    &&& final(self)@ == old(self)@
                },
            },
    {
        let n = self.entries.len();
        let mut i: usize = 0;
        while i < n
            invariant
                n == self.entries@.len(),
                i <= n,
                self.entries@ == old(self)@,
                forall|x: &T| #[trigger] predicate.requires((x,)),
                forall|j: int| 0 <= j < i ==> predicate.ensures((&old(self)@[j],), false),
            decreases n - i,
        {
            let hit = predicate(&self.entries[i]);
            if hit {
                let removed = self.entries.remove(i);
                return removed;
            }
            i = i + 1;
        }
        None
    }

    /// Removes and returns the first item equal to `item`.
    pub fn remove_first(&mut self, item: &T) -> (r: Option<T>)
        where
            T: PartialEq,
        ensures
            T::obeys_eq_spec() ==> match r {
                Some(x) => exists|i: int|
                    0 <= i < old(self)@.len()
                    && old(self)@[i].eq_spec(item)
                    && (forall|j: int| 0 <= j < i ==> !old(self)@[j].eq_spec(item))
                    && x == old(self)@[i]
                    && final(self)@ == old(self)@.remove(i),
                None => {
                    &&& forall|j: int| 0 <= j < old(self)@.len() ==> !old(self)@[j].eq_spec(item)
                    &&& final(self)@ == old(self)@
                },
            },
            !T::obeys_eq_spec() ==> match r {
                Some(x) => exists|i: int|
                    0 <= i < old(self)@.len() && x == old(self)@[i]
                    && final(self)@ == old(self)@.remove(i),
                None => final(self)@ == old(self)@,
            },
    {
        let n = self.entries.len();
        let mut i: usize = 0;
        while i < n
            invariant
                n == self.entries@.len(),
                i <= n,
                self.entries@ == old(self)@,
                T::obeys_eq_spec() ==> forall|j: int| 0 <= j < i ==> !old(self)@[j].eq_spec(item),
            decreases n - i,
        {
            let hit = self.entries[i] == *item;
            if hit {
                let removed = self.entries.remove(i);
                return removed;
            }
            i = i + 1;
        }
        None
    }

    /// Removes and returns the first item in the list.
    pub fn pop_front(&mut self) -> (r: Option<T>)
        ensures
            match r {
                Some(x) => old(self)@.len() > 0 && x == old(self)@[0]
                    && final(self)@ == old(self)@.drop_first(),
                None => old(self)@.len() == 0 && final(self)@ == old(self)@,
            },
    {
        self.entries.pop_front()
    }

    /// Returns the number of items currently in the list.
    pub fn len(&self) -> (r: usize)
        ensures
            r == self@.len(),
    {
        self.entries.len()
    }

    /// Returns `true` when the list contains no items.
    pub fn is_empty(&self) -> (r: bool)
        ensures
            r == (self@.len() == 0),
    {
        self.entries.len() == 0
    }

    /// Returns the items from head to tail.
    pub fn iter(&self) -> (r: Vec<&T>)
        ensures
            r@.len() == self@.len(),
            forall|i: int| 0 <= i < r@.len() ==> *r@[i] == self@[i],
    {
        let mut out: Vec<&T> = Vec::new();
        let n = self.entries.len();
        let mut i: usize = 0;
        while i < n
            invariant
                n == self.entries@.len(),
                i <= n,
                out@.len() == i,
                forall|k: int| 0 <= k < i ==> *out@[k] == self.entries@[k],
            decreases n - i,
        {
            out.push(&self.entries[i]);
            i = i + 1;
        }
        out
    }

    /// Removes all items from the list.
    pub fn clear(&mut self)
        ensures
            final(self)@ == Seq::<T>::empty(),
    {
        self.entries.clear();
    }

    /// Builds a list holding `items` in the same order.
    pub fn from_vec(items: Vec<T>) -> (r: Self)
        ensures
            r@ == items@,
    {
        let mut list = Smb2SList::new();
        list.extend(items);
        list
    }

    /// Appends `items` at the end, in order.
    pub fn extend(&mut self, items: Vec<T>)
        ensures
            final(self)@ == old(self)@ + items@,
    {
        let mut rest = items;
        let ghost start = self@;
        let ghost all = rest@;
        let total = rest.len();
        let mut queue: VecDeque<T> = VecDeque::new();
        while rest.len() > 0
            invariant
                rest@.len() + queue@.len() == total,
                total == all.len(),
                queue@ + rest@ == all,
                self@ == start,
            decreases rest@.len(),
        {
            let x = rest.remove(0);
            queue.push_back(x);
            proof {
                assert(queue@ + rest@ =~= all);
            }
        }
        assert(queue@ =~= all);
        self.entries.append(&mut queue);
    }
}

impl<T> Default for Smb2SList<T> {
    fn default() -> (r: Self)
        ensures
            r@ == Seq::<T>::empty(),
    {
        Smb2SList::new()
    }
}

/// Whatever is added at the front comes out first, and the list is otherwise
/// unchanged by the pair of calls.
pub proof fn lemma_add_then_pop<T>(s: Seq<T>, item: T)
    ensures
        (seq![item] + s).len() > 0,
        (seq![item] + s)[0] == item,
        (seq![item] + s).drop_first() == s,
{
    assert((seq![item] + s).drop_first() =~= s);
}

} // verus!
