//! A fixed-capacity history that forgets its oldest entry first.

use std::collections::VecDeque;
use vstd::prelude::*;

verus! {

/// The last `cap` entries of `s`, in order; all of `s` where it is no longer than `cap`.
pub open spec fn keep_last<T>(s: Seq<T>, cap: nat) -> Seq<T> {
    if s.len() <= cap {
        s
    } else {
        s.skip(s.len() - cap)
    }
}

/// A history of at most `CAP` entries, oldest first.
///
/// Used alike for numeric samples behind a chart and for the lines of a log pane.
pub struct RingBuffer<T, const CAP: usize> {
    items: VecDeque<T>,
}

impl<T, const CAP: usize> View for RingBuffer<T, CAP> {
    type V = Seq<T>;

    closed spec fn view(&self) -> Seq<T> {
        self.items@
    }
}

impl<T, const CAP: usize> RingBuffer<T, CAP> {
    /// The buffer never holds more than `CAP` entries.
    pub open spec fn wf(&self) -> bool {
        self@.len() <= CAP
    }

    /// An empty history.
    pub fn new() -> (r: Self)
        ensures
            r.wf(),
            r@ == Seq::<T>::empty(),
    {
        RingBuffer { items: VecDeque::new() }
    }

    /// The number of entries held.
    pub fn len(&self) -> (n: usize)
        requires
            self.wf(),
        ensures
            n == self@.len(),
            n <= CAP,
    {
        self.items.len()
    }

    /// Whether nothing has been inserted yet (or the capacity is zero).
    pub fn is_empty(&self) -> (b: bool)
        requires
            self.wf(),
        ensures
            b == (self@.len() == 0),
    {
        self.items.len() == 0
    }

    /// The most entries the buffer will hold.
    pub fn capacity(&self) -> (n: usize)
        ensures
            n == CAP,
    {
        CAP
    }

    /// Appends `item` as the newest entry; once `CAP` entries are held, the
    /// oldest one is dropped to make room.
    pub fn insert(&mut self, item: T)
        requires
            old(self).wf(),
        ensures
            final(self).wf(),
            final(self)@ == keep_last(old(self)@.push(item), CAP as nat),
    {
        if CAP == 0 {
            return ;
        }
        if self.items.len() == CAP {
            let _ = self.items.pop_front();
        }
        self.items.push_back(item);
    }

    /// The entry at `index`, counted from the oldest.
    pub fn get(&self, index: usize) -> (r: Option<&T>)
        requires
            self.wf(),
        ensures
            index < self@.len() ==> r == Some(&self@[index as int]),
            index >= self@.len() ==> r is None,
    {
        if index < self.items.len() {
            Some(&self.items[index])
        } else {
            None
        }
    }

    /// All entries, oldest first, borrowed for the length of one render pass.
    pub fn snapshot(&self) -> (r: Vec<&T>)
        requires
            self.wf(),
        ensures
            r@.len() == self@.len(),
            forall|i: int| 0 <= i < self@.len() ==> *r@[i] == self@[i],
    {
        let mut out: Vec<&T> = Vec::new();
        let n: usize = self.items.len();
        let mut i: usize = 0;
        while i < n
            invariant
                n == self.items@.len(),
                i <= n,
                out@.len() == i,
                forall|j: int| 0 <= j < i ==> *out@[j] == self.items@[j],
            decreases n - i,
        {
            out.push(&self.items[i]);
            i += 1;
        }
        out
    }
}

/// To keep the last `cap` entries after every insertion is to keep the last
/// `cap` of all that was inserted.
pub proof fn lemma_keep_last_push<T>(s: Seq<T>, item: T, cap: nat)
    ensures
        keep_last(keep_last(s, cap).push(item), cap) == keep_last(s.push(item), cap),
{
    assert(keep_last(keep_last(s, cap).push(item), cap) =~= keep_last(s.push(item), cap));
}

/// What a buffer of capacity `cap` holds after every entry of `items` was
/// inserted into it, one after the other, starting from `start`.
pub open spec fn insert_all<T>(start: Seq<T>, items: Seq<T>, cap: nat) -> Seq<T>
    decreases items.len(),
{
    if items.len() == 0 {
        start
    } else {
        insert_all(keep_last(start.push(items[0]), cap), items.drop_first(), cap)
    }
}

/// Inserting a run of entries one by one leaves the last `cap` of everything
/// that was ever held or inserted.
pub proof fn lemma_insert_all<T>(start: Seq<T>, items: Seq<T>, cap: nat)
    requires
        start.len() <= cap,
    ensures
        insert_all(start, items, cap) == keep_last(start + items, cap),
    decreases items.len(),
{
    if items.len() == 0 {
        assert(start + items =~= start);
    } else {
        let next = keep_last(start.push(items[0]), cap);
        lemma_insert_all(next, items.drop_first(), cap);
        assert(keep_last(next + items.drop_first(), cap) =~= keep_last(start + items, cap));
    }
}

/// After inserting `items` into an empty buffer, the snapshot holds
/// `min(items.len(), cap)` entries: the last `cap` of them, in the order in
/// which they were inserted.
pub proof fn lemma_snapshot_is_tail<T>(items: Seq<T>, cap: nat)
    ensures
        insert_all(Seq::<T>::empty(), items, cap).len() == if items.len() <= cap {
            items.len()
        } else {
            cap
        },
        insert_all(Seq::<T>::empty(), items, cap) == keep_last(items, cap),
        items.len() > cap ==> insert_all(Seq::<T>::empty(), items, cap) == items.skip(
            items.len() - cap,
        ),
{
    lemma_insert_all(Seq::<T>::empty(), items, cap);
    assert(Seq::<T>::empty() + items =~= items);
}

} // verus!
