//! The bounded, ordered conversation log of one channel, with the two
//! operations that make the snapshot-then-merge discipline safe to state:
//! capacity-clamped appending (oldest items evicted first) and a merge that
//! keeps only `Message` items of a working copy's delta.

use vstd::prelude::*;

use crate::items::{clone_items, ConversationItem, ItemView};

verus! {

/// What a bounded log retains of `s` under capacity `cap`: all of it when it
/// fits, otherwise the last `cap` items in their original order.
pub open spec fn clamp_to_capacity(s: Seq<ItemView>, cap: nat) -> Seq<ItemView> {
    if s.len() <= cap {
        s
    } else {
        s.subrange(s.len() - cap, s.len() as int)
    }
}

/// The subsequence of `Message` items of `s`, in their original order.
pub open spec fn messages_only(s: Seq<ItemView>) -> Seq<ItemView>
    decreases s.len(),
{
    if s.len() == 0 {
        Seq::empty()
    } else if s.last().is_message() {
        messages_only(s.drop_last()).push(s.last())
    } else {
        messages_only(s.drop_last())
    }
}

/// Taking one more item extends the filtered subsequence exactly when that
/// item is a `Message`.
pub proof fn lemma_messages_only_push(s: Seq<ItemView>, x: ItemView)
    ensures
        messages_only(s.push(x)) == if x.is_message() {
            messages_only(s).push(x)
        } else {
            messages_only(s)
        },
{
    assert(s.push(x).drop_last() =~= s);
    assert(s.push(x).last() == x);
}

/// The bounded, ordered conversation log of one channel.
///
/// Its mathematical value is the sequence of item views, oldest first; the
/// capacity never changes after construction, and the length never exceeds it.
pub struct Context {
    items: Vec<ConversationItem>,
    capacity: usize,
}

impl View for Context {
    type V = Seq<ItemView>;

    closed spec fn view(&self) -> Seq<ItemView> {
        self.items.deep_view()
    }
}

impl Context {
    /// The capacity this log was created with.
    pub closed spec fn cap(&self) -> nat {
        self.capacity as nat
    }

    /// The log never holds more items than its capacity.
    pub open spec fn wf(&self) -> bool {
        self@.len() <= self.cap()
    }

    /// An empty log with the given capacity.
    pub fn new(capacity: usize) -> (r: Context)
        ensures
            r@ == Seq::<ItemView>::empty(),
            r.cap() == capacity,
            r.wf(),
    {
        let r = Context { items: Vec::new(), capacity };
        proof {
            assert(r@ =~= Seq::<ItemView>::empty());
        }
        r
    }

    /// The capacity, as an executable value.
    pub fn capacity(&self) -> (c: usize)
        ensures
            c == self.cap(),
    {
        self.capacity
    }

    /// How many items the log currently holds.
    pub fn len(&self) -> (n: usize)
        ensures
            n == self@.len(),
    {
        self.items.len()
    }

    /// Read access to the items, oldest first.
    pub fn entries(&self) -> (r: &Vec<ConversationItem>)
        ensures
            r.deep_view() == self@,
    {
        &self.items
    }

    /// Appends one item; when the log is full, the oldest item is evicted
    /// first, never one in the middle.
    pub fn append(&mut self, item: ConversationItem)
        requires
            old(self).wf(),
        ensures
            final(self).wf(),
            final(self).cap() == old(self).cap(),
            final(self)@ == clamp_to_capacity(old(self)@.push(item@), old(self).cap()),
    {
        if self.capacity == 0 {
            proof {
                assert(old(self)@.len() == 0);
                assert(clamp_to_capacity(old(self)@.push(item@), 0) =~= old(self)@);
            }
            return ;
        }
        if self.items.len() == self.capacity {
            self.items.remove(0);
            proof {
                assert(self.items.deep_view() =~= old(self)@.subrange(1, old(self)@.len() as int));
            }
        }
        self.items.push(item);
        proof {
            let target = clamp_to_capacity(old(self)@.push(item@), old(self).cap());
            assert(self.items.deep_view() =~= target);
        }
    }

    /// Appends a batch of items in order, applying the same eviction rule.
    ///
    /// The retained log is exactly the capacity-clamped concatenation: when
    /// more items were ever appended than fit, what stays are the most recent
    /// ones, in the order they were appended.
    pub fn append_items(&mut self, items: Vec<ConversationItem>)
        requires
            old(self).wf(),
        ensures
            final(self).wf(),
            final(self).cap() == old(self).cap(),
            final(self)@ == clamp_to_capacity(old(self)@ + items.deep_view(), old(self).cap()),
    {
        let n = items.len();
        for i in 0..n
            invariant
                n == items@.len(),
                self.wf(),
                self.cap() == old(self).cap(),
                self@ == clamp_to_capacity(
                    old(self)@ + items.deep_view().subrange(0, i as int),
                    old(self).cap(),
                ),
        {
            let ghost pre = self@;
            self.append(items[i].clone());
            proof {
                lemma_clamp_push(
                    old(self)@ + items.deep_view().subrange(0, i as int),
                    items.deep_view()[i as int],
                    old(self).cap(),
                );
                assert((old(self)@ + items.deep_view().subrange(0, i as int)).push(
                    items.deep_view()[i as int],
                ) =~= old(self)@ + items.deep_view().subrange(0, i + 1));
            }
        }
        proof {
            assert(items.deep_view().subrange(0, n as int) =~= items.deep_view());
        }
    }

    /// A structural copy observed at a single instant, with the same capacity.
    pub fn snapshot(&self) -> (r: Context)
        ensures
            r@ == self@,
            r.cap() == self.cap(),
    {
        Context { items: clone_items(&self.items), capacity: self.capacity }
    }

    /// A structural copy whose capacity is raised so that a working copy
    /// never evicts during a run.
    pub fn working_copy(&self) -> (r: Context)
        requires
            self.wf(),
        ensures
            r@ == self@,
            r.cap() == usize::MAX,
            r.wf(),
    {
        Context { items: clone_items(&self.items), capacity: usize::MAX }
    }

    /// Removes and returns the items from position `start` on: the delta a
    /// run appended to its working copy.
    pub fn split_off(&mut self, start: usize) -> (r: Vec<ConversationItem>)
        requires
            old(self).wf(),
            start <= old(self)@.len(),
        ensures
            final(self).wf(),
            final(self).cap() == old(self).cap(),
            final(self)@ == old(self)@.subrange(0, start as int),
            r.deep_view() == old(self)@.subrange(start as int, old(self)@.len() as int),
    {
        let r = self.items.split_off(start);
        proof {
            assert(self.items.deep_view() =~= old(self)@.subrange(0, start as int));
            assert(r.deep_view() =~= old(self)@.subrange(start as int, old(self)@.len() as int));
        }
        r
    }

    /// Appends only the `Message` items of `delta`, in their relative order,
    /// skipping `ToolCall`, `ToolResult` and `ReasoningNote` items.
    pub fn merge_messages_only(&mut self, delta: &Vec<ConversationItem>)
        requires
            old(self).wf(),
        ensures
            final(self).wf(),
            final(self).cap() == old(self).cap(),
            final(self)@ == clamp_to_capacity(
                old(self)@ + messages_only(delta.deep_view()),
                old(self).cap(),
            ),
    {
        let n = delta.len();
        for i in 0..n
            invariant
                n == delta@.len(),
                self.wf(),
                self.cap() == old(self).cap(),
                self@ == clamp_to_capacity(
                    old(self)@ + messages_only(delta.deep_view().subrange(0, i as int)),
                    old(self).cap(),
                ),
        {
            let ghost prefix = delta.deep_view().subrange(0, i as int);
            let ghost x = delta.deep_view()[i as int];
            proof {
                lemma_messages_only_push(prefix, x);
                assert(prefix.push(x) =~= delta.deep_view().subrange(0, i + 1));
            }
            if delta[i].check_is_message() {
                self.append(delta[i].clone());
                proof {
                    lemma_clamp_push(old(self)@ + messages_only(prefix), x, old(self).cap());
                    assert((old(self)@ + messages_only(prefix)).push(x) =~= old(self)@
                        + messages_only(prefix).push(x));
                }
            }
        }
        proof {
            assert(delta.deep_view().subrange(0, n as int) =~= delta.deep_view());
        }
    }

    /// Empties the log; the capacity is kept.
    pub fn clear(&mut self)
        ensures
            final(self)@ == Seq::<ItemView>::empty(),
            final(self).cap() == old(self).cap(),
            final(self).wf(),
    {
        self.items.clear();
        proof {
            assert(self.items.deep_view() =~= Seq::<ItemView>::empty());
        }
    }
}

/// Clamping commutes with appending one item: evicting as you go reaches the
/// same log as clamping the whole history at the end.
pub proof fn lemma_clamp_push(s: Seq<ItemView>, x: ItemView, cap: nat)
    ensures
        clamp_to_capacity(clamp_to_capacity(s, cap).push(x), cap) == clamp_to_capacity(
            s.push(x),
            cap,
        ),
{
    if s.len() < cap {
        assert(clamp_to_capacity(s, cap) == s);
    } else if cap == 0 {
        assert(clamp_to_capacity(clamp_to_capacity(s, cap).push(x), cap) =~= clamp_to_capacity(
            s.push(x),
            cap,
        ));
    } else {
        assert(clamp_to_capacity(clamp_to_capacity(s, cap).push(x), cap) =~= clamp_to_capacity(
            s.push(x),
            cap,
        ));
    }
}

/// Capacity invariant: after any appends, a log with capacity `cap` holds
/// exactly `min(total, cap)` items, and they are the last ones appended, in
/// their original order.
pub proof fn lemma_capacity_invariant(s: Seq<ItemView>, cap: nat)
    ensures
        clamp_to_capacity(s, cap).len() == if s.len() <= cap {
            s.len()
        } else {
            cap
        },
        forall|i: int|
            0 <= i < clamp_to_capacity(s, cap).len() ==> clamp_to_capacity(s, cap)[i] == s[s.len()
                - clamp_to_capacity(s, cap).len() + i],
{
}

/// Merge filter invariant: what a merge appends is exactly the `Message`
/// items of the delta — the order-preserving filtered subsequence — so every
/// appended item is a `Message`, and `ToolCall`, `ToolResult` and
/// `ReasoningNote` items never reach the canonical log.
pub proof fn lemma_merge_filter_invariant(s: Seq<ItemView>)
    ensures
        messages_only(s) == s.filter(is_message_pred()),
        forall|i: int|
            0 <= i < messages_only(s).len() ==> (#[trigger] messages_only(s)[i]).is_message(),
    decreases s.len(),
{
    reveal(Seq::filter);
    if s.len() == 0 {
        assert(messages_only(s) =~= s.filter(is_message_pred()));
    } else {
        let pred = is_message_pred();
        lemma_merge_filter_invariant(s.drop_last());
        assert(s.filter(pred) == if pred(s.last()) {
            s.drop_last().filter(pred).push(s.last())
        } else {
            s.drop_last().filter(pred)
        });
        assert(pred(s.last()) == s.last().is_message());
        assert(messages_only(s) =~= s.filter(pred));
    }
}

/// The filtered subsequence of a concatenation is the concatenation of the
/// filtered subsequences.
pub proof fn lemma_messages_only_append(a: Seq<ItemView>, b: Seq<ItemView>)
    ensures
        messages_only(a + b) == messages_only(a) + messages_only(b),
    decreases b.len(),
{
    if b.len() == 0 {
        assert(a + b =~= a);
        assert(messages_only(a) + messages_only(b) =~= messages_only(a));
    } else {
        lemma_messages_only_append(a, b.drop_last());
        assert((a + b).drop_last() =~= a + b.drop_last());
        assert((a + b).last() == b.last());
        if b.last().is_message() {
            assert(messages_only(a) + messages_only(b) =~= (messages_only(a) + messages_only(
                b.drop_last(),
            )).push(b.last()));
        }
    }
}

/// The predicate that a merge filters the delta with.
pub open spec fn is_message_pred() -> spec_fn(ItemView) -> bool {
    |it: ItemView| it.is_message()
}

} // verus!
