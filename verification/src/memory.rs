//! Bounded conversation memory: a first-in, first-out history of dialogue
//! turns that keeps only the newest entries.

use crate::message::{message_views, Message, MessageView};
use std::collections::VecDeque;
use vstd::prelude::*;

verus! {

/// The last `k` entries of `s`, in their order; all of `s` where it is no
/// longer than `k`.
pub open spec fn retain_last<T>(s: Seq<T>, k: nat) -> Seq<T> {
    if s.len() <= k {
        s
    } else {
        s.subrange(s.len() - k, s.len() as int)
    }
}

/// What a history of capacity `k` holds after the entries of `appended` were
/// added to `start`, one after the other.
pub open spec fn after_appends<T>(start: Seq<T>, appended: Seq<T>, k: nat) -> Seq<T>
    decreases appended.len(),
{
    if appended.len() == 0 {
        start
    } else {
        retain_last(after_appends(start, appended.drop_last(), k).push(appended.last()), k)
    }
}

/// Adding to an already truncated history gives what truncating once, after
/// the addition, gives.
pub proof fn lemma_retain_last_push<T>(s: Seq<T>, x: T, k: nat)
    ensures
        retain_last(retain_last(s, k).push(x), k) == retain_last(s.push(x), k),
        retain_last(s, k).len() == if s.len() <= k { s.len() } else { k },
{
    assert(retain_last(retain_last(s, k).push(x), k) =~= retain_last(s.push(x), k));
}

/// The capacity law: after any run of additions to a history that was within
/// its capacity, the history holds the newest `k` entries of everything it
/// ever held, in the order in which they came, and its length is the smaller of `k`
/// and that total.
pub proof fn lemma_appends_keep_newest<T>(start: Seq<T>, appended: Seq<T>, k: nat)
    requires
        start.len() <= k,
    ensures
        after_appends(start, appended, k) == retain_last(start + appended, k),
        after_appends(start, appended, k).len() == if start.len() + appended.len() <= k {
            start.len() + appended.len()
        } else {
            k
        },
    decreases appended.len(),
{
    if appended.len() == 0 {
        assert(start + appended =~= start);
    } else {
        let before = appended.drop_last();
        lemma_appends_keep_newest(start, before, k);
        lemma_retain_last_push(start + before, appended.last(), k);
        assert((start + before).push(appended.last()) =~= start + appended);
    }
}

/// A snapshot is repeatable: two copies taken of the same history hold the
/// same messages in the same order.
pub proof fn lemma_snapshots_agree(
    memory: FiniteQueueMemory,
    first: Vec<Message>,
    second: Vec<Message>,
)
    requires
        message_views(first@) == memory@,
        message_views(second@) == memory@,
    ensures
        message_views(first@) == message_views(second@),
{
}

/// A history of at most `capacity()` messages; when one more is added, the
/// oldest leave.
pub struct FiniteQueueMemory {
    memories: VecDeque<Message>,
    max_size: usize,
}

impl View for FiniteQueueMemory {
    type V = Seq<MessageView>;

    closed spec fn view(&self) -> Seq<MessageView> {
        message_views(self.memories@)
    }
}

impl FiniteQueueMemory {
    /// The invariant of the type: a history never holds more than its
    /// capacity.
    #[verifier::type_invariant]
    spec fn within_capacity(self) -> bool {
        self.memories@.len() <= self.max_size
    }

    /// The largest number of messages that the history keeps.
    pub closed spec fn capacity(&self) -> nat {
        self.max_size as nat
    }

    /// The history is within its capacity. This holds of every history at
    /// all times; each function that is handed one says so.
    pub open spec fn wf(&self) -> bool {
        self@.len() <= self.capacity()
    }

    /// An empty history that keeps at most `max_size` messages.
    pub fn new(max_size: usize) -> (memory: Self)
        ensures
            memory@ == Seq::<MessageView>::empty(),
            memory.capacity() == max_size,
            memory.wf(),
    {
        let memory = FiniteQueueMemory { memories: VecDeque::new(), max_size };
        assert(memory@ =~= Seq::<MessageView>::empty());
        memory
    }

    /// The capacity that the history was made with.
    pub fn max_size(&self) -> (limit: usize)
        ensures
            limit == self.capacity(),
            self.wf(),
    {
        proof {
            use_type_invariant(self);
            self.lemma_view_len();
        }
        self.max_size
    }

    /// The number of messages held.
    pub fn len(&self) -> (count: usize)
        ensures
            count == self@.len(),
            count <= self.capacity(),
            self.wf(),
    {
        proof {
            use_type_invariant(self);
            self.lemma_view_len();
        }
        self.memories.len()
    }

    /// The view has one entry for each message held.
    proof fn lemma_view_len(&self)
        ensures
            self@.len() == self.memories@.len(),
            self.capacity() == self.max_size,
    {
    }

    /// A copy of the history, oldest message first. The copy is the caller's
    /// own: the history does not change with it.
    pub fn get(&self) -> (snapshot: Vec<Message>)
        ensures
            message_views(snapshot@) == self@,
            snapshot@.len() <= self.capacity(),
            self.wf(),
    {
        proof {
            use_type_invariant(self);
            self.lemma_view_len();
        }
        let mut snapshot: Vec<Message> = Vec::new();
        let count: usize = self.memories.len();
        let mut i: usize = 0;
        while i < count
            invariant
                count == self.memories@.len(),
                i <= count,
                snapshot@ == self.memories@.subrange(0, i as int),
            decreases count - i,
        {
            let message = self.memories[i].clone();
            snapshot.push(message);
            assert(snapshot@ =~= self.memories@.subrange(0, i + 1));
            i = i + 1;
        }
        assert(snapshot@ =~= self.memories@);
        snapshot
    }

    /// Appends `message` as the newest entry, then drops entries from the
    /// oldest end while the history is over its capacity.
    pub fn add(&mut self, message: Message)
        ensures
            final(self)@ == retain_last(old(self)@.push(message@), old(self).capacity()),
            final(self).capacity() == old(self).capacity(),
            old(self).wf(),
            final(self).wf(),
    {
        proof {
            use_type_invariant(&*self);
            self.lemma_view_len();
        }
        let mut queue: VecDeque<Message> = VecDeque::new();
        core::mem::swap(&mut self.memories, &mut queue);
        let ghost grown = queue@.push(message);
        queue.push_back(message);
        assert(message_views(grown) =~= message_views(old(self).memories@).push(message@));
        let ghost mut dropped: int = 0;
        while queue.len() > self.max_size
            invariant
                self.max_size == old(self).max_size,
                0 <= dropped <= grown.len(),
                queue@ == grown.subrange(dropped, grown.len() as int),
                dropped == 0 || grown.len() - dropped >= self.max_size,
            decreases queue@.len(),
        {
            let _ = queue.pop_front();
            proof {
                dropped = dropped + 1;
            }
            assert(queue@ =~= grown.subrange(dropped, grown.len() as int));
        }
        assert(message_views(queue@) =~= retain_last(message_views(grown), self.max_size as nat));
        core::mem::swap(&mut self.memories, &mut queue);
    }

    /// Empties the history; the capacity stays.
    pub fn clear(&mut self)
        ensures
            final(self)@ == Seq::<MessageView>::empty(),
            final(self).capacity() == old(self).capacity(),
            final(self).wf(),
    {
        let mut held: VecDeque<Message> = VecDeque::new();
        core::mem::swap(&mut self.memories, &mut held);
        assert(message_views(self.memories@) =~= Seq::<MessageView>::empty());
    }
}

impl Clone for FiniteQueueMemory {
    /// An independent history with the same messages and the same capacity.
    fn clone(&self) -> (copy: Self)
        ensures
            copy@ == self@,
            copy.capacity() == self.capacity(),
            self.wf(),
            copy.wf(),
    {
        proof {
            use_type_invariant(self);
        }
        let mut memories: VecDeque<Message> = VecDeque::new();
        let count: usize = self.memories.len();
        let mut i: usize = 0;
        while i < count
            invariant
                count == self.memories@.len(),
                i <= count,
                memories@ == self.memories@.subrange(0, i as int),
            decreases count - i,
        {
            let message = self.memories[i].clone();
            memories.push_back(message);
            assert(memories@ =~= self.memories@.subrange(0, i + 1));
            i = i + 1;
        }
        assert(memories@ =~= self.memories@);
        FiniteQueueMemory { memories, max_size: self.max_size }
    }
}

} // verus!
