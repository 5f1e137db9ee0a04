//! The temporal window: a bounded first-in, first-out history of recent masks.

use std::collections::VecDeque;
use vstd::prelude::*;

verus! {

/// Number of masks that the temporal window holds when it is full.
pub const WINDOW: usize = 6;

/// The last `WINDOW` entries of `s`, or all of `s` when it has fewer.
pub open spec fn recent<M>(s: Seq<M>) -> Seq<M> {
    if s.len() <= WINDOW {
        s
    } else {
        s.subrange(s.len() - WINDOW, s.len() as int)
    }
}

/// A first-in, first-out history of at most `WINDOW` masks, oldest first.
/// The masks lie in a ring, so the oldest one leaves in constant time.
#[derive(Debug)]
pub struct TemporalBuffer<M> {
    items: VecDeque<M>,
}

impl<M> View for TemporalBuffer<M> {
    type V = Seq<M>;

    closed spec fn view(&self) -> Seq<M> {
        self.items@
    }
}

impl<M> TemporalBuffer<M> {
    /// The buffer never holds more than `WINDOW` masks.
    pub open spec fn wf(&self) -> bool {
        self@.len() <= WINDOW
    }

    /// An empty buffer.
    pub fn new() -> (buffer: Self)
        ensures
            buffer.wf(),
            buffer@ == Seq::<M>::empty(),
    {
        TemporalBuffer { items: VecDeque::new() }
    }

    /// Appends `mask` as the newest entry. When that would make the buffer
    /// longer than `WINDOW`, the oldest entry leaves and is handed back.
    pub fn push(&mut self, mask: M) -> (evicted: Option<M>)
        requires
            old(self).wf(),
        ensures
            final(self).wf(),
            final(self)@ == recent(old(self)@.push(mask)),
            evicted == if old(self)@.len() == WINDOW {
                Some(old(self)@[0])
            } else {
                None
            },
    {
        self.items.push_back(mask);
        if self.items.len() > WINDOW {
            self.items.pop_front()
        } else {
            None
        }
    }

    /// Number of masks held.
    pub fn len(&self) -> (len: usize)
        ensures
            len == self@.len(),
    {
        self.items.len()
    }

    /// Whether the buffer holds `WINDOW` masks.
    pub fn is_full(&self) -> (full: bool)
        ensures
            full == (self@.len() == WINDOW),
    {
        self.items.len() == WINDOW
    }

    /// The mask at position `i`, where 0 is the oldest.
    pub fn get(&self, i: usize) -> (mask: &M)
        requires
            i < self@.len(),
        ensures
            *mask == self@[i as int],
    {
        &self.items[i]
    }

    /// The mask pushed last, or `None` when the buffer is empty.
    pub fn newest(&self) -> (mask: Option<&M>)
        ensures
            self@.len() == 0 ==> mask is None,
            self@.len() > 0 ==> mask == Some(&self@.last()),
    {
        let len = self.items.len();
        if len == 0 {
            None
        } else {
            Some(&self.items[len - 1])
        }
    }
}

/// What a buffer that held `start` holds after the masks of `pushed` have been
/// pushed into it one by one, first to last.
pub open spec fn after_pushes<M>(start: Seq<M>, pushed: Seq<M>) -> Seq<M>
    decreases pushed.len(),
{
    if pushed.len() == 0 {
        start
    } else {
        recent(after_pushes(start, pushed.drop_last()).push(pushed.last()))
    }
}

/// Pushing onto the last `WINDOW` entries of a history and keeping the last
/// `WINDOW` of that is the same as keeping the last `WINDOW` of the longer
/// history.
pub proof fn lemma_recent_push<M>(s: Seq<M>, mask: M)
    ensures
        recent(recent(s).push(mask)) == recent(s.push(mask)),
        recent(s).len() <= WINDOW,
{
    assert(recent(recent(s).push(mask)) =~= recent(s.push(mask)));
}

/// After any sequence of pushes the buffer holds at most `WINDOW` masks, and
/// they are the most recent ones of all that it ever held, in the order in
/// which they came.
pub proof fn lemma_pushes_keep_most_recent<M>(start: Seq<M>, pushed: Seq<M>)
    requires
        start.len() <= WINDOW,
    ensures
        after_pushes(start, pushed).len() <= WINDOW,
        after_pushes(start, pushed) == recent(start + pushed),
    decreases pushed.len(),
{
    if pushed.len() == 0 {
        assert(start + pushed =~= start);
    } else {
        let before = pushed.drop_last();
        lemma_pushes_keep_most_recent(start, before);
        lemma_recent_push(start + before, pushed.last());
        assert((start + before).push(pushed.last()) =~= start + pushed);
    }
}

/// Started empty, the buffer holds exactly the last `WINDOW` masks pushed, or
/// all of them while fewer were pushed.
pub proof fn lemma_pushes_from_empty<M>(pushed: Seq<M>)
    ensures
        after_pushes(Seq::empty(), pushed).len() <= WINDOW,
        after_pushes(Seq::empty(), pushed) == recent(pushed),
        after_pushes(Seq::empty(), pushed).len() == WINDOW <==> pushed.len() >= WINDOW,
{
    lemma_pushes_keep_most_recent(Seq::empty(), pushed);
    assert(Seq::<M>::empty() + pushed =~= pushed);
}

} // verus!
