//! Bounded work queue and word distribution. The queue is a fixed-capacity
//! FIFO with a closing producer side; every word the distributor sends is
//! delivered to exactly one receive call, in order, and end-of-stream is
//! reported only once the queue is closed and every sent word delivered.
use vstd::prelude::*;

verus! {

/// A bounded FIFO of wordlist entries. The ghost history records every word
/// ever sent and every word already delivered; the pending words are the sent
/// ones not yet delivered.
pub struct WordQueue {
    words: Vec<String>,
    capacity: usize,
    closed: bool,
    sent: Ghost<Seq<Seq<char>>>,
    delivered: Ghost<Seq<Seq<char>>>,
}

impl WordQueue {
    /// The words sent so far, oldest first.
    pub closed spec fn spec_sent(self) -> Seq<Seq<char>> {
        self.sent@
    }

    /// The words already handed to a receiver, in delivery order.
    pub closed spec fn spec_delivered(self) -> Seq<Seq<char>> {
        self.delivered@
    }

    /// The words sent but not yet delivered, front of the queue first.
    pub closed spec fn pending(self) -> Seq<Seq<char>> {
        self.words.deep_view()
    }

    /// Whether the producer side has closed the queue.
    pub closed spec fn spec_closed(self) -> bool {
        self.closed
    }

    /// The fixed capacity the queue was created with.
    pub closed spec fn spec_capacity(self) -> usize {
        self.capacity
    }

    /// The delivered and pending words always partition the sent words, in
    /// order, and the pending ones fit the capacity.
    pub open spec fn wf(self) -> bool {
        &&& self.spec_sent() == self.spec_delivered() + self.pending()
        &&& self.pending().len() <= self.spec_capacity()
    }

    /// An empty, open queue of the given capacity.
    pub fn new(capacity: usize) -> (q: Self)
        requires
            capacity >= 1,
        ensures
            q.wf(),
            q.spec_sent() == Seq::<Seq<char>>::empty(),
            q.spec_delivered() == Seq::<Seq<char>>::empty(),
            q.pending() == Seq::<Seq<char>>::empty(),
            !q.spec_closed(),
            q.spec_capacity() == capacity,
    {
        let q = WordQueue {
            words: Vec::new(),
            capacity,
            closed: false,
            sent: Ghost(Seq::empty()),
            delivered: Ghost(Seq::empty()),
        };
        proof {
            assert(q.pending() =~= Seq::<Seq<char>>::empty());
            assert(q.spec_sent() =~= q.spec_delivered() + q.pending());
        }
        q
    }

    /// How many words are pending.
    pub fn len(&self) -> (r: usize)
        ensures
            r == self.pending().len(),
    {
        self.words.len()
    }

    /// Whether the queue is at capacity; a producer must wait before sending.
    pub fn is_full(&self) -> (r: bool)
        ensures
            r == (self.pending().len() == self.spec_capacity()),
    {
        self.words.len() == self.capacity
    }

    /// Sends one word. The producer may only send while the queue is open and
    /// below capacity (it blocks on a full queue for backpressure).
    pub fn send(&mut self, word: String)
        requires
            old(self).wf(),
            !old(self).spec_closed(),
            old(self).pending().len() < old(self).spec_capacity(),
        ensures
            final(self).wf(),
            final(self).spec_sent() == old(self).spec_sent().push(word@),
            final(self).spec_delivered() == old(self).spec_delivered(),
            final(self).pending() == old(self).pending().push(word@),
            final(self).spec_closed() == old(self).spec_closed(),
            final(self).spec_capacity() == old(self).spec_capacity(),
    {
        let ghost w = word@;
        self.words.push(word);
        proof {
            self.sent@ = self.sent@.push(w);
            assert(self.pending() =~= old(self).pending().push(w));
            assert(self.spec_sent() =~= self.spec_delivered() + self.pending());
        }
    }

    /// Closes the queue: the producer is done, no further sends.
    pub fn close(&mut self)
        requires
            old(self).wf(),
        ensures
            final(self).wf(),
            final(self).spec_closed(),
            final(self).spec_sent() == old(self).spec_sent(),
            final(self).spec_delivered() == old(self).spec_delivered(),
            final(self).pending() == old(self).pending(),
            final(self).spec_capacity() == old(self).spec_capacity(),
    {
        self.closed = true;
    }

    /// Receives the next word. A receiver only calls this once the queue is
    /// non-empty or closed (it suspends on an open, empty queue); None means
    /// end-of-stream, reported only when the queue is closed and every sent
    /// word has been delivered.
    pub fn recv(&mut self) -> (r: Option<String>)
        requires
            old(self).wf(),
            old(self).spec_closed() || old(self).pending().len() > 0,
        ensures
            final(self).wf(),
            final(self).spec_sent() == old(self).spec_sent(),
            final(self).spec_closed() == old(self).spec_closed(),
            final(self).spec_capacity() == old(self).spec_capacity(),
            old(self).pending().len() > 0 ==> (r matches Some(w) && w@ == old(self).pending()[0]
                && final(self).spec_delivered() == old(self).spec_delivered().push(w@)
                && final(self).pending() == old(self).pending().drop_first()),
            old(self).pending().len() == 0 ==> r is None && *final(self) == *old(self),
            r is None <==> (old(self).spec_closed() && old(self).pending().len() == 0),
            r is None ==> final(self).spec_delivered() == final(self).spec_sent(),
    {
        if self.words.len() == 0 {
            proof {
                assert(self.spec_delivered() =~= self.spec_sent());
            }
            None
        } else {
            let word = self.words.remove(0);
            proof {
                self.delivered@ = self.delivered@.push(word@);
                assert(self.pending() =~= old(self).pending().drop_first());
                assert(word@ == old(self).pending()[0]);
                assert(self.spec_sent() =~= self.spec_delivered() + self.pending());
            }
            Some(word)
        }
    }
}

/// Delivery law: once the queue is drained, every word ever sent has been
/// handed out, each to exactly one receive call and in sending order.
pub proof fn lemma_drained_queue_delivered_all(q: WordQueue)
    requires
        q.wf(),
        q.pending().len() == 0,
    ensures
        q.spec_delivered() == q.spec_sent(),
{
    assert(q.spec_delivered() =~= q.spec_sent());
}

/// The wordlist entries that remain once the first `offset` are skipped: all
/// of them from `offset` on, or none when the list is shorter than the offset.
pub open spec fn spec_words_after_offset(words: Seq<Seq<char>>, offset: nat) -> Seq<Seq<char>> {
    if offset >= words.len() {
        Seq::empty()
    } else {
        words.skip(offset as int)
    }
}

/// Skip law: with K words and offset M, exactly K - M words remain to be
/// processed when M < K, and none at all when M >= K.
pub proof fn lemma_offset_count(words: Seq<Seq<char>>, offset: nat)
    ensures
        offset < words.len() ==> spec_words_after_offset(words, offset).len() == words.len()
            - offset,
        offset >= words.len() ==> spec_words_after_offset(words, offset).len() == 0,
{
}

/// Drops the first `offset` words of the list; if the list ends before the
/// offset is reached, nothing is left.
pub fn select_words(words: Vec<String>, offset: usize) -> (r: Vec<String>)
    ensures
        r.deep_view() == spec_words_after_offset(words.deep_view(), offset as nat),
{
    let ghost orig = words.deep_view();
    let mut words = words;
    if offset >= words.len() {
        let r = Vec::<String>::new();
        proof {
            assert(r.deep_view() =~= Seq::<Seq<char>>::empty());
        }
        r
    } else {
        let tail = words.split_off(offset);
        proof {
            assert(tail.deep_view() =~= orig.skip(offset as int));
        }
        tail
    }
}

/// Streams the remaining words into the queue, then closes it: every word
/// after the offset is sent, in order, and nothing else ever will be.
pub fn distribute(words: Vec<String>, offset: usize, q: &mut WordQueue)
    requires
        old(q).wf(),
        !old(q).spec_closed(),
        old(q).pending().len() + spec_words_after_offset(words.deep_view(), offset as nat).len()
            <= old(q).spec_capacity(),
    ensures
        final(q).wf(),
        final(q).spec_closed(),
        final(q).spec_sent() == old(q).spec_sent() + spec_words_after_offset(
            words.deep_view(),
            offset as nat,
        ),
        final(q).spec_delivered() == old(q).spec_delivered(),
        final(q).spec_capacity() == old(q).spec_capacity(),
{
    let ghost all = words.deep_view();
    let ghost word_count = words@.len();
    let remaining = select_words(words, offset);
    proof {
        assert(all.len() == word_count);
        assert(remaining@.len() == remaining.deep_view().len());
        assert(remaining.deep_view().len() <= all.len());
    }
    let mut i: usize = 0;
    while i < remaining.len()
        invariant
            old(q).wf(),
            q.wf(),
            !q.spec_closed(),
            0 <= i <= remaining@.len(),
            remaining.deep_view() == spec_words_after_offset(all, offset as nat),
            q.spec_sent() == old(q).spec_sent() + remaining.deep_view().take(i as int),
            q.spec_delivered() == old(q).spec_delivered(),
            q.spec_capacity() == old(q).spec_capacity(),
            q.pending().len() <= old(q).pending().len() + i,
            old(q).pending().len() + remaining@.len() <= q.spec_capacity(),
        decreases remaining@.len() - i,
    {
        let w = remaining[i].clone();
        q.send(w);
        proof {
            assert(q.spec_sent() =~= old(q).spec_sent() + remaining.deep_view().take(
                i as int + 1,
            ));
        }
        i = i + 1;
    }
    proof {
        assert(remaining.deep_view().take(remaining@.len() as int) =~= remaining.deep_view());
    }
    q.close();
}

} // verus!
