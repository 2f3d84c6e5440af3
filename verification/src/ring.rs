//! The serial transmit ring buffer.
//!
//! A fixed-capacity circular byte queue with a producer index `head` and a
//! consumer index `tail`. `head == tail` means empty; one slot is always
//! left unused, so the queue is full when advancing `head` would land on
//! `tail`. The foreground writer enqueues at `head`; the drain interrupt
//! consumes from `tail`. The queued bytes, in transmission order, are the
//! abstraction `contents` that all contracts speak of.

use vstd::prelude::*;

verus! {

/// Capacity of the transmit buffer in bytes; at most this minus one bytes
/// can be queued at once.
pub const TX_BUFFER_SIZE: usize = 128;

pub struct TxRing {
    pub buf: Vec<u8>,
    pub head: usize,
    pub tail: usize,
}

/// Reduce an index in `[0, 2 * TX_BUFFER_SIZE)` into the buffer range.
pub open spec fn wrap_index(i: int) -> int {
    if i < TX_BUFFER_SIZE {
        i
    } else {
        i - TX_BUFFER_SIZE
    }
}

impl TxRing {
    pub open spec fn wf(self) -> bool {
        &&& self.buf@.len() == TX_BUFFER_SIZE
        &&& self.head < TX_BUFFER_SIZE
        &&& self.tail < TX_BUFFER_SIZE
    }

    /// Number of queued bytes.
    pub open spec fn count(self) -> int {
        if self.head >= self.tail {
            self.head - self.tail
        } else {
            self.head - self.tail + TX_BUFFER_SIZE
        }
    }

    /// Number of bytes that can still be enqueued.
    pub open spec fn free_space(self) -> int {
        TX_BUFFER_SIZE - 1 - self.count()
    }

    /// The queued bytes from oldest (next to transmit) to newest.
    pub open spec fn contents(self) -> Seq<u8> {
        Seq::new(self.count() as nat, |i: int| self.buf@[wrap_index(self.tail + i)])
    }

    /// An empty ring.
    pub fn new() -> (r: TxRing)
        ensures
            r.wf(),
            r.count() == 0,
            r.contents() =~= Seq::<u8>::empty(),
    {
        let mut buf: Vec<u8> = Vec::new();
        while buf.len() < TX_BUFFER_SIZE
            invariant
                buf@.len() <= TX_BUFFER_SIZE,
            decreases TX_BUFFER_SIZE - buf@.len(),
        {
            buf.push(0);
        }
        TxRing { buf, head: 0, tail: 0 }
    }

    /// Append one byte at the producer end. Refused, with the ring left
    /// untouched, exactly when the ring is full (one slot is sacrificed to
    /// distinguish full from empty).
    pub fn enqueue(&mut self, b: u8) -> (accepted: bool)
        requires
            old(self).wf(),
        ensures
            final(self).wf(),
            accepted == (old(self).free_space() > 0),
            accepted ==> final(self).contents() == old(self).contents().push(b),
            accepted ==> final(self).count() == old(self).count() + 1,
            !accepted ==> *final(self) == *old(self),
            final(self).tail == old(self).tail,
    {
        let next_head = if self.head + 1 < TX_BUFFER_SIZE {
            self.head + 1
        } else {
            0
        };
        if next_head == self.tail {
            return false;
        }
        self.buf.set(self.head, b);
        self.head = next_head;
        proof {
            let o = *old(self);
            assert(self.contents() =~= o.contents().push(b)) by {
                assert forall|i: int| 0 <= i < self.count() implies self.contents()[i]
                    == o.contents().push(b)[i] by {
                    assert(wrap_index(o.tail + i) < TX_BUFFER_SIZE);
                    if i < o.count() {
                        assert(wrap_index(o.tail + i) != o.head);
                    } else {
                        assert(wrap_index(o.tail + i) == o.head);
                    }
                }
            }
        }
        true
    }

    /// State after one consumer step: the oldest byte is removed if there
    /// is one, otherwise the ring is unchanged.
    pub open spec fn drained(self) -> TxRing {
        if self.count() > 0 {
            TxRing {
                buf: self.buf,
                head: self.head,
                tail: wrap_index(self.tail + 1) as usize,
            }
        } else {
            self
        }
    }

    /// Remove and return the oldest byte, if any.
    pub fn dequeue(&mut self) -> (out: Option<u8>)
        requires
            old(self).wf(),
        ensures
            final(self).wf(),
            *final(self) == old(self).drained(),
            old(self).count() > 0 ==> out == Some(old(self).contents()[0]),
            old(self).count() > 0 ==> final(self).contents() == old(self).contents().drop_first(),
            old(self).count() == 0 ==> out == None::<u8> && *final(self) == *old(self),
    {
        if self.head == self.tail {
            return None;
        }
        let b = self.buf[self.tail];
        self.tail = if self.tail + 1 < TX_BUFFER_SIZE {
            self.tail + 1
        } else {
            0
        };
        proof {
            lemma_drained_drops_first(*old(self));
        }
        Some(b)
    }
}

/// One consumer step removes exactly the oldest byte and keeps the rest in
/// order.
pub proof fn lemma_drained_drops_first(r: TxRing)
    requires
        r.wf(),
        r.count() > 0,
    ensures
        r.drained().wf(),
        r.drained().count() == r.count() - 1,
        r.drained().contents() =~= r.contents().drop_first(),
{
    let d = r.drained();
    assert forall|i: int| 0 <= i < d.count() implies d.contents()[i] == r.contents().drop_first()[i] by {
        assert(wrap_index(d.tail + i) == wrap_index(r.tail + (i + 1)));
    }
}

/// The bytes produced by `n` consumer steps, in order.
pub open spec fn drain_sequence(r: TxRing, n: nat) -> Seq<u8>
    decreases n,
{
    if n == 0 || r.count() <= 0 {
        Seq::empty()
    } else {
        seq![r.contents()[0]] + drain_sequence(r.drained(), (n - 1) as nat)
    }
}

/// Law: ring round trip. Fully draining the ring, one consumer step at a
/// time, yields exactly the queued bytes in the order they were enqueued.
pub proof fn lemma_ring_round_trip(r: TxRing)
    requires
        r.wf(),
    ensures
        drain_sequence(r, r.count() as nat) =~= r.contents(),
    decreases r.count(),
{
    if r.count() > 0 {
        lemma_drained_drops_first(r);
        lemma_ring_round_trip(r.drained());
    }
}

} // verus!
