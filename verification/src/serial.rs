//! The interrupt-driven serial transmit channel.
//!
//! The foreground writer appends bytes to the transmit ring buffer and
//! enables the "transmit register empty" interrupt; that interrupt drains
//! the ring one byte per firing and disables itself once the ring is
//! empty, so it cannot storm. A `Serial` value holds exactly the state the
//! two contexts share: the ring and the drain-interrupt enable bit. On the
//! target both transitions run inside a critical section; the actual UART
//! register accesses (writing the drained byte, polling the receive flag,
//! masking the interrupt) are the hardware layer around this state
//! machine.
//!
//! Reception is unbuffered: the hardware status flag is polled and a
//! received byte handed straight to the caller, so only the echo decision
//! is modelled here.

use vstd::prelude::*;

verus! {

use crate::ring::TxRing;

/// CPU clock frequency the baud divisor is computed against.
pub const CPU_FREQUENCY: u32 = 16_000_000;

/// The shared serial transmit state.
pub struct Serial {
    pub tx: TxRing,
    /// Whether the "transmit register empty" (drain) interrupt is enabled.
    pub drain_enabled: bool,
}

impl Serial {
    pub open spec fn wf(self) -> bool {
        self.tx.wf()
    }

    /// The channel after initialisation: empty ring, drain interrupt off.
    pub fn new() -> (s: Serial)
        ensures
            s.wf(),
            s.tx.count() == 0,
            !s.drain_enabled,
    {
        Serial { tx: TxRing::new(), drain_enabled: false }
    }

    /// Queue `text` for transmission. Bytes are appended in order until
    /// the ring is full; whatever does not fit is silently dropped — there
    /// is no back-pressure signal, by design. The drain interrupt is
    /// enabled unconditionally afterwards (idempotent if already on), so
    /// transmission starts or continues. The producer advances only the
    /// ring's `head`; the consumer index `tail` is never written here —
    /// the drain handler is its sole writer.
    pub fn write_str(&mut self, text: &[u8])
        requires
            old(self).wf(),
        ensures
            final(self).wf(),
            final(self).tx.contents() == old(self).tx.contents() + text@.take(
                if text@.len() <= old(self).tx.free_space() {
                    text@.len() as int
                } else {
                    old(self).tx.free_space()
                },
            ),
            final(self).drain_enabled,
            final(self).tx.tail == old(self).tx.tail,
    {
        let ghost base = self.tx;
        let mut i: usize = 0;
        let mut accepted = true;
        while i < text.len() && accepted
            invariant
                i <= text@.len(),
                self.tx.wf(),
                self.drain_enabled == old(self).drain_enabled,
                self.tx.contents() == base.contents() + text@.take(i as int),
                self.tx.count() == base.count() + i,
                self.tx.tail == base.tail,
                accepted || (self.tx.free_space() == 0 && i < text@.len()),
            decreases text@.len() - i, (if accepted {
                1int
            } else {
                0int
            }),
        {
            accepted = self.tx.enqueue(text[i]);
            if accepted {
                proof {
                    assert(self.tx.contents() =~= base.contents() + text@.take(i + 1));
                }
                i += 1;
            }
        }
        self.drain_enabled = true;
        proof {
            if i == text@.len() {
                assert(text@.len() <= base.free_space());
            } else {
                assert(i == base.free_space());
            }
        }
    }

    /// The drain interrupt handler's work, fired when the hardware
    /// transmit register is empty: take the oldest queued byte — the
    /// caller writes it to the hardware output register — or, if the ring
    /// is empty, disable the drain interrupt so it stops firing. This is
    /// the sole consumer of the ring and the sole place the interrupt is
    /// disabled.
    pub fn drain(&mut self) -> (out: Option<u8>)
        requires
            old(self).wf(),
        ensures
            final(self).wf(),
            final(self).tx == old(self).tx.drained(),
            old(self).tx.count() > 0 ==> out == Some(old(self).tx.contents()[0])
                && final(self).tx.contents() == old(self).tx.contents().drop_first()
                && final(self).drain_enabled == old(self).drain_enabled,
            old(self).tx.count() == 0 ==> out == None::<u8> && !final(self).drain_enabled
                && final(self).tx == old(self).tx,
    {
        let out = self.tx.dequeue();
        if out.is_none() {
            self.drain_enabled = false;
        }
        out
    }

    /// The echo utility: hand it the result of one non-blocking receive
    /// poll. Any received byte is queued back for transmission exactly as
    /// `write_str` would queue it (dropped only if the ring is full); when
    /// nothing was received the channel is left untouched.
    pub fn serial_echo(&mut self, received: Option<u8>)
        requires
            old(self).wf(),
        ensures
            final(self).wf(),
            match received {
                Some(b) => final(self).tx.contents() == old(self).tx.contents()
                    + (if old(self).tx.free_space() > 0 {
                    seq![b]
                } else {
                    Seq::empty()
                }) && final(self).drain_enabled && final(self).tx.tail == old(self).tx.tail,
                None => *final(self) == *old(self),
            },
    {
        match received {
            Some(b) => {
                let ghost base = self.tx;
                self.tx.enqueue(b);
                self.drain_enabled = true;
                proof {
                    if base.free_space() > 0 {
                        assert(self.tx.contents() =~= base.contents() + seq![b]);
                    } else {
                        assert(self.tx.contents() =~= base.contents() + Seq::<u8>::empty());
                    }
                }
            },
            None => {},
        }
    }
}

/// The UART clock divisor for the requested baud rate in double-speed
/// mode: `CPU_FREQUENCY / (8 * baud) - 1`. The bounds on `baud` are
/// exactly those for which the divisor is well-defined and fits the
/// hardware's 16-bit divisor register.
pub fn baud_divisor(baud: u32) -> (d: u16)
    requires
        31 <= baud <= 2_000_000,
    ensures
        d == CPU_FREQUENCY as int / (8 * baud as int) - 1,
{
    let q = CPU_FREQUENCY / (8 * baud);
    proof {
        assert(16_000_000int == 64516 * 248 + 32);
        vstd::arithmetic::div_mod::lemma_fundamental_div_mod_converse(16_000_000, 248, 64516, 32);
        vstd::arithmetic::div_mod::lemma_div_is_ordered_by_denominator(
            16_000_000,
            248,
            8 * baud,
        );
        assert(16_000_000int == 1 * 16_000_000 + 0);
        vstd::arithmetic::div_mod::lemma_fundamental_div_mod_converse(
            16_000_000,
            16_000_000,
            1,
            0,
        );
        vstd::arithmetic::div_mod::lemma_div_is_ordered_by_denominator(
            16_000_000,
            8 * baud,
            16_000_000,
        );
    }
    (q - 1) as u16
}

} // verus!
