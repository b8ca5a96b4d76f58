//! The buffered UART driver core: two state machines, two ring buffers, two
//! waker slots, and the polling byte-stream interface.
//!
//! Task context calls [`BufferedUarte::poll_fill_buf`], [`BufferedUarte::consume`]
//! and [`BufferedUarte::poll_write`]; interrupt context calls
//! [`BufferedUarte::on_interrupt`]. In the real system an exclusion primitive
//! serializes the two contexts by masking the interrupt line; here they are
//! method calls on one owned value, which serializes them by construction.
//! The `device_*` methods are the device side of the register contract: the
//! harness uses them to deliver bytes and completion events.

use vstd::prelude::*;

use crate::hw::{HwUarte, InterruptLine};
use crate::ring::RingBuffer;
use crate::waker::{wake1, WakerRegistration};

verus! {

/// State of the receive machine.
#[derive(Clone, Copy, Debug, PartialEq, Eq, Structural)]
pub enum RxState {
    /// No receive transfer in flight.
    Idle,
    /// A transfer is open; no byte has arrived yet.
    Receiving,
    /// At least one byte arrived; the transfer is still open.
    ReceivingReady,
    /// A stop was requested; awaiting the completion event.
    Stopping,
}

/// State of the transmit machine.
#[derive(Clone, Copy, Debug, PartialEq, Eq, Structural)]
pub enum TxState {
    /// No transmit transfer in flight.
    Idle,
    /// A transfer of the given number of bytes is in flight.
    Transmitting(usize),
}

/// The one unrecoverable condition: a completion event for a receive
/// transfer the state machine does not know about. The DMA destination is no
/// longer trustworthy, so the caller must abort.
#[derive(Clone, Copy, Debug, PartialEq, Eq, Structural)]
pub enum Fault {
    /// Transfer-complete observed while the receive machine was `Idle`.
    UnexpectedEndRx,
}

/// A peripheral that can back a [`BufferedUarte`]. Sealed: only this crate's
/// register models qualify.
pub trait Instance: crate::sealed::Instance {
    /// The interrupt line paired with the instance.
    type Interrupt;
}

impl Instance for HwUarte {
    type Interrupt = InterruptLine;
}

/// Whether one interrupt invocation commits received bytes: a completion
/// event is pending and the receive machine reaches a state that consumes it
/// (`ReceivingReady` or `Stopping`, possibly by first taking the first-byte
/// step out of `Receiving`).
pub open spec fn rx_commits(s: RxState, rxdrdy: bool, endrx: bool) -> bool {
    endrx && (s is ReceivingReady || s is Stopping || (s is Receiving && rxdrdy))
}

/// The receive state the interrupt step settles in, given the entry state,
/// the pending events, and the free run left once any commit is in: after a
/// commit (or from `Idle`) a new transfer is armed exactly when there is
/// space for it.
pub open spec fn rx_state_after(s: RxState, rxdrdy: bool, endrx: bool, free_after: int) -> RxState {
    if s is Idle || rx_commits(s, rxdrdy, endrx) {
        if free_after > 0 {
            RxState::Receiving
        } else {
            RxState::Idle
        }
    } else if s is Receiving && rxdrdy {
        RxState::ReceivingReady
    } else {
        s
    }
}

/// What one non-fatal interrupt invocation does on the receive side, as a
/// relation between the entry state `o` and the settled state `c`.
pub open spec fn rx_phase_done(o: BufferedUarte, c: BufferedUarte) -> bool {
    let s0 = o.rx_state;
    let d0 = o.uarte.events_rxdrdy;
    let e0 = o.uarte.events_endrx;
    let commits = rx_commits(s0, d0, e0);
    let rearmed = c.rx_state is Receiving && (s0 is Idle || commits);
    &&& c.rx@ == (if commits {
        o.rx@ + o.uarte.rxd_data@
    } else {
        o.rx@
    })
    &&& c.rx.capacity() == o.rx.capacity()
    &&& c.rx.head() == o.rx.head()
    &&& c.rx_state == rx_state_after(s0, d0, e0, c.rx.free_run())
    &&& !c.uarte.events_rxdrdy
    &&& c.uarte.events_endrx == (e0 && !commits)
    &&& c.rx_waker == (if commits || (s0 is Receiving && d0) {
        wake1(o.rx_waker)
    } else {
        o.rx_waker
    })
    &&& c.received_log@ == (if commits {
        o.received_log@ + o.uarte.rxd_data@
    } else {
        o.received_log@
    })
    &&& c.uarte.rxd_data@ == (if commits || rearmed {
        Seq::<u8>::empty()
    } else {
        o.uarte.rxd_data@
    })
    &&& (rearmed ==> c.uarte.rxd_maxcnt == c.rx.free_run() && c.uarte.rxdrdy_int_enabled)
    &&& (s0 is Receiving && d0 && !rearmed ==> !c.uarte.rxdrdy_int_enabled)
    &&& (!rearmed && !(s0 is Receiving && d0) ==> c.uarte.rxdrdy_int_enabled
        == o.uarte.rxdrdy_int_enabled)
    &&& c.uarte.stoprx_requested == (o.uarte.stoprx_requested && !commits)
}

/// Whether one interrupt invocation confirms a transmit transfer: a
/// completion event is pending while a transfer is in flight.
pub open spec fn tx_completes(t: TxState, endtx: bool) -> bool {
    endtx && t is Transmitting
}

/// The transmit state the interrupt step settles in: after a completion (or
/// from `Idle`) a new transfer over the whole filled run is armed exactly
/// when there are bytes to send.
pub open spec fn tx_state_after(t: TxState, endtx: bool, filled_after: int) -> TxState {
    if t is Idle || tx_completes(t, endtx) {
        if filled_after > 0 {
            TxState::Transmitting(filled_after as usize)
        } else {
            TxState::Idle
        }
    } else {
        t
    }
}

/// What one non-fatal interrupt invocation does on the transmit side.
pub open spec fn tx_phase_done(o: BufferedUarte, c: BufferedUarte) -> bool {
    let t0 = o.tx_state;
    let x0 = o.uarte.events_endtx;
    let completes = tx_completes(t0, x0);
    let n = t0->0;
    &&& c.tx@ == (if completes {
        o.tx@.skip(n as int)
    } else {
        o.tx@
    })
    &&& c.tx.capacity() == o.tx.capacity()
    &&& c.tx.head() == (if completes {
        if o.tx.head() + n == o.tx.capacity() {
            0
        } else {
            o.tx.head() + n
        }
    } else {
        o.tx.head()
    })
    &&& c.uarte.tx_sent@ == (if completes {
        o.uarte.tx_sent@ + o.tx@.take(n as int)
    } else {
        o.uarte.tx_sent@
    })
    &&& c.tx_state == tx_state_after(t0, x0, c.tx.filled_run())
    &&& c.uarte.events_endtx == (x0 && !completes)
    &&& c.tx_waker == (if completes {
        wake1(o.tx_waker)
    } else {
        o.tx_waker
    })
}

/// Frame of the receive loop: nothing on the transmit side, the interrupt
/// line, or the task-side logs moves.
spec fn rx_loop_frame(o: BufferedUarte, c: BufferedUarte) -> bool {
    &&& c.tx == o.tx
    &&& c.tx_state == o.tx_state
    &&& c.tx_waker == o.tx_waker
    &&& c.uarte.events_endtx == o.uarte.events_endtx
    &&& c.uarte.tx_active == o.uarte.tx_active
    &&& c.uarte.txd_data == o.uarte.txd_data
    &&& c.uarte.tx_sent == o.uarte.tx_sent
    &&& c.irq == o.irq
    &&& c.written_log == o.written_log
    &&& c.read_log == o.read_log
}

/// Mid-state of the receive loop: the first-byte step was taken and the loop
/// will re-check for a pending completion.
spec fn rx_mid_ready(o: BufferedUarte, c: BufferedUarte) -> bool {
    &&& o.rx_state is Receiving
    &&& o.uarte.events_rxdrdy
    &&& c == (BufferedUarte {
        rx_state: RxState::ReceivingReady,
        rx_waker: wake1(o.rx_waker),
        uarte: (HwUarte { events_rxdrdy: false, rxdrdy_int_enabled: false, ..o.uarte }),
        ..o
    })
}

/// Mid-state of the receive loop: the pending completion was committed and
/// the loop will re-run the `Idle` arm to start a fresh transfer if possible.
spec fn rx_mid_committed(o: BufferedUarte, c: BufferedUarte) -> bool {
    &&& rx_commits(o.rx_state, o.uarte.events_rxdrdy, o.uarte.events_endrx)
    &&& c.rx_state is Idle
    &&& c.rx@ == o.rx@ + o.uarte.rxd_data@
    &&& c.rx.capacity() == o.rx.capacity()
    &&& c.rx.head() == o.rx.head()
    &&& !c.uarte.events_rxdrdy
    &&& !c.uarte.events_endrx
    &&& !c.uarte.rx_active
    &&& c.uarte.rxd_data@.len() == 0
    &&& !c.uarte.stoprx_requested
    &&& c.rx_waker == wake1(o.rx_waker)
    &&& c.received_log@ == o.received_log@ + o.uarte.rxd_data@
    &&& c.uarte.rxdrdy_int_enabled == (if o.rx_state is Receiving {
        false
    } else {
        o.uarte.rxdrdy_int_enabled
    })
}

/// Ranking of the receive loop: each productive re-check consumes an event.
spec fn rx_measure(c: BufferedUarte, more: bool) -> int {
    (if more {
        10int
    } else {
        0int
    }) + (if c.rx_state is Receiving && c.uarte.events_rxdrdy {
        3int
    } else if (c.rx_state is ReceivingReady || c.rx_state is Stopping) && c.uarte.events_endrx {
        2int
    } else {
        0int
    })
}

/// Transmit side of `c` equals the transmit side of `o`.
spec fn tx_side_eq(o: BufferedUarte, c: BufferedUarte) -> bool {
    &&& c.tx == o.tx
    &&& c.tx_state == o.tx_state
    &&& c.tx_waker == o.tx_waker
    &&& c.uarte.events_endtx == o.uarte.events_endtx
    &&& c.uarte.tx_active == o.uarte.tx_active
    &&& c.uarte.txd_data == o.uarte.txd_data
    &&& c.uarte.tx_sent == o.uarte.tx_sent
}

/// Mid-state of the transmit loop: the pending completion was confirmed and
/// the loop will re-run the `Idle` arm to start a fresh transfer if possible.
spec fn tx_mid_committed(o: BufferedUarte, c: BufferedUarte) -> bool {
    &&& tx_completes(o.tx_state, o.uarte.events_endtx)
    &&& c.tx_state is Idle
    &&& c.tx@ == o.tx@.skip(o.tx_state->0 as int)
    &&& c.tx.capacity() == o.tx.capacity()
    &&& c.tx.head() == (if o.tx.head() + o.tx_state->0 == o.tx.capacity() {
        0
    } else {
        o.tx.head() + o.tx_state->0
    })
    &&& !c.uarte.events_endtx
    &&& !c.uarte.tx_active
    &&& c.uarte.txd_data@.len() == 0
    &&& c.uarte.tx_sent@ == o.uarte.tx_sent@ + o.tx@.take(o.tx_state->0 as int)
    &&& c.tx_waker == wake1(o.tx_waker)
}

/// Ranking of the transmit loop.
spec fn tx_measure(c: BufferedUarte, more: bool) -> int {
    (if more {
        10int
    } else {
        0int
    }) + (if c.tx_state is Transmitting && c.uarte.events_endtx {
        2int
    } else {
        0int
    })
}

/// Interface to a buffered UARTE instance: driver state machines, ring
/// buffers and waker slots over one modeled peripheral.
pub struct BufferedUarte {
    /// The peripheral register model.
    pub uarte: HwUarte,
    /// The interrupt line paired with the peripheral.
    pub irq: InterruptLine,
    /// Receive ring buffer: the interrupt step produces, the reader consumes.
    pub rx: RingBuffer,
    /// Receive machine state; owned by the interrupt step.
    pub rx_state: RxState,
    /// Waiter for "receive buffer non-empty".
    pub rx_waker: WakerRegistration,
    /// Transmit ring buffer: the writer produces, the interrupt step consumes.
    pub tx: RingBuffer,
    /// Transmit machine state; owned by the interrupt step.
    pub tx_state: TxState,
    /// Waiter for "transmit buffer has free space".
    pub tx_waker: WakerRegistration,
    /// Every byte `poll_write` ever accepted, in order.
    pub written_log: Ghost<Seq<u8>>,
    /// Every byte `consume` ever released to the reader, in order.
    pub read_log: Ghost<Seq<u8>>,
    /// Every byte ever committed into the receive ring, in order.
    pub received_log: Ghost<Seq<u8>>,
}

impl BufferedUarte {
    /// The driver invariant. Everything the two execution contexts rely on:
    /// the machines and the transfer capabilities agree, an open receive
    /// transfer fits the free run it was armed over, an open transmit
    /// transfer sends exactly the front of the transmit ring, a registered
    /// waiter's wake condition is still false, and the byte logs balance.
    pub open spec fn wf(&self) -> bool {
        &&& self.rx.wf()
        &&& self.tx.wf()
        &&& (self.uarte.rx_active <==> !(self.rx_state is Idle))
        &&& (!(self.rx_state is Idle) ==> 0 < self.uarte.rxd_maxcnt
            && self.uarte.rxd_maxcnt <= self.rx.free_run() && self.uarte.rxd_data@.len()
            <= self.uarte.rxd_maxcnt)
        &&& (self.rx_state is Idle ==> self.uarte.rxd_data@.len() == 0)
        &&& (self.uarte.tx_active <==> self.tx_state is Transmitting)
        &&& (self.tx_state matches TxState::Transmitting(n) ==> 0 < n && n
            <= self.tx.filled_run() && self.uarte.txd_data@ == self.tx@.take(n as int))
        &&& (self.rx_waker.registered ==> self.rx@.len() == 0)
        &&& (self.tx_waker.registered ==> self.tx@.len() == self.tx.capacity())
        &&& self.uarte.tx_sent@ + self.tx@ == self.written_log@
        &&& self.read_log@ + self.rx@ == self.received_log@
    }

    /// A fresh driver over a reset peripheral: machines idle, buffers empty.
    /// The interrupt is left pended so the first step arms reception.
    pub fn new(uarte: HwUarte, irq: InterruptLine, rx_capacity: usize, tx_capacity: usize) -> (r:
        Self)
        requires
            uarte.is_reset(),
        ensures
            r.wf(),
            r.rx@.len() == 0,
            r.tx@.len() == 0,
            r.rx.capacity() == rx_capacity,
            r.tx.capacity() == tx_capacity,
            r.rx.head() == 0,
            r.tx.head() == 0,
            r.rx_state is Idle,
            r.tx_state is Idle,
            !r.rx_waker.registered && !r.rx_waker.woken,
            !r.tx_waker.registered && !r.tx_waker.woken,
            r.uarte.is_reset(),
            r.irq.pended,
            r.written_log@.len() == 0,
            r.read_log@.len() == 0,
            r.received_log@.len() == 0,
    {
        let mut irq = irq;
        irq.pend();
        let r = BufferedUarte {
            uarte,
            irq,
            rx: RingBuffer::new(rx_capacity),
            rx_state: RxState::Idle,
            rx_waker: WakerRegistration::new(),
            tx: RingBuffer::new(tx_capacity),
            tx_state: TxState::Idle,
            tx_waker: WakerRegistration::new(),
            written_log: Ghost(Seq::empty()),
            read_log: Ghost(Seq::empty()),
            received_log: Ghost(Seq::empty()),
        };
        proof {
            assert(r.uarte.tx_sent@ + r.tx@ =~= r.written_log@);
            assert(r.read_log@ + r.rx@ =~= r.received_log@);
        }
        r
    }

    /// Read side of the byte stream. Returns the contiguous readable run of
    /// the receive ring if it is non-empty; the caller later reports how much
    /// of it it used via [`Self::consume`]. On an empty buffer it requests an
    /// early stop when a partially filled transfer is known to hold bytes
    /// (state `ReceivingReady`), registers the caller as the waiter, and
    /// reports "not ready" as `None`.
    pub fn poll_fill_buf(&mut self) -> (r: Option<Vec<u8>>)
        requires
            old(self).wf(),
        ensures
            final(self).wf(),
            old(self).rx@.len() > 0 ==> (r matches Some(v) && v@ == old(self).rx@.take(
                old(self).rx.filled_run(),
            ) && v@.len() > 0 && *final(self) == *old(self)),
            old(self).rx@.len() == 0 ==> r is None && *final(self) == (BufferedUarte {
                rx_state: (if old(self).rx_state is ReceivingReady {
                    RxState::Stopping
                } else {
                    old(self).rx_state
                }),
                rx_waker: (WakerRegistration {
                    registered: true,
                    woken: old(self).rx_waker.woken,
                }),
                uarte: (HwUarte {
                    stoprx_requested: (old(self).uarte.stoprx_requested
                        || old(self).rx_state is ReceivingReady),
                    ..old(self).uarte
                }),
                ..*old(self)
            }),
    {
        proof {
            self.rx.lemma_shape();
        }
        let buf = self.rx.pop_buf();
        if buf.len() != 0 {
            return Some(buf);
        }
        if self.rx_state == RxState::ReceivingReady {
            self.rx_state = RxState::Stopping;
            self.uarte.stop_rx();
        }
        self.rx_waker.register();
        None
    }

    /// Read side: the caller is done with the first `amt` bytes of the view
    /// that [`Self::poll_fill_buf`] returned; release them and pend the
    /// interrupt so the freed space is reused at once.
    pub fn consume(&mut self, amt: usize)
        requires
            old(self).wf(),
            amt <= old(self).rx.filled_run(),
        ensures
            final(self).wf(),
            final(self).rx@ == old(self).rx@.skip(amt as int),
            final(self).read_log@ == old(self).read_log@ + old(self).rx@.take(amt as int),
            final(self).irq.pended,
            final(self).rx.capacity() == old(self).rx.capacity(),
            final(self).rx.head() == (if old(self).rx.head() + amt == old(self).rx.capacity() {
                0
            } else {
                old(self).rx.head() + amt
            }),
            final(self).rx_state == old(self).rx_state,
            final(self).rx_waker == old(self).rx_waker,
            final(self).tx == old(self).tx,
            final(self).tx_state == old(self).tx_state,
            final(self).tx_waker == old(self).tx_waker,
            final(self).uarte == old(self).uarte,
            final(self).written_log@ == old(self).written_log@,
            final(self).received_log@ == old(self).received_log@,
    {
        proof {
            self.rx.lemma_shape();
            assert(old(self).rx@.take(amt as int) + old(self).rx@.skip(amt as int)
                =~= old(self).rx@);
        }
        let ghost consumed = self.rx@.take(amt as int);
        self.rx.pop(amt);
        self.read_log = Ghost(self.read_log@ + consumed);
        self.irq.pend();
        proof {
            assert(self.read_log@ + self.rx@ =~= self.received_log@);
        }
    }

    /// Write side of the byte stream. Accepts `min(free run, buf len)` bytes
    /// into the transmit ring, pends the interrupt so transmission starts,
    /// and returns how many bytes were accepted; a partial write is expected
    /// and the caller retries with the remainder. With no free space it
    /// registers the caller as the waiter and reports "not ready" as `None`.
    pub fn poll_write(&mut self, buf: &Vec<u8>) -> (r: Option<usize>)
        requires
            old(self).wf(),
        ensures
            final(self).wf(),
            (r is None <==> old(self).tx.free_run() == 0),
            r is None ==> *final(self) == (BufferedUarte {
                tx_waker: (WakerRegistration {
                    registered: true,
                    woken: old(self).tx_waker.woken,
                }),
                ..*old(self)
            }),
            r matches Some(n) ==> ({
                &&& n as int == (if old(self).tx.free_run() <= buf@.len() {
                    old(self).tx.free_run()
                } else {
                    buf@.len() as int
                })
                &&& final(self).tx@ == old(self).tx@ + buf@.take(n as int)
                &&& final(self).written_log@ == old(self).written_log@ + buf@.take(n as int)
                &&& final(self).irq.pended
                &&& final(self).tx_state == old(self).tx_state
                &&& final(self).tx_waker == old(self).tx_waker
                &&& final(self).tx.capacity() == old(self).tx.capacity()
                &&& final(self).tx.head() == old(self).tx.head()
                &&& final(self).rx == old(self).rx
                &&& final(self).rx_state == old(self).rx_state
                &&& final(self).rx_waker == old(self).rx_waker
                &&& final(self).uarte == old(self).uarte
                &&& final(self).read_log@ == old(self).read_log@
                &&& final(self).received_log@ == old(self).received_log@
            }),
    {
        proof {
            self.tx.lemma_shape();
        }
        let tx_free = self.tx.push_buf_len();
        if tx_free == 0 {
            self.tx_waker.register();
            return None;
        }
        let n: usize = if tx_free < buf.len() {
            tx_free
        } else {
            buf.len()
        };
        let ghost old_tx = self.tx@;
        let ghost k = (if self.tx_state is Transmitting {
            self.tx_state->0 as int
        } else {
            0
        });
        self.tx.push_from(buf, n);
        self.written_log = Ghost(self.written_log@ + buf@.take(n as int));
        self.irq.pend();
        proof {
            self.tx.lemma_shape();
            assert(self.uarte.tx_sent@ + self.tx@ =~= self.written_log@);
            if self.tx_state is Transmitting {
                assert(self.tx@.take(k) =~= old_tx.take(k));
            }
        }
        Some(n)
    }

    /// The interrupt step: runs the receive machine to a fixed point, then
    /// the transmit machine, acknowledging every event it reads. A
    /// completion event observed while the receive machine is `Idle` means
    /// the hardware finished a transfer the driver does not know about: that
    /// is the one fatal condition, reported as `Err` with no state change
    /// beyond acknowledging the stale first-byte event; the caller must
    /// abort.
    pub fn on_interrupt(&mut self) -> (r: Result<(), Fault>)
        requires
            old(self).wf(),
        ensures
            final(self).wf(),
            r is Err <==> (old(self).rx_state is Idle && old(self).uarte.events_endrx),
            r is Err ==> *final(self) == (BufferedUarte {
                uarte: (HwUarte { events_rxdrdy: false, ..old(self).uarte }),
                ..*old(self)
            }),
            r is Ok ==> rx_phase_done(*old(self), *final(self)),
            r is Ok ==> tx_phase_done(*old(self), *final(self)),
            final(self).irq == old(self).irq,
            final(self).written_log == old(self).written_log,
            final(self).read_log == old(self).read_log,
            r is Ok && old(self).rx_waker.registered && final(self).rx@.len() > 0
                ==> final(self).rx_waker.woken,
            r is Ok && old(self).tx_waker.registered
                && final(self).tx@.len() < final(self).tx.capacity()
                ==> final(self).tx_waker.woken,
    {
        let ghost o = *old(self);
        if self.rx_state == RxState::Idle && self.uarte.events_endrx {
            // The receive machine returns to Idle within one invocation only
            // after consuming the completion event, so an unexpected
            // completion can only be present on entry.
            self.uarte.events_rxdrdy = false;
            return Err(Fault::UnexpectedEndRx);
        }
        let mut more_rx = true;
        while more_rx
            invariant
                self.wf(),
                o == *old(self),
                o.wf(),
                !(o.rx_state is Idle && o.uarte.events_endrx),
                rx_loop_frame(o, *self),
                more_rx ==> (*self == o || rx_mid_ready(o, *self) || rx_mid_committed(o, *self)),
                !more_rx ==> rx_phase_done(o, *self),
            decreases rx_measure(*self, more_rx),
        {
            more_rx = false;
            if self.rx_state == RxState::Idle {
                // acknowledge a stale first-byte event
                self.uarte.events_rxdrdy = false;
                let n_free: usize = self.rx.push_buf_len();
                if n_free != 0 {
                    self.rx_state = RxState::Receiving;
                    self.uarte.start_rx(n_free);
                }
            } else if self.rx_state == RxState::Receiving {
                if self.uarte.events_rxdrdy {
                    // One first-byte notification is enough to know data is
                    // there; disable it to avoid one interrupt per byte.
                    self.uarte.rxdrdy_int_enabled = false;
                    self.uarte.events_rxdrdy = false;
                    self.rx_waker.wake();
                    self.rx_state = RxState::ReceivingReady;
                    more_rx = true;  // a completion may be pending too
                }
            } else {
                // ReceivingReady or Stopping
                if self.uarte.events_rxdrdy {
                    self.uarte.events_rxdrdy = false;
                }
                if self.uarte.events_endrx {
                    let n: usize = self.uarte.rxd_data.len();
                    let ghost rcv = self.uarte.rxd_data@;
                    self.rx.push_from(&self.uarte.rxd_data, n);
                    self.uarte.events_endrx = false;
                    self.uarte.rxd_data = Vec::new();
                    self.uarte.rx_active = false;
                    self.uarte.stoprx_requested = false;
                    self.received_log = Ghost(self.received_log@ + rcv);
                    self.rx_waker.wake();
                    self.rx_state = RxState::Idle;
                    more_rx = true;  // start another transfer if possible
                    proof {
                        assert(rcv.take(n as int) =~= rcv);
                        assert(self.read_log@ + self.rx@ =~= self.received_log@);
                    }
                }
            }
            proof {
                // a zero-length byte sequence is the empty sequence
                if self.uarte.rxd_data@.len() == 0 {
                    assert(self.uarte.rxd_data@ =~= Seq::<u8>::empty());
                }
            }
        }
        let mut more_tx = true;
        while more_tx
            invariant
                self.wf(),
                o == *old(self),
                o.wf(),
                rx_phase_done(o, *self),
                self.irq == o.irq,
                self.written_log == o.written_log,
                self.read_log == o.read_log,
                more_tx ==> (tx_side_eq(o, *self) || tx_mid_committed(o, *self)),
                !more_tx ==> tx_phase_done(o, *self),
            decreases tx_measure(*self, more_tx),
        {
            more_tx = false;
            match self.tx_state {
                TxState::Idle => {
                    let buf = self.tx.pop_buf();
                    let n: usize = buf.len();
                    if n != 0 {
                        self.tx_state = TxState::Transmitting(n);
                        self.uarte.start_tx(buf);
                    }
                },
                TxState::Transmitting(n) => {
                    if self.uarte.events_endtx {
                        proof {
                            self.tx.lemma_shape();
                        }
                        let ghost sent0 = self.uarte.tx_sent@;
                        let ghost v0 = self.tx@;
                        self.uarte.events_endtx = false;
                        // the completed transfer's bytes are confirmed sent
                        self.uarte.tx_sent.append(&mut self.uarte.txd_data);
                        self.tx.pop(n);
                        self.uarte.tx_active = false;
                        self.tx_waker.wake();
                        self.tx_state = TxState::Idle;
                        more_tx = true;  // start another transfer if possible
                        proof {
                            assert(v0.take(n as int) + v0.skip(n as int) =~= v0);
                            assert((sent0 + v0.take(n as int)) + v0.skip(n as int) =~= sent0 + v0);
                            assert(self.uarte.tx_sent@ + self.tx@ =~= self.written_log@);
                        }
                    }
                },
            }
        }
        Ok(())
    }

    /// Device side: `data` arrives on the line and the receive DMA stores
    /// it; the first-byte event latches for each byte.
    pub fn device_receive(&mut self, data: &Vec<u8>)
        requires
            old(self).wf(),
            old(self).uarte.rx_active,
            old(self).uarte.rxd_data@.len() + data@.len() <= old(self).uarte.rxd_maxcnt,
        ensures
            final(self).wf(),
            final(self).uarte.rxd_data@ == old(self).uarte.rxd_data@ + data@,
            final(self).uarte.events_rxdrdy == (old(self).uarte.events_rxdrdy || data@.len() > 0),
            *final(self) == (BufferedUarte {
                uarte: (HwUarte {
                    rxd_data: final(self).uarte.rxd_data,
                    events_rxdrdy: (old(self).uarte.events_rxdrdy || data@.len() > 0),
                    ..old(self).uarte
                }),
                ..*old(self)
            }),
    {
        if data.len() > 0 {
            self.uarte.events_rxdrdy = true;
        }
        let mut i: usize = 0;
        while i < data.len()
            invariant
                i <= data.len(),
                self.uarte.rxd_data@ == old(self).uarte.rxd_data@ + data@.take(i as int),
                *self == (BufferedUarte {
                    uarte: (HwUarte {
                        rxd_data: self.uarte.rxd_data,
                        events_rxdrdy: (old(self).uarte.events_rxdrdy || data@.len() > 0),
                        ..old(self).uarte
                    }),
                    ..*old(self)
                }),
            decreases data.len() - i,
        {
            let b = data[i];
            self.uarte.rxd_data.push(b);
            proof {
                assert(self.uarte.rxd_data@ =~= old(self).uarte.rxd_data@ + data@.take(
                    i + 1 as int,
                ));
            }
            i = i + 1;
        }
        proof {
            assert(data@.take(data@.len() as int) =~= data@);
        }
    }

    /// Device side: the open receive transfer completes — the programmed
    /// length was reached or a stop was confirmed — and the completion event
    /// latches. Latching it with no transfer open models the
    /// desynchronization that the interrupt step must treat as fatal.
    pub fn device_complete_rx(&mut self)
        requires
            old(self).wf(),
        ensures
            final(self).wf(),
            *final(self) == (BufferedUarte {
                uarte: (HwUarte { events_endrx: true, ..old(self).uarte }),
                ..*old(self)
            }),
    {
        self.uarte.events_endrx = true;
    }

    /// Device side: the open transmit transfer completes and the completion
    /// event latches.
    pub fn device_complete_tx(&mut self)
        requires
            old(self).wf(),
        ensures
            final(self).wf(),
            *final(self) == (BufferedUarte {
                uarte: (HwUarte { events_endtx: true, ..old(self).uarte }),
                ..*old(self)
            }),
    {
        self.uarte.events_endtx = true;
    }

    /// The receive ring's filled and free regions never overlap: their sizes
    /// sum to the capacity, whatever interleaving of interrupt steps and
    /// interface calls produced the state, and each contiguous run lies
    /// inside its region. Likewise for the transmit ring.
    pub proof fn lemma_regions_partition(&self)
        requires
            self.wf(),
        ensures
            self.rx@.len() + (self.rx.capacity() - self.rx@.len()) == self.rx.capacity(),
            self.rx@.len() <= self.rx.capacity(),
            self.rx.filled_run() <= self.rx@.len(),
            self.rx.free_run() <= self.rx.capacity() - self.rx@.len(),
            self.tx@.len() <= self.tx.capacity(),
            self.tx.filled_run() <= self.tx@.len(),
            self.tx.free_run() <= self.tx.capacity() - self.tx@.len(),
    {
        self.rx.lemma_shape();
        self.tx.lemma_shape();
    }

    /// At most one transfer per direction is ever in flight: the arm
    /// capability is held exactly while the owning machine is away from
    /// `Idle`, so a transfer can be programmed only on the `Idle` →
    /// `Receiving` and `Idle` → `Transmitting` transitions.
    pub proof fn lemma_at_most_one_in_flight(&self)
        requires
            self.wf(),
        ensures
            self.uarte.rx_active <==> !(self.rx_state is Idle),
            self.uarte.tx_active <==> self.tx_state is Transmitting,
    {
    }

    /// Transmit-side byte conservation: the confirmed-sent bytes are always
    /// a prefix of the accepted written bytes, in order; once the transmit
    /// ring drains, every accepted byte has been sent.
    pub proof fn lemma_tx_byte_conservation(&self)
        requires
            self.wf(),
        ensures
            self.uarte.tx_sent@.len() <= self.written_log@.len(),
            self.uarte.tx_sent@ == self.written_log@.take(self.uarte.tx_sent@.len() as int),
            self.tx@.len() == 0 ==> self.uarte.tx_sent@ == self.written_log@,
    {
        assert(self.uarte.tx_sent@ =~= self.written_log@.take(self.uarte.tx_sent@.len() as int));
        if self.tx@.len() == 0 {
            assert(self.uarte.tx_sent@ =~= self.written_log@);
        }
    }

    /// Early-stop correctness: once a read on an empty buffer has moved the
    /// receive machine to `Stopping`, the completion that confirms the stop
    /// delivers exactly the bytes the transfer had received so far — the
    /// reader gets them without waiting for the originally programmed
    /// length, and is woken.
    pub proof fn lemma_early_stop_delivers_partial(mid: BufferedUarte, done: BufferedUarte)
        requires
            mid.wf(),
            mid.rx_state is Stopping,
            mid.rx@.len() == 0,
            mid.uarte.events_endrx,
            rx_phase_done(mid, done),
        ensures
            done.rx@ == mid.uarte.rxd_data@,
            done.rx_waker == wake1(mid.rx_waker),
    {
        assert(mid.rx@ + mid.uarte.rxd_data@ =~= mid.uarte.rxd_data@);
    }

    /// Receive-side byte conservation: the bytes released to the reader are
    /// always a prefix of the bytes the device delivered, in order; once the
    /// receive ring drains, the reader has seen them all.
    pub proof fn lemma_rx_byte_conservation(&self)
        requires
            self.wf(),
        ensures
            self.read_log@.len() <= self.received_log@.len(),
            self.read_log@ == self.received_log@.take(self.read_log@.len() as int),
            self.rx@.len() == 0 ==> self.read_log@ == self.received_log@,
    {
        assert(self.read_log@ =~= self.received_log@.take(self.read_log@.len() as int));
        if self.rx@.len() == 0 {
            assert(self.read_log@ =~= self.received_log@);
        }
    }
}

} // verus!
