//! Plain-state model of the UARTE peripheral register surface.
//!
//! The driver core needs the peripheral only as a set of named operations:
//! start/stop commands, DMA pointer/length programming, latched event bits for
//! "first byte arrived" and "transfer complete", and the interrupt enable for
//! the first-byte event. This module models that surface as ordinary data, so
//! every decision the state machines make against it can be verified. The
//! device side of the contract — events firing, received bytes appearing — is
//! injected by the interrupt harness through the driver's `device_*` methods.

use vstd::prelude::*;

verus! {

/// One interrupt line: it can be pended (forced to fire) from task context.
#[derive(Clone, Copy, Debug, PartialEq, Eq, Structural)]
pub struct InterruptLine {
    /// The line was pended and the handler has not run yet.
    pub pended: bool,
}

impl InterruptLine {
    /// A quiescent line.
    pub fn new() -> (r: Self)
        ensures
            !r.pended,
    {
        InterruptLine { pended: false }
    }

    /// Force the interrupt to fire so the state machines re-evaluate.
    pub fn pend(&mut self)
        ensures
            final(self).pended,
    {
        self.pended = true;
    }

    /// Harness side: acknowledge a pend before running the handler.
    pub fn take_pend(&mut self) -> (r: bool)
        ensures
            r == old(self).pended,
            !final(self).pended,
    {
        let r = self.pended;
        self.pended = false;
        r
    }
}

/// The modeled register state of one UARTE instance.
///
/// Event fields are the latched hardware event bits; `rxd_data` stands for
/// the bytes the receive DMA has placed in memory for the open transfer
/// (its length is the AMOUNT register once the transfer completes), and
/// `txd_data` for the memory region the transmit DMA reads. `tx_sent`
/// records every byte whose transmit transfer has been confirmed complete,
/// in order. The `*_active` flags are the capability that makes it
/// impossible to arm a transfer while one is already in flight.
pub struct HwUarte {
    /// Latched event: the open receive transfer got its first byte (fires
    /// once per byte).
    pub events_rxdrdy: bool,
    /// Latched event: the receive transfer completed.
    pub events_endrx: bool,
    /// Latched event: the transmit transfer completed.
    pub events_endtx: bool,
    /// The first-byte event is allowed to fire the interrupt.
    pub rxdrdy_int_enabled: bool,
    /// A receive transfer is open.
    pub rx_active: bool,
    /// Programmed maximum length of the open receive transfer.
    pub rxd_maxcnt: usize,
    /// Bytes the receive DMA has written so far for the open transfer.
    pub rxd_data: Vec<u8>,
    /// A stop of the receive transfer was requested.
    pub stoprx_requested: bool,
    /// A transmit transfer is open.
    pub tx_active: bool,
    /// The bytes the open transmit transfer sends.
    pub txd_data: Vec<u8>,
    /// Every byte confirmed transmitted, oldest first.
    pub tx_sent: Vec<u8>,
}

impl HwUarte {
    /// The peripheral as construction leaves it: no events latched, no
    /// transfer open, nothing sent.
    pub open spec fn is_reset(&self) -> bool {
        &&& !self.events_rxdrdy
        &&& !self.events_endrx
        &&& !self.events_endtx
        &&& !self.rxdrdy_int_enabled
        &&& !self.rx_active
        &&& !self.tx_active
        &&& !self.stoprx_requested
        &&& self.rxd_maxcnt == 0
        &&& self.rxd_data@.len() == 0
        &&& self.txd_data@.len() == 0
        &&& self.tx_sent@.len() == 0
    }

    /// A freshly enabled peripheral.
    pub fn new() -> (r: Self)
        ensures
            r.is_reset(),
    {
        HwUarte {
            events_rxdrdy: false,
            events_endrx: false,
            events_endtx: false,
            rxdrdy_int_enabled: false,
            rx_active: false,
            rxd_maxcnt: 0,
            rxd_data: Vec::new(),
            stoprx_requested: false,
            tx_active: false,
            txd_data: Vec::new(),
            tx_sent: Vec::new(),
        }
    }

    /// Program the receive DMA for up to `maxcnt` bytes, enable the
    /// first-byte notification, and issue the start-receive command.
    ///
    /// Requiring that no receive transfer is open makes it structurally
    /// impossible to arm a second one over the first.
    pub fn start_rx(&mut self, maxcnt: usize)
        requires
            !old(self).rx_active,
            maxcnt > 0,
        ensures
            final(self).rxd_data@.len() == 0,
            *final(self) == (HwUarte {
                rx_active: true,
                rxd_maxcnt: maxcnt,
                rxd_data: final(self).rxd_data,
                events_rxdrdy: false,
                rxdrdy_int_enabled: true,
                ..*old(self)
            }),
    {
        self.rx_active = true;
        self.rxd_maxcnt = maxcnt;
        self.rxd_data = Vec::new();
        self.events_rxdrdy = false;
        self.rxdrdy_int_enabled = true;
    }

    /// Issue the stop-receive command; the device answers with a
    /// transfer-complete event carrying the bytes received so far.
    pub fn stop_rx(&mut self)
        requires
            old(self).rx_active,
        ensures
            *final(self) == (HwUarte { stoprx_requested: true, ..*old(self) }),
    {
        self.stoprx_requested = true;
    }

    /// Program the transmit DMA with `data` and issue the start-transmit
    /// command.
    pub fn start_tx(&mut self, data: Vec<u8>)
        requires
            !old(self).tx_active,
            data@.len() > 0,
        ensures
            *final(self) == (HwUarte { tx_active: true, txd_data: data, ..*old(self) }),
    {
        self.tx_active = true;
        self.txd_data = data;
    }
}

} // verus!
