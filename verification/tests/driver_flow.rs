//! Scenario tests of the driver: the interrupt step, the polling interface,
//! early stop, the fatal path, wake liveness and byte conservation.

use buffered_uarte::BufferedUarte;
use buffered_uarte::Fault;
use buffered_uarte::HwUarte;
use buffered_uarte::InterruptLine;
use buffered_uarte::RxState;
use buffered_uarte::TxState;

fn fresh(rx_capacity: usize, tx_capacity: usize) -> BufferedUarte {
    BufferedUarte::new(HwUarte::new(), InterruptLine::new(), rx_capacity, tx_capacity)
}

#[test]
fn construction_pends_the_interrupt() {
    let mut d = fresh(4, 4);
    assert_eq!(d.rx_state, RxState::Idle);
    assert_eq!(d.tx_state, TxState::Idle);
    assert!(d.irq.take_pend());
}

#[test]
fn first_step_arms_reception_over_whole_buffer() {
    let mut d = fresh(8, 8);
    d.irq.take_pend();
    assert!(d.on_interrupt().is_ok());
    assert_eq!(d.rx_state, RxState::Receiving);
    assert!(d.uarte.rx_active);
    assert_eq!(d.uarte.rxd_maxcnt, 8);
    assert!(d.uarte.rxdrdy_int_enabled);
    // transmit side has nothing to do
    assert_eq!(d.tx_state, TxState::Idle);
    assert!(!d.uarte.tx_active);
}

#[test]
fn end_to_end_write_and_read() {
    let mut d = fresh(8, 8);
    d.irq.take_pend();
    assert!(d.on_interrupt().is_ok());

    // write 5 bytes; they are accepted in full and queued
    let r = d.poll_write(&vec![1, 2, 3, 4, 5]);
    assert_eq!(r, Some(5));
    assert!(d.irq.take_pend());
    assert!(d.on_interrupt().is_ok());
    assert_eq!(d.tx_state, TxState::Transmitting(5));
    assert_eq!(d.uarte.txd_data, vec![1, 2, 3, 4, 5]);

    // transfer completes: buffer released, bytes confirmed sent
    d.device_complete_tx();
    assert!(d.on_interrupt().is_ok());
    assert_eq!(d.tx_state, TxState::Idle);
    assert_eq!(d.uarte.tx_sent, vec![1, 2, 3, 4, 5]);
    assert_eq!(d.tx.len(), 0);

    // nothing to read yet: the reader parks itself
    assert_eq!(d.poll_fill_buf(), None);
    assert!(d.rx_waker.registered);

    // 3 bytes arrive: first-byte event moves the machine to ReceivingReady
    // and wakes the reader
    d.device_receive(&vec![9, 8, 7]);
    assert!(d.on_interrupt().is_ok());
    assert_eq!(d.rx_state, RxState::ReceivingReady);
    assert!(d.rx_waker.take_woken());

    // completion with amount 3: commit, return to Idle, re-arm over the
    // remaining free run
    d.device_complete_rx();
    assert!(d.on_interrupt().is_ok());
    assert_eq!(d.rx.len(), 3);
    assert_eq!(d.rx_state, RxState::Receiving);
    assert_eq!(d.uarte.rxd_maxcnt, 5);

    // the reader sees exactly the received bytes, then frees the buffer
    assert_eq!(d.poll_fill_buf(), Some(vec![9, 8, 7]));
    d.consume(3);
    assert_eq!(d.rx.len(), 0);
    assert!(d.irq.take_pend());
}

#[test]
fn early_stop_delivers_partial_data() {
    let mut d = fresh(8, 8);
    d.irq.take_pend();
    assert!(d.on_interrupt().is_ok());
    assert_eq!(d.uarte.rxd_maxcnt, 8);

    // only 2 of the programmed 8 bytes arrive
    d.device_receive(&vec![42, 43]);
    assert!(d.on_interrupt().is_ok());
    assert_eq!(d.rx_state, RxState::ReceivingReady);

    // the reader finds the ring empty and requests an early stop
    assert_eq!(d.poll_fill_buf(), None);
    assert_eq!(d.rx_state, RxState::Stopping);
    assert!(d.uarte.stoprx_requested);
    assert!(d.rx_waker.registered);

    // the stop confirmation surfaces exactly the 2 bytes
    d.device_complete_rx();
    assert!(d.on_interrupt().is_ok());
    assert!(d.rx_waker.take_woken());
    assert_eq!(d.poll_fill_buf(), Some(vec![42, 43]));
}

#[test]
fn unexpected_completion_is_fatal_and_mutates_nothing() {
    let mut d = fresh(4, 4);
    let sent_before = d.uarte.tx_sent.clone();
    d.device_complete_rx();
    let r = d.on_interrupt();
    assert_eq!(r, Err(Fault::UnexpectedEndRx));
    // no state mutation beyond the fatal report
    assert_eq!(d.rx_state, RxState::Idle);
    assert_eq!(d.tx_state, TxState::Idle);
    assert!(d.uarte.events_endrx);
    assert_eq!(d.rx.len(), 0);
    assert_eq!(d.tx.len(), 0);
    assert_eq!(d.uarte.tx_sent, sent_before);
    assert!(!d.rx_waker.registered);
    assert!(!d.tx_waker.registered);
}

#[test]
fn stale_first_byte_event_is_discarded() {
    let mut d = fresh(0, 4);
    // with no receive space the machine stays Idle; a stray first-byte
    // event is acknowledged and dropped
    d.uarte.events_rxdrdy = true;
    assert!(d.on_interrupt().is_ok());
    assert_eq!(d.rx_state, RxState::Idle);
    assert!(!d.uarte.events_rxdrdy);
}

#[test]
fn write_is_partial_when_buffer_is_smaller() {
    let mut d = fresh(4, 2);
    assert_eq!(d.poll_write(&vec![1, 2, 3]), Some(2));
    assert_eq!(d.tx.len(), 2);
    // buffer now full: the writer parks itself
    assert_eq!(d.poll_write(&vec![3]), None);
    assert!(d.tx_waker.registered);
}

#[test]
fn writer_is_woken_when_space_frees_up() {
    let mut d = fresh(4, 2);
    assert_eq!(d.poll_write(&vec![1, 2, 3]), Some(2));
    assert_eq!(d.poll_write(&vec![3]), None);
    assert!(d.tx_waker.registered);
    assert!(d.on_interrupt().is_ok());
    assert_eq!(d.tx_state, TxState::Transmitting(2));
    // completion frees the space and wakes the writer before the step returns
    d.device_complete_tx();
    assert!(d.on_interrupt().is_ok());
    assert!(d.tx_waker.take_woken());
    assert_eq!(d.poll_write(&vec![3]), Some(1));
}

#[test]
fn reader_is_woken_by_first_byte() {
    let mut d = fresh(4, 4);
    assert!(d.on_interrupt().is_ok());
    assert_eq!(d.poll_fill_buf(), None);
    assert!(d.rx_waker.registered);
    d.device_receive(&vec![7]);
    assert!(d.on_interrupt().is_ok());
    // the waiter is woken before the interrupt step returns
    assert!(!d.rx_waker.registered);
    assert!(d.rx_waker.take_woken());
}

#[test]
fn loopback_conserves_bytes_in_order() {
    let mut d = fresh(8, 8);
    d.irq.take_pend();
    assert!(d.on_interrupt().is_ok());

    // writes totalling 6 bytes, fully accepted over two calls
    assert_eq!(d.poll_write(&vec![10, 20, 30]), Some(3));
    assert!(d.on_interrupt().is_ok());
    assert_eq!(d.poll_write(&vec![40, 50, 60]), Some(3));
    d.device_complete_tx();
    assert!(d.on_interrupt().is_ok());
    d.device_complete_tx();
    assert!(d.on_interrupt().is_ok());
    assert_eq!(d.uarte.tx_sent, vec![10, 20, 30, 40, 50, 60]);
    assert_eq!(d.tx.len(), 0);

    // loop the wire back: what was sent arrives on the receive side
    let wire = d.uarte.tx_sent.clone();
    d.device_receive(&wire);
    d.device_complete_rx();
    assert!(d.on_interrupt().is_ok());

    // the reader drains everything, in order
    let mut collected: Vec<u8> = Vec::new();
    loop {
        match d.poll_fill_buf() {
            Some(chunk) => {
                let n = chunk.len();
                collected.extend(chunk);
                d.consume(n);
            }
            None => break,
        }
    }
    assert_eq!(collected, vec![10, 20, 30, 40, 50, 60]);
}
