//! Tests of the leaf pieces: ring buffer runs and wrap-around, waker slots,
//! the interrupt line, and the port-bit helper.

use buffered_uarte::port_bit;
use buffered_uarte::InterruptLine;
use buffered_uarte::Port;
use buffered_uarte::RingBuffer;
use buffered_uarte::WakerRegistration;

#[test]
fn port_bit_selects_port1() {
    assert!(!port_bit(Port::Port0));
    assert!(port_bit(Port::Port1));
}

#[test]
fn ring_starts_empty() {
    let rb = RingBuffer::new(4);
    assert_eq!(rb.len(), 0);
    assert_eq!(rb.push_buf_len(), 4);
    assert_eq!(rb.pop_buf(), Vec::<u8>::new());
}

#[test]
fn ring_push_then_pop_in_order() {
    let mut rb = RingBuffer::new(4);
    rb.push_from(&vec![1, 2, 3], 3);
    assert_eq!(rb.len(), 3);
    assert_eq!(rb.push_buf_len(), 1);
    assert_eq!(rb.pop_buf(), vec![1, 2, 3]);
    rb.pop(2);
    assert_eq!(rb.len(), 1);
    assert_eq!(rb.pop_buf(), vec![3]);
}

#[test]
fn ring_wraps_around() {
    let mut rb = RingBuffer::new(4);
    rb.push_from(&vec![1, 2, 3], 3);
    rb.pop(2);
    // filled region is [3] at index 2; free run goes to the end of storage
    assert_eq!(rb.push_buf_len(), 1);
    rb.push_from(&vec![9], 1);
    assert_eq!(rb.pop_buf(), vec![3, 9]);
    // free run now wraps to the front
    assert_eq!(rb.push_buf_len(), 2);
    rb.push_from(&vec![7], 1);
    // the contiguous readable run stops at the end of storage
    assert_eq!(rb.pop_buf(), vec![3, 9]);
    rb.pop(2);
    assert_eq!(rb.pop_buf(), vec![7]);
    assert_eq!(rb.len(), 1);
}

#[test]
fn ring_full_has_no_free_run() {
    let mut rb = RingBuffer::new(2);
    rb.push_from(&vec![5, 6], 2);
    assert_eq!(rb.push_buf_len(), 0);
    assert_eq!(rb.len(), 2);
}

#[test]
fn ring_zero_capacity() {
    let rb = RingBuffer::new(0);
    assert_eq!(rb.len(), 0);
    assert_eq!(rb.push_buf_len(), 0);
    assert_eq!(rb.pop_buf(), Vec::<u8>::new());
}

#[test]
fn waker_wakes_only_registered() {
    let mut w = WakerRegistration::new();
    w.wake();
    assert!(!w.take_woken());
    w.register();
    assert!(w.registered);
    w.wake();
    assert!(!w.registered);
    assert!(w.take_woken());
    // the wake was consumed
    assert!(!w.take_woken());
}

#[test]
fn interrupt_line_pend_and_take() {
    let mut irq = InterruptLine::new();
    assert!(!irq.take_pend());
    irq.pend();
    assert!(irq.take_pend());
    assert!(!irq.take_pend());
}
