//! Buffered, interrupt-driven driver logic for a DMA-capable UART peripheral.
//!
//! The driver turns single-shot DMA transfers into a byte-stream abstraction:
//! two ring buffers decouple DMA timing from the reading and writing tasks,
//! two small state machines (receive, transmit) run in the interrupt handler,
//! and waker registrations let the polling interface suspend without spinning.
//!
//! The peripheral register surface is modeled as plain state ([`hw::HwUarte`]):
//! hardware events (first byte received, transfer complete) are injected as
//! values, and commands (start, stop) are recorded, so that every decision the
//! driver makes is verified against the model.

pub mod driver;
pub mod gpio;
pub mod hw;
pub mod ring;
pub(crate) mod sealed;
pub mod waker;

pub use driver::{BufferedUarte, Fault, Instance, RxState, TxState};
pub use gpio::{port_bit, Port};
pub use hw::{HwUarte, InterruptLine};
pub use ring::RingBuffer;
pub use waker::WakerRegistration;
