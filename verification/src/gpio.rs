//! Minimal model of the GPIO port distinction needed to route UART pins.

use vstd::prelude::*;

verus! {

/// The two GPIO ports a pin can live on.
#[derive(Clone, Copy, Debug, PartialEq, Eq, Structural)]
pub enum Port {
    Port0,
    Port1,
}

/// The bit value that selects `port` in a pin-select register.
pub fn port_bit(port: Port) -> (r: bool)
    ensures
        r == (port is Port1),
{
    match port {
        Port::Port0 => false,
        Port::Port1 => true,
    }
}

} // verus!
