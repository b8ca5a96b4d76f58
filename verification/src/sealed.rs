//! Seal for the peripheral-instance trait: only types of this crate can
//! stand for a UARTE instance.

use vstd::prelude::*;

verus! {

/// Implemented only inside this crate.
pub trait Instance {

}

impl Instance for crate::hw::HwUarte {

}

} // verus!
