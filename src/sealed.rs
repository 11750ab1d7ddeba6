//! Keeps [`ClockGateLocator`](crate::ClockGateLocator) to the peripheral
//! identifiers of this crate.
use vstd::prelude::*;

verus! {

/// Implemented by the peripheral instance identifiers of this crate only
pub trait Sealed {}

} // verus!
