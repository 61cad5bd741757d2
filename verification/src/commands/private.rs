//! The seal on the high-level interface.

use vstd::prelude::*;
use crate::accessors::Obd2Device;

verus! {

/// Marks the types that may carry the high-level interface: the devices, and
/// nothing else.
pub trait Sealed {

}

impl<T: Obd2Device> Sealed for T {

}

} // verus!
