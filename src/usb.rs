//! The transport that carries the adapter's frames.
use vstd::prelude::*;

verus! {

/// Access to the adapter's two interrupt endpoints. A failed transfer is
/// reported through the error.
pub trait AdapterHardware {
    /// What a failed transfer reports.
    type Error;

    /// Sends one command to the adapter.
    fn write_interrupt(&mut self, data: &[u8]) -> Result<(), Self::Error>;

    /// Fills `data` with one frame from the adapter.
    fn read_interrupt(&mut self, data: &mut [u8]) -> Result<(), Self::Error>;
}

} // verus!
