//! USB identifiers and command bytes of the adapter.
use vstd::prelude::*;

verus! {

/// Vendor ID of the adapter.
pub const ADAPTER_VID: u16 = 0x057e;

/// Product ID of the adapter.
pub const ADAPTER_PID: u16 = 0x0337;

/// The one-byte command that starts a session.
pub const INIT_COMMAND: u8 = 0x13;

/// First byte of the rumble command.
pub const RUMBLE_COMMAND: u8 = 0x11;

/// Number of frames that flush the adapter's buffer of stale input.
pub const REFRESH_POLLS: usize = 10;

} // verus!
