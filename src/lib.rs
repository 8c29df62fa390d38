//! Decoding of the Nintendo GameCube controller adapter's USB frames, and a
//! session that drives the adapter over a small transport interface.
pub mod adapter;
pub mod axis;
pub mod constants;
pub mod parsing;
pub mod usb;

pub use adapter::{controllers_of_packet, rumble_command, GcAdapter};
pub use axis::{Fraction, InvertedSignedAxis, SignedAxis, UnsignedAxis};
pub use parsing::{
    Buttons, Controller, ControllerStatus, ControllerType, DecodeLengthError, Packet, Stick, Triggers,
};
pub use usb::AdapterHardware;
