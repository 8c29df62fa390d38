//! The adapter's 37-byte input frame and the per-port records inside it.
use vstd::prelude::*;

use crate::axis::{
    centered_fraction, inverted_centered_fraction, inverted_fraction, signed_fraction, Fraction,
    InvertedSignedAxis, SignedAxis, UnsignedAxis,
};

verus! {

/// Length of one input frame.
pub const FRAME_LEN: usize = 37;

/// Length of one port record inside a frame.
pub const PORT_LEN: usize = 9;

/// First byte of a frame that carries controller state.
pub const CONTROLLER_INFO_MARKER: u8 = 0x21;

/// Bit `i` of `bits`.
pub open spec fn bit_of(bits: u16, i: u16) -> bool {
    (bits >> i) & 1 == 1
}

/// Type of controller connected (Disconnected, Normal, or Wavebird).
#[derive(Debug, Clone, Copy, PartialEq, Eq, Structural)]
pub enum ControllerType {
    Disconnected,
    Normal,
    Wavebird,
    Invalid,
}

/// The controller type that a 2-bit field encodes.
pub open spec fn controller_type_of(v: u8) -> ControllerType {
    if v == 0 {
        ControllerType::Disconnected
    } else if v == 1 {
        ControllerType::Normal
    } else if v == 2 {
        ControllerType::Wavebird
    } else {
        ControllerType::Invalid
    }
}

impl ControllerType {
    /// Decodes the two low bits of `v`.
    pub fn from_bits(v: u8) -> (r: Self)
        ensures
            r == controller_type_of(v & 3),
    {
        let t: u8 = v & 3;
        if t == 0 {
            ControllerType::Disconnected
        } else if t == 1 {
            ControllerType::Normal
        } else if t == 2 {
            ControllerType::Wavebird
        } else {
            ControllerType::Invalid
        }
    }

    /// The 2-bit encoding of this controller type.
    pub fn into_bits(self) -> (r: u8)
        ensures
            r < 4,
            controller_type_of(r) == self,
    {
        match self {
            ControllerType::Disconnected => 0,
            ControllerType::Normal => 1,
            ControllerType::Wavebird => 2,
            ControllerType::Invalid => 3,
        }
    }
}

impl Default for ControllerType {
    fn default() -> (r: Self)
        ensures
            r == ControllerType::Disconnected,
    {
        ControllerType::Disconnected
    }
}

/// Status of the controller in a port, packed in one byte: from the low bit
/// up, `unk`, `unk2`, `has_rumble`, `unk3`, the 2-bit controller type, and 2
/// bits of padding.
#[derive(Debug, Clone, Copy, PartialEq, Eq, Structural)]
pub struct ControllerStatus {
    bits: u8,
}

impl ControllerStatus {
    /// The packed byte.
    pub closed spec fn view_bits(self) -> u8 {
        self.bits
    }

    pub fn from_bytes(bytes: [u8; 1]) -> (r: Self)
        ensures
            r.view_bits() == bytes[0],
    {
        ControllerStatus { bits: bytes[0] }
    }

    pub fn into_bytes(self) -> (r: [u8; 1])
        ensures
            r[0] == self.view_bits(),
    {
        [self.bits]
    }

    pub fn unk(&self) -> (r: bool)
        ensures
            r == bit_of(self.view_bits() as u16, 0),
    {
        (self.bits as u16 >> 0u16) & 1 == 1
    }

    pub fn unk2(&self) -> (r: bool)
        ensures
            r == bit_of(self.view_bits() as u16, 1),
    {
        (self.bits as u16 >> 1u16) & 1 == 1
    }

    pub fn has_rumble(&self) -> (r: bool)
        ensures
            r == bit_of(self.view_bits() as u16, 2),
    {
        (self.bits as u16 >> 2u16) & 1 == 1
    }

    pub fn unk3(&self) -> (r: bool)
        ensures
            r == bit_of(self.view_bits() as u16, 3),
    {
        (self.bits as u16 >> 3u16) & 1 == 1
    }

    pub fn controller_type(&self) -> (r: ControllerType)
        ensures
            r == controller_type_of((self.view_bits() >> 4u8) & 3),
    {
        ControllerType::from_bits(self.bits >> 4u8)
    }
}

impl Default for ControllerStatus {
    fn default() -> (r: Self)
        ensures
            r.view_bits() == 0,
    {
        ControllerStatus { bits: 0 }
    }
}

/// Which buttons are pressed, packed in two bytes (little-endian): from the
/// low bit up, `a`, `b`, `x`, `y`, `dpad_left`, `dpad_right`, `dpad_down`,
/// `dpad_up`, `start`, `z`, `right_trigger`, `left_trigger`, and 4 bits of
/// padding.
///
/// `right_trigger` and `left_trigger` are the digital clicks at the end of
/// the triggers' travel; the analog part is in [`Triggers`].
#[derive(Debug, Clone, Copy, PartialEq, Eq, Structural)]
pub struct Buttons {
    bits: u16,
}

impl Buttons {
    /// The packed bits, the first byte in the low half.
    pub closed spec fn view_bits(self) -> u16 {
        self.bits
    }

    pub fn from_bytes(bytes: [u8; 2]) -> (r: Self)
        ensures
            r.view_bits() == bytes[0] + 256 * bytes[1],
    {
        Buttons { bits: bytes[0] as u16 + 256 * (bytes[1] as u16) }
    }

    pub fn into_bytes(self) -> (r: [u8; 2])
        ensures
            r[0] + 256 * r[1] == self.view_bits(),
    {
        [(self.bits % 256) as u8, (self.bits / 256) as u8]
    }

    pub fn a(&self) -> (r: bool)
        ensures
            r == bit_of(self.view_bits(), 0),
    {
        (self.bits >> 0u16) & 1 == 1
    }

    pub fn b(&self) -> (r: bool)
        ensures
            r == bit_of(self.view_bits(), 1),
    {
        (self.bits >> 1u16) & 1 == 1
    }

    pub fn x(&self) -> (r: bool)
        ensures
            r == bit_of(self.view_bits(), 2),
    {
        (self.bits >> 2u16) & 1 == 1
    }

    pub fn y(&self) -> (r: bool)
        ensures
            r == bit_of(self.view_bits(), 3),
    {
        (self.bits >> 3u16) & 1 == 1
    }

    pub fn dpad_left(&self) -> (r: bool)
        ensures
            r == bit_of(self.view_bits(), 4),
    {
        (self.bits >> 4u16) & 1 == 1
    }

    pub fn dpad_right(&self) -> (r: bool)
        ensures
            r == bit_of(self.view_bits(), 5),
    {
        (self.bits >> 5u16) & 1 == 1
    }

    pub fn dpad_down(&self) -> (r: bool)
        ensures
            r == bit_of(self.view_bits(), 6),
    {
        (self.bits >> 6u16) & 1 == 1
    }

    pub fn dpad_up(&self) -> (r: bool)
        ensures
            r == bit_of(self.view_bits(), 7),
    {
        (self.bits >> 7u16) & 1 == 1
    }

    pub fn start(&self) -> (r: bool)
        ensures
            r == bit_of(self.view_bits(), 8),
    {
        (self.bits >> 8u16) & 1 == 1
    }

    pub fn z(&self) -> (r: bool)
        ensures
            r == bit_of(self.view_bits(), 9),
    {
        (self.bits >> 9u16) & 1 == 1
    }

    pub fn right_trigger(&self) -> (r: bool)
        ensures
            r == bit_of(self.view_bits(), 10),
    {
        (self.bits >> 10u16) & 1 == 1
    }

    pub fn left_trigger(&self) -> (r: bool)
        ensures
            r == bit_of(self.view_bits(), 11),
    {
        (self.bits >> 11u16) & 1 == 1
    }

    /// The 4 padding bits, as found in the frame.
    pub fn padding(&self) -> (r: u8)
        ensures
            r == self.view_bits() >> 12u16,
    {
        let bits: u16 = self.bits;
        let v: u16 = bits >> 12u16;
        assert(bits >> 12u16 < 16) by (bit_vector);
        v as u8
    }
}

impl Default for Buttons {
    fn default() -> (r: Self)
        ensures
            r.view_bits() == 0,
    {
        Buttons { bits: 0 }
    }
}

/// An analog control stick, left or right.
#[derive(Debug, Default, Clone, Copy, PartialEq, Eq, Structural)]
pub struct Stick {
    pub x: SignedAxis,
    pub y: InvertedSignedAxis,
}

impl Stick {
    /// The raw samples, where about 127.5 is the center.
    pub fn raw(&self) -> (r: (u8, u8))
        ensures
            r == (self.x.0, self.y.0),
    {
        (self.x.raw(), self.y.raw())
    }

    /// The position as two exact fractions in [-1, 1], x then y.
    pub fn fractions(&self) -> (r: (Fraction, Fraction))
        ensures
            r == (signed_fraction(self.x.0), inverted_fraction(self.y.0)),
    {
        (self.x.fraction(), self.y.fraction())
    }

    /// The position relative to a center taken from [`Stick::raw`] at rest.
    pub fn fractions_centered(&self, center: (u8, u8)) -> (r: (Fraction, Fraction))
        ensures
            r == (centered_fraction(self.x.0, center.0), inverted_centered_fraction(
                self.y.0,
                center.1,
            )),
    {
        (self.x.fraction_centered(center.0), self.y.fraction_centered(center.1))
    }
}

/// The two analog triggers. For their digital clicks see [`Buttons`].
#[derive(Debug, Default, Clone, Copy, PartialEq, Eq, Structural)]
pub struct Triggers {
    pub left: UnsignedAxis,
    pub right: UnsignedAxis,
}

/// One controller port. Only the status is meaningful unless the port is
/// connected.
#[derive(Debug, Clone, Copy, PartialEq, Eq, Structural)]
pub struct Controller {
    pub status: ControllerStatus,
    pub buttons: Buttons,
    pub left_stick: Stick,
    pub right_stick: Stick,
    pub triggers: Triggers,
}

/// The derived debug rendering of a controller whose port record is
/// `record`. Every field of a controller is read from its 9 record bytes, so
/// the text depends on those bytes alone.
pub uninterp spec fn debug_rendering(record: Seq<u8>) -> Seq<char>;

/// The 9 port-record bytes that a controller holds.
pub open spec fn record_of(c: Controller) -> Seq<u8> {
    seq![
        c.status.view_bits(),
        (c.buttons.view_bits() % 256) as u8,
        (c.buttons.view_bits() / 256) as u8,
        c.left_stick.x.0,
        c.left_stick.y.0,
        c.right_stick.x.0,
        c.right_stick.y.0,
        c.triggers.left.0,
        c.triggers.right.0,
    ]
}

/// Relies on std's `format!` over the `Debug` that `derive` writes for
/// `Controller` and its field types: the text is a function of the field
/// values.
#[verifier::external_body]
fn debug_text(c: &Controller) -> (r: String)
    ensures
        r@ == debug_rendering(record_of(*c)),
{
    format!("{:?}", c)
}

impl Controller {
    /// The controller type that the status byte holds.
    pub open spec fn spec_controller_type(self) -> ControllerType {
        controller_type_of((self.status.view_bits() >> 4u8) & 3)
    }

    pub open spec fn spec_connected(self) -> bool {
        self.spec_controller_type() == ControllerType::Normal
            || self.spec_controller_type() == ControllerType::Wavebird
    }

    /// Every byte of the port record is zero.
    pub open spec fn is_blank(self) -> bool {
        &&& self.status.view_bits() == 0
        &&& self.buttons.view_bits() == 0
        &&& self.left_stick.x.0 == 0 && self.left_stick.y.0 == 0
        &&& self.right_stick.x.0 == 0 && self.right_stick.y.0 == 0
        &&& self.triggers.left.0 == 0 && self.triggers.right.0 == 0
    }

    /// Whether a Normal or Wavebird controller is plugged into the port.
    pub fn connected(&self) -> (r: bool)
        ensures
            r == self.spec_connected(),
    {
        match self.status.controller_type() {
            ControllerType::Normal | ControllerType::Wavebird => true,
            ControllerType::Disconnected | ControllerType::Invalid => false,
        }
    }

    /// A diagnostic rendering: every field when connected, and a single
    /// fixed text otherwise, so that stale values are not shown.
    pub fn describe(&self) -> (r: String)
        ensures
            !self.spec_connected() ==> r@ == "Controller(Disconnected)"@,
            self.spec_connected() ==> r@ == debug_rendering(record_of(*self)),
    {
        if self.connected() {
            debug_text(self)
        } else {
            "Controller(Disconnected)".to_owned()
        }
    }
}

impl Default for Controller {
    fn default() -> (r: Self)
        ensures
            r.is_blank(),
            !r.spec_connected(),
    {
        let r = Controller {
            status: ControllerStatus::default(),
            buttons: Buttons::default(),
            left_stick: Stick { x: SignedAxis(0), y: InvertedSignedAxis(0) },
            right_stick: Stick { x: SignedAxis(0), y: InvertedSignedAxis(0) },
            triggers: Triggers { left: UnsignedAxis(0), right: UnsignedAxis(0) },
        };
        proof {
            blank_is_disconnected(r);
        }
        r
    }
}

/// `c` is the decoding of the 9-byte port record of `b` that starts at
/// `start`.
pub open spec fn port_decoded(c: Controller, b: Seq<u8>, start: int) -> bool {
    &&& c.status.view_bits() == b[start]
    &&& c.buttons.view_bits() == b[start + 1] + 256 * b[start + 2]
    &&& c.left_stick.x.0 == b[start + 3]
    &&& c.left_stick.y.0 == b[start + 4]
    &&& c.right_stick.x.0 == b[start + 5]
    &&& c.right_stick.y.0 == b[start + 6]
    &&& c.triggers.left.0 == b[start + 7]
    &&& c.triggers.right.0 == b[start + 8]
}

/// Where the record of port `i` starts in a frame.
pub open spec fn port_start(i: int) -> int {
    1 + 9 * i
}

/// One frame from the adapter.
#[derive(Debug, Clone, Copy, PartialEq, Eq)]
pub enum Packet {
    /// The state of the four ports, in port order.
    ControllerInfo { ports: [Controller; 4] },
    /// A frame with another first byte, which is kept.
    Unknown(u8),
}

/// `p` is the decoding of the frame `b`: the four port records when the
/// first byte is the marker, else that first byte alone.
pub open spec fn decodes_to(b: Seq<u8>, p: Packet) -> bool {
    match p {
        Packet::ControllerInfo { ports } => b[0] == CONTROLLER_INFO_MARKER && forall|i: int|
            0 <= i < 4 ==> port_decoded(#[trigger] ports[i], b, port_start(i)),
        Packet::Unknown(tag) => b[0] != CONTROLLER_INFO_MARKER && tag == b[0],
    }
}

/// A buffer whose length is not that of a frame.
#[derive(Debug, Clone, Copy, PartialEq, Eq, Structural)]
pub struct DecodeLengthError {
    pub len: usize,
}

fn decode_port(b: &[u8], start: usize) -> (r: Controller)
    requires
        start + PORT_LEN <= b@.len(),
    ensures
        port_decoded(r, b@, start as int),
{
    Controller {
        status: ControllerStatus::from_bytes([b[start]]),
        buttons: Buttons::from_bytes([b[start + 1], b[start + 2]]),
        left_stick: Stick { x: SignedAxis(b[start + 3]), y: InvertedSignedAxis(b[start + 4]) },
        right_stick: Stick { x: SignedAxis(b[start + 5]), y: InvertedSignedAxis(b[start + 6]) },
        triggers: Triggers { left: UnsignedAxis(b[start + 7]), right: UnsignedAxis(b[start + 8]) },
    }
}

fn decode_frame(b: &[u8]) -> (r: Packet)
    requires
        b@.len() == FRAME_LEN,
    ensures
        decodes_to(b@, r),
{
    let tag = b[0];
    if tag != CONTROLLER_INFO_MARKER {
        return Packet::Unknown(tag);
    }
    let ports = [decode_port(b, 1), decode_port(b, 10), decode_port(b, 19), decode_port(b, 28)];
    assert(forall|i: int| 0 <= i < 4 ==> port_decoded(#[trigger] ports[i], b@, port_start(i))) by {
        assert(port_start(0) == 1 && port_start(1) == 10);
        assert(port_start(2) == 19 && port_start(3) == 28);
    }
    Packet::ControllerInfo { ports }
}

impl Packet {
    /// Decodes a frame.
    pub fn parse(buffer: [u8; 37]) -> (r: Self)
        ensures
            decodes_to(buffer@, r),
    {
        decode_frame(&buffer)
    }

    /// Decodes a buffer, which must be exactly one frame long.
    pub fn decode(bytes: &[u8]) -> (r: Result<Self, DecodeLengthError>)
        ensures
            bytes@.len() != FRAME_LEN <==> r is Err,
            r matches Err(e) ==> e.len == bytes@.len(),
            bytes@.len() < FRAME_LEN ==> r == Err::<Packet, DecodeLengthError>(
                DecodeLengthError { len: bytes@.len() as usize },
            ),
            r matches Ok(p) ==> decodes_to(bytes@, p),
    {
        if bytes.len() != FRAME_LEN {
            return Err(DecodeLengthError { len: bytes.len() });
        }
        Ok(decode_frame(bytes))
    }
}

/// Two controllers decoded from the same record are equal.
proof fn port_decoded_unique(c1: Controller, c2: Controller, b: Seq<u8>, start: int)
    requires
        port_decoded(c1, b, start),
        port_decoded(c2, b, start),
    ensures
        c1 == c2,
{
    assert(c1.status == c2.status);
    assert(c1.buttons == c2.buttons);
}

/// Decoding is a function of the bytes alone: decoding the same frame twice
/// gives equal packets.
pub proof fn decode_deterministic(b: Seq<u8>, p1: Packet, p2: Packet)
    requires
        b.len() == FRAME_LEN,
        decodes_to(b, p1),
        decodes_to(b, p2),
    ensures
        p1 == p2,
{
    broadcast use vstd::array::group_array_axioms;

    match (p1, p2) {
        (Packet::ControllerInfo { ports: a1 }, Packet::ControllerInfo { ports: a2 }) => {
            assert forall|i: int| 0 <= i < 4 implies a1[i] == a2[i] by {
                port_decoded_unique(a1[i], a2[i], b, port_start(i));
            }
            assert(a1@ =~= a2@);
            assert(a1 == a2);
        },
        _ => {},
    }
}

/// A frame whose first byte is not the marker decodes to that byte alone,
/// whatever the other bytes hold.
pub proof fn unmarked_frame_is_unknown(b: Seq<u8>, p: Packet)
    requires
        b.len() == FRAME_LEN,
        b[0] != CONTROLLER_INFO_MARKER,
        decodes_to(b, p),
    ensures
        p == Packet::Unknown(b[0]),
{
}

/// A decoded port is connected exactly when bits 4 and 5 of its status byte
/// encode Normal (01) or Wavebird (10).
pub proof fn connected_from_type_bits(c: Controller, b: Seq<u8>, start: int)
    requires
        port_decoded(c, b, start),
    ensures
        c.spec_connected() <==> ((b[start] >> 4u8) & 3 == 1 || (b[start] >> 4u8) & 3 == 2),
{
}

/// A blank port reads as disconnected.
pub proof fn blank_is_disconnected(c: Controller)
    requires
        c.is_blank(),
    ensures
        !c.spec_connected(),
        c.spec_controller_type() == ControllerType::Disconnected,
{
    assert((0u8 >> 4u8) & 3 == 0) by (bit_vector);
}

} // verus!
