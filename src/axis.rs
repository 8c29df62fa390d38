//! Raw 8-bit axis samples and their normalized values.
//!
//! A normalized value is given exactly, as a fraction `num / den` of
//! integers; turning it into a float is a single division left to the caller.
use vstd::prelude::*;

verus! {

/// The largest raw sample.
pub const AXIS_MAX: u8 = 255;

/// An exact rational value `num / den`, with `den >= 1`.
#[derive(Debug, Clone, Copy, PartialEq, Eq, Structural)]
pub struct Fraction {
    pub num: i16,
    pub den: u16,
}

impl Fraction {
    /// The denominator is positive, so the value is always defined.
    pub open spec fn wf(self) -> bool {
        self.den >= 1
    }

    /// `self <= other` as rationals (both denominators positive).
    pub open spec fn le(self, other: Fraction) -> bool {
        self.num * other.den <= other.num * self.den
    }

    /// `lo <= self <= hi` where `lo = lo_num / 1` and `hi = hi_num / 1`.
    pub open spec fn within(self, lo: int, hi: int) -> bool {
        lo * self.den <= self.num && self.num <= hi * self.den
    }
}

/// The scale of the centered conversion: the distance from `center` to the
/// end of the range on the side of `raw`, at least 1.
pub open spec fn centered_scale(raw: u8, center: u8) -> int {
    if raw > center {
        if 255 - center >= 1 { 255 - center } else { 1 }
    } else {
        if center >= 1 { center as int } else { 1 }
    }
}

/// `raw / 255`.
pub open spec fn unsigned_fraction(raw: u8) -> Fraction {
    Fraction { num: raw as i16, den: 255 }
}

/// `(raw - 127.5) / 127.5`, written as `(2 * raw - 255) / 255`.
pub open spec fn signed_fraction(raw: u8) -> Fraction {
    Fraction { num: (2 * raw - 255) as i16, den: 255 }
}

/// `(127.5 - raw) / 127.5`, written as `(255 - 2 * raw) / 255`.
pub open spec fn inverted_fraction(raw: u8) -> Fraction {
    Fraction { num: (255 - 2 * raw) as i16, den: 255 }
}

/// `(raw - center) / centered_scale(raw, center)`.
pub open spec fn centered_fraction(raw: u8, center: u8) -> Fraction {
    Fraction { num: (raw - center) as i16, den: centered_scale(raw, center) as u16 }
}

/// `(center - raw) / centered_scale(raw, center)`.
pub open spec fn inverted_centered_fraction(raw: u8, center: u8) -> Fraction {
    Fraction { num: (center - raw) as i16, den: centered_scale(raw, center) as u16 }
}

fn scale_for(raw: u8, center: u8) -> (r: u16)
    ensures
        r as int == centered_scale(raw, center),
{
    if raw > center {
        let above: u8 = AXIS_MAX - center;
        if above >= 1 { above as u16 } else { 1 }
    } else {
        if center >= 1 { center as u16 } else { 1 }
    }
}

/// A stick axis sample, nominally centered at 127.5.
#[derive(Debug, Default, Clone, Copy, PartialEq, Eq, Structural)]
pub struct SignedAxis(pub u8);

impl SignedAxis {
    pub fn from_raw(val: u8) -> (r: Self)
        ensures
            r.0 == val,
    {
        SignedAxis(val)
    }

    pub fn raw(&self) -> (r: u8)
        ensures
            r == self.0,
    {
        self.0
    }

    /// `(raw - 127.5) / 127.5`, written as `(2 * raw - 255) / 255`.
    pub fn fraction(&self) -> (r: Fraction)
        ensures
            r == signed_fraction(self.0),
    {
        Fraction { num: 2 * (self.0 as i16) - 255, den: 255 }
    }

    /// `(raw - center) / scale`, where the scale is the distance from the
    /// center to the end of the range on the side of the sample, at least 1.
    pub fn fraction_centered(&self, center: u8) -> (r: Fraction)
        ensures
            r == centered_fraction(self.0, center),
    {
        Fraction { num: (self.0 as i16) - (center as i16), den: scale_for(self.0, center) }
    }
}

/// A stick axis sample whose direction is reversed: a larger raw value is a
/// smaller reading.
#[derive(Debug, Default, Clone, Copy, PartialEq, Eq, Structural)]
pub struct InvertedSignedAxis(pub u8);

impl InvertedSignedAxis {
    pub fn from_raw(val: u8) -> (r: Self)
        ensures
            r.0 == val,
    {
        InvertedSignedAxis(val)
    }

    pub fn raw(&self) -> (r: u8)
        ensures
            r == self.0,
    {
        self.0
    }

    /// `(127.5 - raw) / 127.5`, written as `(255 - 2 * raw) / 255`.
    pub fn fraction(&self) -> (r: Fraction)
        ensures
            r == inverted_fraction(self.0),
    {
        Fraction { num: 255 - 2 * (self.0 as i16), den: 255 }
    }

    /// `(center - raw) / scale`, with the scale of the non-inverted axis.
    pub fn fraction_centered(&self, center: u8) -> (r: Fraction)
        ensures
            r == inverted_centered_fraction(self.0, center),
    {
        Fraction { num: (center as i16) - (self.0 as i16), den: scale_for(self.0, center) }
    }
}

/// A trigger sample: zero at rest, 255 fully pressed.
#[derive(Debug, Default, Clone, Copy, PartialEq, Eq, Structural)]
pub struct UnsignedAxis(pub u8);

impl UnsignedAxis {
    pub fn from_raw(val: u8) -> (r: Self)
        ensures
            r.0 == val,
    {
        UnsignedAxis(val)
    }

    pub fn raw(&self) -> (r: u8)
        ensures
            r == self.0,
    {
        self.0
    }

    /// `raw / 255`.
    pub fn fraction(&self) -> (r: Fraction)
        ensures
            r == unsigned_fraction(self.0),
    {
        Fraction { num: self.0 as i16, den: 255 }
    }
}

/// A trigger reading lies in [0, 1], never decreases as the raw sample
/// grows, and is exactly 0 at raw 0 and exactly 1 at raw 255.
pub proof fn unsigned_fraction_law(a: u8, b: u8)
    ensures
        unsigned_fraction(a).wf(),
        unsigned_fraction(a).within(0, 1),
        a <= b ==> unsigned_fraction(a).le(unsigned_fraction(b)),
        unsigned_fraction(0).num == 0,
        unsigned_fraction(255).num == unsigned_fraction(255).den,
{
}

/// The uncentered stick reading lies in [-1, 1], is exactly -1 at raw 0 and
/// exactly 1 at raw 255, and is within 1/127.5 of 0 at raw 127 and 128.
pub proof fn signed_fraction_law(raw: u8)
    ensures
        signed_fraction(raw).wf(),
        signed_fraction(raw).within(-1, 1),
        signed_fraction(0).num == -(signed_fraction(0).den as int),
        signed_fraction(255).num == signed_fraction(255).den,
        (raw == 127 || raw == 128) ==> 255 * (if signed_fraction(raw).num < 0 {
            -signed_fraction(raw).num
        } else {
            signed_fraction(raw).num as int
        }) <= 2 * signed_fraction(raw).den,
{
}

/// A sample equal to the center reads exactly 0, for every center.
pub proof fn centered_at_center_is_zero(center: u8)
    ensures
        centered_fraction(center, center).num == 0,
        inverted_centered_fraction(center, center).num == 0,
{
}

/// The centered scale is never 0, whatever the center (0 and 255 included),
/// so the reading is always a defined value in [-1, 1].
pub proof fn centered_fraction_defined(raw: u8, center: u8)
    ensures
        centered_fraction(raw, center).wf(),
        centered_fraction(raw, center).within(-1, 1),
        inverted_centered_fraction(raw, center).wf(),
        inverted_centered_fraction(raw, center).within(-1, 1),
        centered_fraction(0, 0) == (Fraction { num: 0, den: 1 }),
{
}

/// The inverted readings are the negations of the non-inverted ones over the
/// same denominator, centered or not.
pub proof fn inverted_fraction_negates(raw: u8, center: u8)
    ensures
        inverted_centered_fraction(raw, center).num == -centered_fraction(raw, center).num,
        inverted_centered_fraction(raw, center).den == centered_fraction(raw, center).den,
        inverted_fraction(raw).num == -signed_fraction(raw).num,
        inverted_fraction(raw).den == signed_fraction(raw).den,
{
}

} // verus!
