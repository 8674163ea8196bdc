//! Typed unit values with their validity predicates.
//!
//! The sensor reports every quantity as a 16-bit register holding a
//! fixed-point number with two decimal places, so each unit type keeps
//! its value in hundredths (centi-units). This keeps the conversion
//! from the wire exact: a register word maps to a value and back
//! without rounding.

use vstd::prelude::*;

verus! {

/// (Thermodynamic) temperature, in hundredths of a degree Celsius.
///
/// Any value is admissible: the device range is bounded, but decoding
/// deliberately never rejects a temperature register.
#[derive(Clone, Copy, Debug, PartialEq, Eq, Structural)]
pub struct Temperature {
    pub centi_celsius: i32,
}

impl Temperature {
    /// Build a temperature from hundredths of a degree Celsius.
    pub fn from_centi_celsius(centi_celsius: i32) -> (t: Self)
        ensures
            t.centi_celsius == centi_celsius,
    {
        Temperature { centi_celsius }
    }

    /// The value in hundredths of a degree Celsius.
    pub fn to_centi_celsius(self) -> (r: i32)
        ensures
            r == self.centi_celsius,
    {
        self.centi_celsius
    }
}

/// Volumetric water content (VWC), in hundredths of a percent.
///
/// A value is physically valid iff it lies between 0 % and 100 %.
#[derive(Clone, Copy, Debug, PartialEq, Eq, Structural)]
pub struct VolumetricWaterContent {
    pub centi_percent: i32,
}

impl VolumetricWaterContent {
    /// Build a water content from hundredths of a percent, valid or not.
    pub fn from_centi_percent(centi_percent: i32) -> (v: Self)
        ensures
            v.centi_percent == centi_percent,
    {
        VolumetricWaterContent { centi_percent }
    }

    /// The value in hundredths of a percent.
    pub fn to_centi_percent(self) -> (r: i32)
        ensures
            r == self.centi_percent,
    {
        self.centi_percent
    }

    /// The lower bound of the valid range, in hundredths of a percent.
    pub fn min_centi_percent() -> (r: i32)
        ensures
            r == 0,
    {
        0
    }

    /// The upper bound of the valid range, in hundredths of a percent.
    pub fn max_centi_percent() -> (r: i32)
        ensures
            r == 10000,
    {
        10000
    }

    /// The smallest valid water content: 0 %.
    pub fn min() -> (v: Self)
        ensures
            v.centi_percent == 0,
    {
        VolumetricWaterContent { centi_percent: 0 }
    }

    /// The largest valid water content: 100 %.
    pub fn max() -> (v: Self)
        ensures
            v.centi_percent == 10000,
    {
        VolumetricWaterContent { centi_percent: 10000 }
    }

    /// Validity: between 0 % and 100 % inclusive.
    pub open spec fn spec_is_valid(self) -> bool {
        0 <= self.centi_percent <= 10000
    }

    /// Whether the value lies in the physically valid range.
    pub fn is_valid(self) -> (r: bool)
        ensures
            r == self.spec_is_valid(),
    {
        0 <= self.centi_percent && self.centi_percent <= 10000
    }
}

/// Relative permittivity or dielectric constant (DK), in hundredths.
///
/// A value is physically valid iff the ratio is at least 1.
#[derive(Clone, Copy, Debug, PartialEq, Eq, Structural)]
pub struct RelativePermittivity {
    pub centi_ratio: i32,
}

impl RelativePermittivity {
    /// Build a permittivity from hundredths of the ratio, valid or not.
    pub fn from_centi_ratio(centi_ratio: i32) -> (p: Self)
        ensures
            p.centi_ratio == centi_ratio,
    {
        RelativePermittivity { centi_ratio }
    }

    /// The ratio in hundredths.
    pub fn to_centi_ratio(self) -> (r: i32)
        ensures
            r == self.centi_ratio,
    {
        self.centi_ratio
    }

    /// The lower bound of the valid range, in hundredths of the ratio.
    pub fn min_centi_ratio() -> (r: i32)
        ensures
            r == 100,
    {
        100
    }

    /// The smallest valid permittivity: the ratio 1 (vacuum).
    pub fn min() -> (p: Self)
        ensures
            p.centi_ratio == 100,
    {
        RelativePermittivity { centi_ratio: 100 }
    }

    /// Validity: a ratio of at least 1.
    pub open spec fn spec_is_valid(self) -> bool {
        self.centi_ratio >= 100
    }

    /// Whether the value lies in the physically valid range.
    pub fn is_valid(self) -> (r: bool)
        ensures
            r == self.spec_is_valid(),
    {
        self.centi_ratio >= 100
    }
}

/// The raw, uncalibrated sensor signal: a bare 16-bit count.
#[derive(Clone, Copy, Debug, PartialEq, Eq, PartialOrd, Ord, Hash, Structural)]
pub struct RawCounts(pub u16);

impl Default for RawCounts {
    /// The zero count.
    fn default() -> (r: Self)
        ensures
            r.0 == 0,
    {
        RawCounts(0)
    }
}

impl From<u16> for RawCounts {
    fn from(from: u16) -> (r: Self) {
        RawCounts(from)
    }
}

impl vstd::std_specs::convert::FromSpecImpl<u16> for RawCounts {
    open spec fn obeys_from_spec() -> bool {
        true
    }

    open spec fn from_spec(from: u16) -> Self {
        RawCounts(from)
    }
}

impl From<RawCounts> for u16 {
    fn from(from: RawCounts) -> (r: Self) {
        from.0
    }
}

impl vstd::std_specs::convert::FromSpecImpl<RawCounts> for u16 {
    open spec fn obeys_from_spec() -> bool {
        true
    }

    open spec fn from_spec(from: RawCounts) -> Self {
        from.0
    }
}

} // verus!
