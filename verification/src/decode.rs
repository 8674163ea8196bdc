//! Register decoding: from big-endian 16-bit register words (and raw
//! byte buffers) to validated unit values, and back.
//!
//! Every quantity occupies one holding register. The spec functions
//! here are the mathematical statement of the register format; the
//! executable decoders are proved equal to them, and the round-trip
//! lemmas relate decoding and encoding.

use vstd::prelude::*;

use crate::units::RawCounts;
use crate::units::RelativePermittivity;
use crate::units::Temperature;
use crate::units::VolumetricWaterContent;

verus! {

/// Why a register or byte buffer could not be decoded.
#[derive(Clone, Copy, Debug, Eq, PartialEq, Structural)]
pub enum DecodeError {
    /// Fewer bytes were supplied than the quantity needs.
    InsufficientInput,
    /// The input was structurally malformed.
    InvalidInput,
    /// The register value lies outside the quantity's valid range.
    InvalidData,
}

pub type DecodeResult<T> = Result<T, DecodeError>;

pub const TEMPERATURE_REG_START: u16 = 0x0000;

pub const TEMPERATURE_REG_COUNT: u16 = 0x0001;

pub const WATER_CONTENT_REG_START: u16 = 0x0001;

pub const WATER_CONTENT_REG_COUNT: u16 = 0x0001;

pub const PERMITTIVITY_REG_START: u16 = 0x0002;

pub const PERMITTIVITY_REG_COUNT: u16 = 0x0001;

pub const RAW_COUNTS_REG_START: u16 = 0x0003;

pub const RAW_COUNTS_REG_COUNT: u16 = 0x0001;

/// The reserved broadcast slave address, accepted by every device.
pub const BROADCAST_SLAVE_ADDR: u8 = 0xFD;

/// The register that assigns a device its permanent slave address.
pub const BROADCAST_REG_ADDR: u16 = 0x0004;

/// The big-endian 16-bit word formed by two bytes.
pub open spec fn spec_be_u16(hi: u8, lo: u8) -> u16 {
    (hi * 256 + lo) as u16
}

/// The temperature a register word stands for: an offset of 100 degrees
/// below zero, in hundredths of a degree. Every word decodes.
pub open spec fn spec_decode_temperature(raw: u16) -> Temperature {
    Temperature { centi_celsius: (raw - 10000) as i32 }
}

/// The water content a register word stands for, if it is in range:
/// the word counts hundredths of a percent, valid up to 100 %.
pub open spec fn spec_decode_water_content(raw: u16) -> DecodeResult<VolumetricWaterContent> {
    if raw <= 10000 {
        Ok(VolumetricWaterContent { centi_percent: raw as i32 })
    } else {
        Err(DecodeError::InvalidData)
    }
}

/// The permittivity a register word stands for, if it is in range:
/// the word counts hundredths of the ratio, valid from 1 upward.
pub open spec fn spec_decode_permittivity(raw: u16) -> DecodeResult<RelativePermittivity> {
    if raw >= 100 {
        Ok(RelativePermittivity { centi_ratio: raw as i32 })
    } else {
        Err(DecodeError::InvalidData)
    }
}

/// The register word a temperature writes back to, if it fits.
pub open spec fn spec_encode_temperature(t: Temperature) -> DecodeResult<u16> {
    if -10000 <= t.centi_celsius <= 55535 {
        Ok((t.centi_celsius + 10000) as u16)
    } else {
        Err(DecodeError::InvalidData)
    }
}

/// The register word a water content writes back to, if it is valid.
pub open spec fn spec_encode_water_content(v: VolumetricWaterContent) -> DecodeResult<u16> {
    if 0 <= v.centi_percent <= 10000 {
        Ok(v.centi_percent as u16)
    } else {
        Err(DecodeError::InvalidData)
    }
}

/// The register word a permittivity writes back to, if it fits.
pub open spec fn spec_encode_permittivity(p: RelativePermittivity) -> DecodeResult<u16> {
    if 100 <= p.centi_ratio <= 65535 {
        Ok(p.centi_ratio as u16)
    } else {
        Err(DecodeError::InvalidData)
    }
}

/// Read the first two bytes of `input` as one big-endian 16-bit word
/// and hand back the word together with the unconsumed remainder.
pub fn decode_be_u16_from_bytes<'a>(input: &'a [u8]) -> (r: DecodeResult<(u16, &'a [u8])>)
    ensures
        input@.len() < 2 ==> r == Err::<(u16, &'a [u8]), DecodeError>(DecodeError::InsufficientInput),
        input@.len() >= 2 ==> (r matches Ok(p) && p.0 == spec_be_u16(input@[0], input@[1])
            && p.1@ == input@.subrange(2, input@.len() as int)),
{
    if input.len() < 2 {
        return Err(DecodeError::InsufficientInput);
    }
    let hi = *vstd::slice::slice_index_get(input, 0);
    let lo = *vstd::slice::slice_index_get(input, 1);
    let rest = vstd::slice::slice_subrange(input, 2, input.len());
    Ok(((hi as u16) * 256 + (lo as u16), rest))
}

/// Decode a temperature register word. Never fails.
pub fn decode_temperature_from_u16(input: u16) -> (r: DecodeResult<Temperature>)
    ensures
        r == Ok::<Temperature, DecodeError>(spec_decode_temperature(input)),
{
    Ok(Temperature::from_centi_celsius(input as i32 - 10000))
}

/// Decode a temperature from the first two bytes of a buffer.
pub fn decode_temperature_from_bytes<'a>(input: &'a [u8]) -> (r: DecodeResult<
    (Temperature, &'a [u8]),
>)
    ensures
        input@.len() < 2 ==> r == Err::<(Temperature, &'a [u8]), DecodeError>(
            DecodeError::InsufficientInput,
        ),
        input@.len() >= 2 ==> (r matches Ok(p) && p.0 == spec_decode_temperature(
            spec_be_u16(input@[0], input@[1]),
        ) && p.1@ == input@.subrange(2, input@.len() as int)),
{
    match decode_be_u16_from_bytes(input) {
        Ok((word, rest)) => match decode_temperature_from_u16(word) {
            Ok(t) => Ok((t, rest)),
            Err(e) => Err(e),
        },
        Err(e) => Err(e),
    }
}

/// A water content register word, still undecoded.
#[derive(Clone, Copy, Debug, PartialEq, Eq, Structural)]
pub struct VolumetricWaterContentRaw(pub u16);

impl From<VolumetricWaterContentRaw> for VolumetricWaterContent {
    fn from(from: VolumetricWaterContentRaw) -> (r: Self) {
        VolumetricWaterContent::from_centi_percent(from.0 as i32)
    }
}

impl vstd::std_specs::convert::FromSpecImpl<VolumetricWaterContentRaw> for VolumetricWaterContent {
    open spec fn obeys_from_spec() -> bool {
        true
    }

    open spec fn from_spec(from: VolumetricWaterContentRaw) -> Self {
        VolumetricWaterContent { centi_percent: from.0 as i32 }
    }
}

/// Decode a water content register word, rejecting values above 100 %.
pub fn decode_water_content_from_u16(input: u16) -> (r: DecodeResult<VolumetricWaterContent>)
    ensures
        r == spec_decode_water_content(input),
{
    let res = VolumetricWaterContent::from(VolumetricWaterContentRaw(input));
    if res.is_valid() {
        Ok(res)
    } else {
        Err(DecodeError::InvalidData)
    }
}

/// Decode a water content from the first two bytes of a buffer.
pub fn decode_water_content_from_bytes<'a>(input: &'a [u8]) -> (r: DecodeResult<
    (VolumetricWaterContent, &'a [u8]),
>)
    ensures
        input@.len() < 2 ==> r == Err::<(VolumetricWaterContent, &'a [u8]), DecodeError>(
            DecodeError::InsufficientInput,
        ),
        input@.len() >= 2 ==> (match spec_decode_water_content(
            spec_be_u16(input@[0], input@[1]),
        ) {
            Ok(v) => r matches Ok(p) && p.0 == v && p.1@ == input@.subrange(
                2,
                input@.len() as int,
            ),
            Err(e) => r == Err::<(VolumetricWaterContent, &'a [u8]), DecodeError>(e),
        }),
{
    match decode_be_u16_from_bytes(input) {
        Ok((word, rest)) => match decode_water_content_from_u16(word) {
            Ok(v) => Ok((v, rest)),
            Err(e) => Err(e),
        },
        Err(e) => Err(e),
    }
}

/// A permittivity register word, still undecoded.
#[derive(Clone, Copy, Debug, PartialEq, Eq, Structural)]
pub struct RelativePermittivityRaw(pub u16);

impl From<RelativePermittivityRaw> for RelativePermittivity {
    fn from(from: RelativePermittivityRaw) -> (r: Self) {
        RelativePermittivity::from_centi_ratio(from.0 as i32)
    }
}

impl vstd::std_specs::convert::FromSpecImpl<RelativePermittivityRaw> for RelativePermittivity {
    open spec fn obeys_from_spec() -> bool {
        true
    }

    open spec fn from_spec(from: RelativePermittivityRaw) -> Self {
        RelativePermittivity { centi_ratio: from.0 as i32 }
    }
}

/// Decode a permittivity register word, rejecting ratios below 1.
pub fn decode_permittivity_from_u16(input: u16) -> (r: DecodeResult<RelativePermittivity>)
    ensures
        r == spec_decode_permittivity(input),
{
    let res = RelativePermittivity::from(RelativePermittivityRaw(input));
    if res.is_valid() {
        Ok(res)
    } else {
        Err(DecodeError::InvalidData)
    }
}

/// Decode a permittivity from the first two bytes of a buffer.
pub fn decode_permittivity_from_bytes<'a>(input: &'a [u8]) -> (r: DecodeResult<
    (RelativePermittivity, &'a [u8]),
>)
    ensures
        input@.len() < 2 ==> r == Err::<(RelativePermittivity, &'a [u8]), DecodeError>(
            DecodeError::InsufficientInput,
        ),
        input@.len() >= 2 ==> (match spec_decode_permittivity(spec_be_u16(input@[0], input@[1])) {
            Ok(p) => r matches Ok(q) && q.0 == p && q.1@ == input@.subrange(
                2,
                input@.len() as int,
            ),
            Err(e) => r == Err::<(RelativePermittivity, &'a [u8]), DecodeError>(e),
        }),
{
    match decode_be_u16_from_bytes(input) {
        Ok((word, rest)) => match decode_permittivity_from_u16(word) {
            Ok(p) => Ok((p, rest)),
            Err(e) => Err(e),
        },
        Err(e) => Err(e),
    }
}

/// Decode a raw counts register word: the identity, never fails.
pub fn decode_raw_counts_from_u16(input: u16) -> (r: DecodeResult<RawCounts>)
    ensures
        r matches Ok(c) && c.0 == input,
{
    Ok(RawCounts::from(input))
}

/// Decode raw counts from the first two bytes of a buffer.
pub fn decode_raw_counts_from_bytes<'a>(input: &'a [u8]) -> (r: DecodeResult<
    (RawCounts, &'a [u8]),
>)
    ensures
        input@.len() < 2 ==> r == Err::<(RawCounts, &'a [u8]), DecodeError>(
            DecodeError::InsufficientInput,
        ),
        input@.len() >= 2 ==> (r matches Ok(p) && p.0.0 == spec_be_u16(input@[0], input@[1])
            && p.1@ == input@.subrange(2, input@.len() as int)),
{
    match decode_be_u16_from_bytes(input) {
        Ok((word, rest)) => match decode_raw_counts_from_u16(word) {
            Ok(c) => Ok((c, rest)),
            Err(e) => Err(e),
        },
        Err(e) => Err(e),
    }
}

/// Encode a temperature back into its register word, if it fits the
/// register's range of -100.00 to 555.35 degrees Celsius.
pub fn encode_temperature_to_u16(t: Temperature) -> (r: DecodeResult<u16>)
    ensures
        r == spec_encode_temperature(t),
{
    if -10000 <= t.centi_celsius && t.centi_celsius <= 55535 {
        Ok((t.centi_celsius + 10000) as u16)
    } else {
        Err(DecodeError::InvalidData)
    }
}

/// Encode a water content back into its register word, if it is valid.
pub fn encode_water_content_to_u16(v: VolumetricWaterContent) -> (r: DecodeResult<u16>)
    ensures
        r == spec_encode_water_content(v),
{
    if 0 <= v.centi_percent && v.centi_percent <= 10000 {
        Ok(v.centi_percent as u16)
    } else {
        Err(DecodeError::InvalidData)
    }
}

/// Encode a permittivity back into its register word, if it fits.
pub fn encode_permittivity_to_u16(p: RelativePermittivity) -> (r: DecodeResult<u16>)
    ensures
        r == spec_encode_permittivity(p),
{
    if 100 <= p.centi_ratio && p.centi_ratio <= 65535 {
        Ok(p.centi_ratio as u16)
    } else {
        Err(DecodeError::InvalidData)
    }
}

/// Law: every register word decodes to a temperature by the fixed
/// offset formula, and encoding that temperature reproduces the word.
pub proof fn lemma_temperature_decode_total(raw: u16)
    ensures
        spec_decode_temperature(raw).centi_celsius == raw - 10000,
        spec_encode_temperature(spec_decode_temperature(raw)) == Ok::<u16, DecodeError>(raw),
{
}

/// Law: a register word up to 10000 decodes to the valid water content
/// of that many hundredths of a percent, which encodes back to the
/// same word; above 10000 decoding fails with invalid data.
pub proof fn lemma_water_content_decode(raw: u16)
    ensures
        raw <= 10000 ==> (spec_decode_water_content(raw) matches Ok(v) && v.centi_percent == raw
            && v.spec_is_valid() && spec_encode_water_content(v) == Ok::<u16, DecodeError>(raw)),
        raw > 10000 ==> spec_decode_water_content(raw) == Err::<VolumetricWaterContent,
            DecodeError,
        >(DecodeError::InvalidData),
{
}

/// Law: a register word of at least 100 decodes to the valid
/// permittivity of that many hundredths, which encodes back to the
/// same word; below 100 decoding fails with invalid data.
pub proof fn lemma_permittivity_decode(raw: u16)
    ensures
        raw >= 100 ==> (spec_decode_permittivity(raw) matches Ok(p) && p.centi_ratio == raw
            && p.spec_is_valid() && spec_encode_permittivity(p) == Ok::<u16, DecodeError>(raw)),
        raw < 100 ==> spec_decode_permittivity(raw) == Err::<RelativePermittivity, DecodeError>(
            DecodeError::InvalidData,
        ),
{
}

/// Law: a temperature within the register's range encodes to a word
/// that decodes back to the same temperature.
pub proof fn lemma_temperature_round_trip(t: Temperature)
    requires
        -10000 <= t.centi_celsius <= 55535,
    ensures
        spec_encode_temperature(t) matches Ok(raw) && spec_decode_temperature(raw) == t,
{
}

/// Law: a valid water content encodes to a word that decodes back to
/// the same value.
pub proof fn lemma_water_content_round_trip(v: VolumetricWaterContent)
    requires
        v.spec_is_valid(),
    ensures
        spec_encode_water_content(v) matches Ok(raw) && spec_decode_water_content(raw)
            == Ok::<VolumetricWaterContent, DecodeError>(v),
{
}

/// Law: a valid permittivity that fits one register encodes to a word
/// that decodes back to the same value.
pub proof fn lemma_permittivity_round_trip(p: RelativePermittivity)
    requires
        p.spec_is_valid(),
        p.centi_ratio <= 65535,
    ensures
        spec_encode_permittivity(p) matches Ok(raw) && spec_decode_permittivity(raw)
            == Ok::<RelativePermittivity, DecodeError>(p),
{
}

} // verus!
