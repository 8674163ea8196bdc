//! Driver core for a soil-moisture sensor reachable over a Modbus RTU bus.
//!
//! The sensor exposes its measurements (temperature, volumetric water
//! content, relative permittivity and the raw uncalibrated counts) as
//! 16-bit holding registers holding fixed-point values with two decimal
//! places. This crate holds the device-independent heart of a driver:
//! the typed unit values, the register decoders with their range checks,
//! the state machine of the shared serial session, and the per-device
//! proxy layer that turns register responses into typed results. The
//! byte-level transport itself (serial port, framing, timeouts) is an
//! external collaborator that hands this crate plain register words and
//! takes plain requests back.

use vstd::prelude::*;

mod decode;
mod error;
pub mod mock;
mod proxy;
mod session;
mod units;

pub use decode::BROADCAST_REG_ADDR;
pub use decode::BROADCAST_SLAVE_ADDR;
pub use decode::DecodeError;
pub use decode::DecodeResult;
pub use decode::PERMITTIVITY_REG_COUNT;
pub use decode::PERMITTIVITY_REG_START;
pub use decode::RAW_COUNTS_REG_COUNT;
pub use decode::RAW_COUNTS_REG_START;
pub use decode::RelativePermittivityRaw;
pub use decode::TEMPERATURE_REG_COUNT;
pub use decode::TEMPERATURE_REG_START;
pub use decode::VolumetricWaterContentRaw;
pub use decode::WATER_CONTENT_REG_COUNT;
pub use decode::WATER_CONTENT_REG_START;
pub use decode::decode_be_u16_from_bytes;
pub use decode::decode_permittivity_from_bytes;
pub use decode::decode_permittivity_from_u16;
pub use decode::decode_raw_counts_from_bytes;
pub use decode::decode_raw_counts_from_u16;
pub use decode::decode_temperature_from_bytes;
pub use decode::decode_temperature_from_u16;
pub use decode::decode_water_content_from_bytes;
pub use decode::decode_water_content_from_u16;
pub use decode::encode_permittivity_to_u16;
pub use decode::encode_temperature_to_u16;
pub use decode::encode_water_content_to_u16;
pub use error::Error;
pub use proxy::Quantity;
pub use proxy::ReadEvent;
pub use proxy::ReadRequest;
pub use proxy::SlaveProxy;
pub use proxy::WriteRequest;
pub use proxy::finish_read_permittivity;
pub use proxy::finish_read_raw_counts;
pub use proxy::finish_read_temperature;
pub use proxy::finish_read_water_content;
pub use proxy::reg_count;
pub use proxy::reg_start;
pub use proxy::single_register;
pub use session::SessionManager;
pub use units::RawCounts;
pub use units::RelativePermittivity;
pub use units::Temperature;
pub use units::VolumetricWaterContent;

verus! {

/// The uniform capability interface of the sensor: one read operation
/// per quantity, each with an optional deadline in milliseconds.
///
/// Implemented by the mock device; the real slave proxy offers the
/// same operations split around the transport exchange, and the shell
/// that owns the transport completes them behind this interface.
pub trait Capabilities {
    /// Measure the current temperature.
    fn read_temperature(&mut self, timeout_millis: Option<u64>) -> Result<Temperature, Error>;

    /// Measure the current water content of the medium around the sensor.
    fn read_water_content(&mut self, timeout_millis: Option<u64>) -> Result<
        VolumetricWaterContent,
        Error,
    >;

    /// Measure the current relative permittivity of the medium.
    fn read_permittivity(&mut self, timeout_millis: Option<u64>) -> Result<
        RelativePermittivity,
        Error,
    >;

    /// Retrieve the current raw and uncalibrated signal of the sensor.
    fn read_raw_counts(&mut self, timeout_millis: Option<u64>) -> Result<RawCounts, Error>;
}

} // verus!
