//! The per-device proxy layer.
//!
//! A slave proxy binds one bus address to the shared session. Reading
//! a quantity happens in two steps around the transport's round trip:
//! the proxy first builds the exact request to issue (which fails at
//! once when the session is disconnected), the shell performs the
//! exchange, and the proxy then interprets the outcome — a register
//! response, a transport failure or an elapsed deadline — as the typed
//! result. The proxy never retries and never reconnects on its own;
//! recovery belongs to the caller.

use vstd::prelude::*;

use crate::decode::BROADCAST_REG_ADDR;
use crate::decode::BROADCAST_SLAVE_ADDR;
use crate::decode::PERMITTIVITY_REG_COUNT;
use crate::decode::PERMITTIVITY_REG_START;
use crate::decode::RAW_COUNTS_REG_COUNT;
use crate::decode::RAW_COUNTS_REG_START;
use crate::decode::TEMPERATURE_REG_COUNT;
use crate::decode::TEMPERATURE_REG_START;
use crate::decode::WATER_CONTENT_REG_COUNT;
use crate::decode::WATER_CONTENT_REG_START;
use crate::decode::decode_permittivity_from_u16;
use crate::decode::decode_temperature_from_u16;
use crate::decode::decode_water_content_from_u16;
use crate::decode::spec_decode_permittivity;
use crate::decode::spec_decode_temperature;
use crate::decode::spec_decode_water_content;
use crate::error::Error;
use crate::session::SessionManager;
use crate::units::RawCounts;
use crate::units::RelativePermittivity;
use crate::units::Temperature;
use crate::units::VolumetricWaterContent;

verus! {

/// One of the quantities the sensor exposes as a holding register.
#[derive(Clone, Copy, Debug, PartialEq, Eq, Structural)]
pub enum Quantity {
    Temperature,
    WaterContent,
    Permittivity,
    RawCounts,
}

/// The fixed register address map: the start address of a quantity.
pub open spec fn spec_reg_start(q: Quantity) -> u16 {
    match q {
        Quantity::Temperature => TEMPERATURE_REG_START,
        Quantity::WaterContent => WATER_CONTENT_REG_START,
        Quantity::Permittivity => PERMITTIVITY_REG_START,
        Quantity::RawCounts => RAW_COUNTS_REG_START,
    }
}

/// The start address of a quantity's register.
pub fn reg_start(q: Quantity) -> (r: u16)
    ensures
        r == spec_reg_start(q),
{
    match q {
        Quantity::Temperature => TEMPERATURE_REG_START,
        Quantity::WaterContent => WATER_CONTENT_REG_START,
        Quantity::Permittivity => PERMITTIVITY_REG_START,
        Quantity::RawCounts => RAW_COUNTS_REG_START,
    }
}

/// Every quantity occupies exactly one 16-bit register.
pub fn reg_count(q: Quantity) -> (r: u16)
    ensures
        r == 1,
{
    match q {
        Quantity::Temperature => TEMPERATURE_REG_COUNT,
        Quantity::WaterContent => WATER_CONTENT_REG_COUNT,
        Quantity::Permittivity => PERMITTIVITY_REG_COUNT,
        Quantity::RawCounts => RAW_COUNTS_REG_COUNT,
    }
}

/// A fully determined "read holding registers" request, ready for the
/// transport: which slave, which start address, how many registers.
#[derive(Clone, Copy, Debug, PartialEq, Eq, Structural)]
pub struct ReadRequest {
    pub slave: u8,
    pub start: u16,
    pub count: u16,
}

/// A fully determined single-register write, ready for the transport.
#[derive(Clone, Copy, Debug, PartialEq, Eq, Structural)]
pub struct WriteRequest {
    pub slave: u8,
    pub address: u16,
    pub value: u16,
}

/// What came back from one read exchange on the transport.
#[derive(Clone, Debug)]
pub enum ReadEvent {
    /// The device answered with these register words.
    Response(Vec<u16>),
    /// The transport reported an I/O failure before a response arrived.
    TransportFailed,
    /// The caller-supplied deadline elapsed first.
    TimedOut,
}

/// The single register word of a response that must hold exactly one.
pub fn single_register(rsp: &Vec<u16>) -> (r: Result<u16, Error>)
    ensures
        rsp@.len() == 1 ==> r == Ok::<u16, Error>(rsp@[0]),
        rsp@.len() != 1 ==> r == Err::<u16, Error>(Error::UnexpectedResponse),
{
    if rsp.len() == 1 {
        Ok(rsp[0])
    } else {
        Err(Error::UnexpectedResponse)
    }
}

/// The typed result a temperature read exchange ends in.
pub open spec fn spec_finish_read_temperature(event: ReadEvent) -> Result<Temperature, Error> {
    match event {
        ReadEvent::TimedOut => Err(Error::TimedOut),
        ReadEvent::TransportFailed => Err(Error::Transport),
        ReadEvent::Response(regs) => if regs@.len() != 1 {
            Err(Error::UnexpectedResponse)
        } else {
            Ok(spec_decode_temperature(regs@[0]))
        },
    }
}

/// Interpret the outcome of a temperature read exchange.
pub fn finish_read_temperature(event: ReadEvent) -> (r: Result<Temperature, Error>)
    ensures
        r == spec_finish_read_temperature(event),
{
    match event {
        ReadEvent::TimedOut => Err(Error::TimedOut),
        ReadEvent::TransportFailed => Err(Error::Transport),
        ReadEvent::Response(regs) => match single_register(&regs) {
            Ok(word) => match decode_temperature_from_u16(word) {
                Ok(t) => Ok(t),
                Err(e) => Err(Error::Decode(e)),
            },
            Err(e) => Err(e),
        },
    }
}

/// The typed result a water content read exchange ends in.
pub open spec fn spec_finish_read_water_content(event: ReadEvent) -> Result<
    VolumetricWaterContent,
    Error,
> {
    match event {
        ReadEvent::TimedOut => Err(Error::TimedOut),
        ReadEvent::TransportFailed => Err(Error::Transport),
        ReadEvent::Response(regs) => if regs@.len() != 1 {
            Err(Error::UnexpectedResponse)
        } else {
            match spec_decode_water_content(regs@[0]) {
                Ok(v) => Ok(v),
                Err(e) => Err(Error::Decode(e)),
            }
        },
    }
}

/// Interpret the outcome of a water content read exchange.
pub fn finish_read_water_content(event: ReadEvent) -> (r: Result<VolumetricWaterContent, Error>)
    ensures
        r == spec_finish_read_water_content(event),
{
    match event {
        ReadEvent::TimedOut => Err(Error::TimedOut),
        ReadEvent::TransportFailed => Err(Error::Transport),
        ReadEvent::Response(regs) => match single_register(&regs) {
            Ok(word) => match decode_water_content_from_u16(word) {
                Ok(v) => Ok(v),
                Err(e) => Err(Error::Decode(e)),
            },
            Err(e) => Err(e),
        },
    }
}

/// The typed result a permittivity read exchange ends in.
pub open spec fn spec_finish_read_permittivity(event: ReadEvent) -> Result<
    RelativePermittivity,
    Error,
> {
    match event {
        ReadEvent::TimedOut => Err(Error::TimedOut),
        ReadEvent::TransportFailed => Err(Error::Transport),
        ReadEvent::Response(regs) => if regs@.len() != 1 {
            Err(Error::UnexpectedResponse)
        } else {
            match spec_decode_permittivity(regs@[0]) {
                Ok(p) => Ok(p),
                Err(e) => Err(Error::Decode(e)),
            }
        },
    }
}

/// Interpret the outcome of a permittivity read exchange.
pub fn finish_read_permittivity(event: ReadEvent) -> (r: Result<RelativePermittivity, Error>)
    ensures
        r == spec_finish_read_permittivity(event),
{
    match event {
        ReadEvent::TimedOut => Err(Error::TimedOut),
        ReadEvent::TransportFailed => Err(Error::Transport),
        ReadEvent::Response(regs) => match single_register(&regs) {
            Ok(word) => match decode_permittivity_from_u16(word) {
                Ok(p) => Ok(p),
                Err(e) => Err(Error::Decode(e)),
            },
            Err(e) => Err(e),
        },
    }
}

/// The typed result a raw counts read exchange ends in.
pub open spec fn spec_finish_read_raw_counts(event: ReadEvent) -> Result<RawCounts, Error> {
    match event {
        ReadEvent::TimedOut => Err(Error::TimedOut),
        ReadEvent::TransportFailed => Err(Error::Transport),
        ReadEvent::Response(regs) => if regs@.len() != 1 {
            Err(Error::UnexpectedResponse)
        } else {
            Ok(RawCounts(regs@[0]))
        },
    }
}

/// Interpret the outcome of a raw counts read exchange.
pub fn finish_read_raw_counts(event: ReadEvent) -> (r: Result<RawCounts, Error>)
    ensures
        r == spec_finish_read_raw_counts(event),
{
    match event {
        ReadEvent::TimedOut => Err(Error::TimedOut),
        ReadEvent::TransportFailed => Err(Error::Transport),
        ReadEvent::Response(regs) => match single_register(&regs) {
            Ok(word) => Ok(RawCounts(word)),
            Err(e) => Err(e),
        },
    }
}

/// The device-facing facade for one slave address on the shared bus.
/// It holds no measurement state: every read round-trips to the device.
#[derive(Clone, Copy, Debug, PartialEq, Eq, Structural)]
pub struct SlaveProxy {
    pub slave: u8,
}

impl SlaveProxy {
    /// A proxy for the device answering at `slave`.
    pub fn new(slave: u8) -> (p: Self)
        ensures
            p.slave == slave,
    {
        SlaveProxy { slave }
    }

    /// The bus address this proxy talks to.
    pub fn slave(&self) -> (r: u8)
        ensures
            r == self.slave,
    {
        self.slave
    }

    /// Build the read request for one quantity: the proxy's own slave
    /// address, the quantity's fixed register, a count of one. Fails
    /// at once with `NotConnected` when the session holds no link, so
    /// no exchange is ever attempted while disconnected.
    pub fn begin_read(&self, session: &SessionManager, q: Quantity) -> (r: Result<
        ReadRequest,
        Error,
    >)
        ensures
            session.connected ==> r == Ok::<ReadRequest, Error>(
                (ReadRequest { slave: self.slave, start: spec_reg_start(q), count: 1 }),
            ),
            !session.connected ==> r == Err::<ReadRequest, Error>(Error::NotConnected),
    {
        match session.acquire() {
            Ok(_) => Ok(ReadRequest { slave: self.slave, start: reg_start(q), count: reg_count(q) }),
            Err(e) => Err(e),
        }
    }

    /// Build the provisioning write that assigns this proxy's slave
    /// address to every device on the bus: a single-register write to
    /// the address-assignment register, addressed to the reserved
    /// broadcast identifier. Fails with `NotConnected` when the
    /// session holds no link. Only safe with one device attached.
    pub fn begin_broadcast_slave(&self, session: &SessionManager) -> (r: Result<
        WriteRequest,
        Error,
    >)
        ensures
            session.connected ==> r == Ok::<WriteRequest, Error>(
                (WriteRequest {
                    slave: BROADCAST_SLAVE_ADDR,
                    address: BROADCAST_REG_ADDR,
                    value: self.slave as u16,
                }),
            ),
            !session.connected ==> r == Err::<WriteRequest, Error>(Error::NotConnected),
    {
        match session.acquire() {
            Ok(_) => Ok(
                WriteRequest {
                    slave: BROADCAST_SLAVE_ADDR,
                    address: BROADCAST_REG_ADDR,
                    value: self.slave as u16,
                },
            ),
            Err(e) => Err(e),
        }
    }
}

} // verus!
