//! A test double for the sensor: canned values, an optional artificial
//! delay and one injectable error.
//!
//! The mock answers the same capability interface as the real device
//! proxy. A read with a deadline observes the configured delay: when
//! the delay exceeds the deadline the read times out; otherwise a
//! pending injected error, if one was set, is returned once and
//! cleared; otherwise the canned value comes back. A read without a
//! deadline always succeeds at once and leaves the pending error
//! untouched.

use vstd::prelude::*;

use crate::Capabilities;
use crate::error::Error;
use crate::units::RawCounts;
use crate::units::RelativePermittivity;
use crate::units::Temperature;
use crate::units::VolumetricWaterContent;

verus! {

/// The mock device: canned values, an artificial delay, and at most
/// one pending injected error.
#[derive(Clone, Copy, Debug)]
pub struct Proxy {
    pub temperature: Temperature,
    pub water_content: VolumetricWaterContent,
    pub permittivity: RelativePermittivity,
    pub raw_counts: RawCounts,
    /// The artificial delay of every read that carries a deadline.
    pub delay_millis: u64,
    /// An error to hand out on the next delayed read, once.
    pub next_error: Option<Error>,
}

/// The controls a test uses to drive the mock.
pub trait Driver {
    fn set_delay_millis(&mut self, delay_millis: u64);

    fn set_next_error(&mut self, next_error: Option<Error>);

    fn set_temperature(&mut self, temperature: Temperature);

    fn set_water_content(&mut self, water_content: VolumetricWaterContent);

    fn set_permittivity(&mut self, permittivity: RelativePermittivity);

    fn set_raw_counts(&mut self, raw_counts: RawCounts);
}

/// What a delayed read of `value` returns, given the mock's state: the
/// deadline wins over an injected error, which wins over the value.
pub open spec fn spec_delay_result<T>(p: Proxy, value: T, timeout_millis: u64) -> Result<
    T,
    Error,
> {
    if p.delay_millis > timeout_millis {
        Err(Error::TimedOut)
    } else {
        match p.next_error {
            Some(e) => Err(e),
            None => Ok(value),
        }
    }
}

/// The mock's state after a delayed read: the pending error is
/// consumed whether or not it was returned.
pub open spec fn spec_after_delay(p: Proxy) -> Proxy {
    Proxy { next_error: None, ..p }
}

impl Proxy {
    /// The canned temperature a fresh mock reports: 20 degrees Celsius.
    pub fn default_temperature() -> (t: Temperature)
        ensures
            t.centi_celsius == 2000,
    {
        Temperature::from_centi_celsius(2000)
    }

    /// The canned water content a fresh mock reports: 30 percent.
    pub fn default_water_content() -> (v: VolumetricWaterContent)
        ensures
            v.centi_percent == 3000,
    {
        VolumetricWaterContent::from_centi_percent(3000)
    }

    /// The canned permittivity a fresh mock reports: the minimum, 1.
    pub fn default_permittivity() -> (p: RelativePermittivity)
        ensures
            p.centi_ratio == 100,
    {
        RelativePermittivity::min()
    }

    /// The canned raw counts a fresh mock reports: zero.
    pub fn default_raw_counts() -> (c: RawCounts)
        ensures
            c.0 == 0,
    {
        RawCounts::default()
    }

    /// Configure the artificial delay of every deadline-bound read.
    pub fn set_delay_millis(&mut self, delay_millis: u64)
        ensures
            *final(self) == (Proxy { delay_millis, ..*old(self) }),
    {
        self.delay_millis = delay_millis;
    }

    /// Arm (or clear) the error the next delayed read hands out.
    pub fn set_next_error(&mut self, next_error: Option<Error>)
        ensures
            *final(self) == (Proxy { next_error, ..*old(self) }),
    {
        self.next_error = next_error;
    }

    /// Configure the canned temperature.
    pub fn set_temperature(&mut self, temperature: Temperature)
        ensures
            *final(self) == (Proxy { temperature, ..*old(self) }),
    {
        self.temperature = temperature;
    }

    /// Configure the canned water content.
    pub fn set_water_content(&mut self, water_content: VolumetricWaterContent)
        ensures
            *final(self) == (Proxy { water_content, ..*old(self) }),
    {
        self.water_content = water_content;
    }

    /// Configure the canned permittivity.
    pub fn set_permittivity(&mut self, permittivity: RelativePermittivity)
        ensures
            *final(self) == (Proxy { permittivity, ..*old(self) }),
    {
        self.permittivity = permittivity;
    }

    /// Configure the canned raw counts.
    pub fn set_raw_counts(&mut self, raw_counts: RawCounts)
        ensures
            *final(self) == (Proxy { raw_counts, ..*old(self) }),
    {
        self.raw_counts = raw_counts;
    }

    /// One delayed read: consume the pending error and hand out the
    /// deadline failure, the injected error or the value, in that
    /// order of precedence.
    fn delay_value<T>(&mut self, value: T, timeout_millis: u64) -> (r: Result<T, Error>)
        ensures
            r == spec_delay_result(*old(self), value, timeout_millis),
            *final(self) == spec_after_delay(*old(self)),
    {
        let next_error = self.next_error.take();
        if self.delay_millis > timeout_millis {
            Err(Error::TimedOut)
        } else {
            match next_error {
                Some(e) => Err(e),
                None => Ok(value),
            }
        }
    }

    /// Report the canned temperature, observing the deadline if one is
    /// given.
    pub fn read_temperature(&mut self, timeout_millis: Option<u64>) -> (r: Result<
        Temperature,
        Error,
    >)
        ensures
            timeout_millis matches Some(t) ==> r == spec_delay_result(
                *old(self),
                old(self).temperature,
                t,
            ) && *final(self) == spec_after_delay(*old(self)),
            timeout_millis is None ==> r == Ok::<Temperature, Error>(old(self).temperature)
                && *final(self) == *old(self),
    {
        match timeout_millis {
            Some(t) => {
                let value = self.temperature;
                self.delay_value(value, t)
            },
            None => Ok(self.temperature),
        }
    }

    /// Report the canned water content, observing the deadline if one
    /// is given.
    pub fn read_water_content(&mut self, timeout_millis: Option<u64>) -> (r: Result<
        VolumetricWaterContent,
        Error,
    >)
        ensures
            timeout_millis matches Some(t) ==> r == spec_delay_result(
                *old(self),
                old(self).water_content,
                t,
            ) && *final(self) == spec_after_delay(*old(self)),
            timeout_millis is None ==> r == Ok::<VolumetricWaterContent, Error>(
                old(self).water_content,
            ) && *final(self) == *old(self),
    {
        match timeout_millis {
            Some(t) => {
                let value = self.water_content;
                self.delay_value(value, t)
            },
            None => Ok(self.water_content),
        }
    }

    /// Report the canned permittivity, observing the deadline if one
    /// is given.
    pub fn read_permittivity(&mut self, timeout_millis: Option<u64>) -> (r: Result<
        RelativePermittivity,
        Error,
    >)
        ensures
            timeout_millis matches Some(t) ==> r == spec_delay_result(
                *old(self),
                old(self).permittivity,
                t,
            ) && *final(self) == spec_after_delay(*old(self)),
            timeout_millis is None ==> r == Ok::<RelativePermittivity, Error>(
                old(self).permittivity,
            ) && *final(self) == *old(self),
    {
        match timeout_millis {
            Some(t) => {
                let value = self.permittivity;
                self.delay_value(value, t)
            },
            None => Ok(self.permittivity),
        }
    }

    /// Report the canned raw counts, observing the deadline if one is
    /// given.
    pub fn read_raw_counts(&mut self, timeout_millis: Option<u64>) -> (r: Result<RawCounts, Error>)
        ensures
            timeout_millis matches Some(t) ==> r == spec_delay_result(
                *old(self),
                old(self).raw_counts,
                t,
            ) && *final(self) == spec_after_delay(*old(self)),
            timeout_millis is None ==> r == Ok::<RawCounts, Error>(old(self).raw_counts)
                && *final(self) == *old(self),
    {
        match timeout_millis {
            Some(t) => {
                let value = self.raw_counts;
                self.delay_value(value, t)
            },
            None => Ok(self.raw_counts),
        }
    }
}

impl Default for Proxy {
    /// A fresh mock: the canned defaults, no delay, no pending error.
    fn default() -> (p: Self)
        ensures
            p.temperature.centi_celsius == 2000,
            p.water_content.centi_percent == 3000,
            p.permittivity.centi_ratio == 100,
            p.raw_counts.0 == 0,
            p.delay_millis == 0,
            p.next_error is None,
    {
        Proxy {
            temperature: Proxy::default_temperature(),
            water_content: Proxy::default_water_content(),
            permittivity: Proxy::default_permittivity(),
            raw_counts: Proxy::default_raw_counts(),
            delay_millis: 0,
            next_error: None,
        }
    }
}

impl Driver for Proxy {
    fn set_delay_millis(&mut self, delay_millis: u64) {
        self.delay_millis = delay_millis;
    }

    fn set_next_error(&mut self, next_error: Option<Error>) {
        self.next_error = next_error;
    }

    fn set_temperature(&mut self, temperature: Temperature) {
        self.temperature = temperature;
    }

    fn set_water_content(&mut self, water_content: VolumetricWaterContent) {
        self.water_content = water_content;
    }

    fn set_permittivity(&mut self, permittivity: RelativePermittivity) {
        self.permittivity = permittivity;
    }

    fn set_raw_counts(&mut self, raw_counts: RawCounts) {
        self.raw_counts = raw_counts;
    }
}

impl Capabilities for Proxy {
    fn read_temperature(&mut self, timeout_millis: Option<u64>) -> Result<Temperature, Error> {
        self.read_temperature(timeout_millis)
    }

    fn read_water_content(&mut self, timeout_millis: Option<u64>) -> Result<
        VolumetricWaterContent,
        Error,
    > {
        self.read_water_content(timeout_millis)
    }

    fn read_permittivity(&mut self, timeout_millis: Option<u64>) -> Result<
        RelativePermittivity,
        Error,
    > {
        self.read_permittivity(timeout_millis)
    }

    fn read_raw_counts(&mut self, timeout_millis: Option<u64>) -> Result<RawCounts, Error> {
        self.read_raw_counts(timeout_millis)
    }
}

} // verus!
