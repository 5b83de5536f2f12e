//! The error of a MAX6675 reached through an SPI device that selects the chip itself.

use vstd::prelude::*;

verus! {

/// Some problem with the MAX6675 or its connections
#[derive(Copy, Clone, PartialEq, PartialOrd)]
pub enum Max6675Error<SpiError> {
    SpiError(SpiError),
    OpenCircuitError,
}

impl<SpiError> Max6675Error<SpiError> {
    /// The text that describes this error to a person.
    pub fn message(&self) -> (m: &'static str)
        ensures
            m@ == (match self {
                Max6675Error::SpiError(_) =>
                    "An error occured while attempting to reach the MAX6675 over SPI."@,
                Max6675Error::OpenCircuitError =>
                    "The MAX6675 detected an open circuit (bit D2 was high). Please check the thermocouple connection and try again."@,
            }),
    {
        match self {
            Max6675Error::SpiError(_) =>
                "An error occured while attempting to reach the MAX6675 over SPI.",
            Max6675Error::OpenCircuitError =>
                "The MAX6675 detected an open circuit (bit D2 was high). Please check the thermocouple connection and try again.",
        }
    }
}

// implicit `?` syntax for SpiError to Max6675Error
impl<SpiError> From<SpiError> for Max6675Error<SpiError> {
    fn from(value: SpiError) -> (r: Self) {
        Max6675Error::SpiError(value)
    }
}

impl<SpiError> vstd::std_specs::convert::FromSpecImpl<SpiError> for Max6675Error<SpiError> {
    open spec fn obeys_from_spec() -> bool {
        true
    }

    open spec fn from_spec(v: SpiError) -> Self {
        Max6675Error::SpiError(v)
    }
}

} // verus!
