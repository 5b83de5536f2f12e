//! # max6675-hal
//!
//! A driver core for the MAX6675 digital thermocouple converter.
//!
//! The MAX6675 answers a read with one 16-bit word, most significant byte
//! first. Bit D2 of that word is high when the thermocouple input is open, and
//! bits D15..D3 (D15 is always low) hold the temperature as a count of
//! quarter degrees Celsius.
//!
//! This crate holds, with their contracts:
//! - the decoding of that word ([`celsius_quarters`], [`hal::read_celsius_quarters`]),
//! - the order of chip-select and SPI steps of one read ([`hal::transfer_step`]),
//! - the error types of both driver flavours and their messages.

use vstd::prelude::*;

pub mod error;
pub mod hal;
pub mod temperature;

use crate::hal::HalError;

verus! {

/// Some problem with the MAX6675 or its connections
#[derive(Copy, Clone, Debug, PartialEq, PartialOrd)]
pub enum Max6675Error<SpiError, CsError> {
    SpiError(SpiError),
    CsError(CsError),
    OpenCircuitError,
}

// implicit `?` syntax for SpiError to Max6675Error
impl<SpiError, CsError> From<SpiError> for Max6675Error<SpiError, CsError> {
    fn from(value: SpiError) -> (r: Self) {
        Max6675Error::SpiError(value)
    }
}

impl<SpiError, CsError> vstd::std_specs::convert::FromSpecImpl<SpiError> for Max6675Error<SpiError, CsError> {
    open spec fn obeys_from_spec() -> bool {
        true
    }

    open spec fn from_spec(v: SpiError) -> Self {
        Max6675Error::SpiError(v)
    }
}

impl<SpiError, CsError> Max6675Error<SpiError, CsError> {
    /// The text that describes this error to a person.
    pub fn message(&self) -> (m: &'static str)
        ensures
            m@ == (match self {
                Max6675Error::SpiError(_) =>
                    "An error occured while attempting to reach the MAX6675 over SPI."@,
                Max6675Error::OpenCircuitError => "The MAX6675 has detected an open circuit."@,
                Max6675Error::CsError(_) => "Detected a chip select pin error."@,
            }),
    {
        match self {
            Max6675Error::SpiError(_) =>
                "An error occured while attempting to reach the MAX6675 over SPI.",
            Max6675Error::OpenCircuitError => "The MAX6675 has detected an open circuit.",
            Max6675Error::CsError(_) => "Detected a chip select pin error.",
        }
    }

    /// The error of this type for a failed read: a chip select failure is a
    /// `CsError`, an SPI failure an `SpiError`, an open circuit an `OpenCircuitError`.
    pub fn from_hal(e: HalError<SpiError, CsError>) -> (r: Self)
        ensures
            r == (match e {
                HalError::OpenCircuitError => Max6675Error::<SpiError, CsError>::OpenCircuitError,
                HalError::SpiError(s) => Max6675Error::SpiError(s),
                HalError::ChipSelectError(c) => Max6675Error::CsError(c),
            }),
    {
        match e {
            HalError::OpenCircuitError => Max6675Error::OpenCircuitError,
            HalError::SpiError(s) => Max6675Error::SpiError(s),
            HalError::ChipSelectError(c) => Max6675Error::CsError(c),
        }
    }
}

/// The 16-bit word of a read: the MAX6675 sends its most significant byte first.
pub open spec fn reading_word(raw: Seq<u8>) -> int {
    raw[0] * 256 + raw[1]
}

/// Bit D2 of the word is high: the thermocouple input is open.
pub open spec fn is_open_circuit(raw: Seq<u8>) -> bool {
    (reading_word(raw) / 4) % 2 == 1
}

/// The word without its three lowest bits: the temperature in quarter degrees Celsius.
pub open spec fn quarter_degrees(raw: Seq<u8>) -> int {
    reading_word(raw) / 8
}

/// What the spec functions of a read are, over its two bytes: the word puts
/// the first byte high; bit D2 is bit 2 of the second byte; the count of
/// quarter degrees is the word divided by 8, so that the three lowest bits do
/// not count and each further 8 in the word is one more quarter degree.
pub proof fn lemma_reading_bits(raw: Seq<u8>, d: int)
    requires
        raw.len() == 2,
    ensures
        reading_word(raw) == raw[0] * 256 + raw[1],
        is_open_circuit(raw) <==> (raw[1] / 4) % 2 == 1,
        quarter_degrees(raw) == raw[0] * 32 + raw[1] / 8,
        quarter_degrees(raw) * 8 <= reading_word(raw) < quarter_degrees(raw) * 8 + 8,
        0 <= d < 8 && raw[1] % 8 == 0 ==> quarter_degrees(seq![raw[0], (raw[1] + d) as u8])
            == quarter_degrees(raw),
{
    let w = raw[0] * 256 + raw[1];
    assert(w / 4 == raw[0] * 64 + raw[1] / 4);
    assert(w / 8 == raw[0] * 32 + raw[1] / 8);
    assert((raw[0] * 64 + raw[1] / 4) % 2 == (raw[1] / 4) % 2);
    if 0 <= d < 8 && raw[1] % 8 == 0 {
        assert((raw[1] + d) / 8 == raw[1] / 8);
    }
}

/// The word whose high byte is `bytes[0]` and low byte `bytes[1]`, as
/// `u16::from_be_bytes` gives it.
fn word_from_be_bytes(bytes: [u8; 2]) -> (word: u16)
    ensures
        word as int == bytes@[0] * 256 + bytes@[1],
{
    (bytes[0] as u16) * 256 + (bytes[1] as u16)
}

/// The temperature count of a read, in quarter degrees Celsius, or `None` when
/// the thermocouple input is open (bit D2 is high).
pub fn thermocouple_count(raw: [u8; 2]) -> (r: Option<u16>)
    ensures
        r is None <==> is_open_circuit(raw@),
        r matches Some(q) ==> q as int == quarter_degrees(raw@) && q < 8192,
        // bit D2 is bit 2 of the low byte; the count is the word in steps of 8
        r is None <==> (raw@[1] / 4) % 2 == 1,
        r matches Some(q) ==> q * 8 <= raw@[0] * 256 + raw@[1] < q * 8 + 8,
{
    let word = word_from_be_bytes(raw);
    assert((word & 0x04 != 0) == ((word / 4) % 2 == 1)) by (bit_vector);
    assert((word >> 3) & 0x1FFF == word / 8) by (bit_vector);
    if word & 0x04 != 0 {
        return None;
    }
    Some((word >> 3) & 0x1FFF)
}

/// Turns the two bytes of a read into a temperature in quarter degrees Celsius,
/// or `OpenCircuitError` when the thermocouple input is open.
pub fn celsius_quarters<SpiError, CsError>(raw: [u8; 2]) -> (r: Result<
    u16,
    Max6675Error<SpiError, CsError>,
>)
    ensures
        r is Err <==> is_open_circuit(raw@),
        r matches Err(e) ==> e is OpenCircuitError,
        r matches Ok(q) ==> q as int == quarter_degrees(raw@),
{
    match thermocouple_count(raw) {
        Some(count) => Ok(count),
        None => Err(Max6675Error::OpenCircuitError),
    }
}

} // verus!
