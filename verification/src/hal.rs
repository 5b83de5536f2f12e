//! # hal
//!
//! The MAX6675 read for `embedded-hal` devices, assuming they use the
//! `embedded_hal` SPI and a chip select pin.
//!
//! One read drives the chip select pin low, exchanges two bytes over SPI
//! (sending zeros), drives the chip select pin high again, and hands back the
//! two bytes. [`transfer_step`] decides each of those steps from the answer to
//! the previous one; whoever owns the SPI bus and the pin performs them.
//! [`check_fault`] makes a raw read fail when bit D2 is high, and
//! [`read_celsius_quarters`] turns the two bytes into a temperature.

use vstd::prelude::*;

use crate::thermocouple_count;

verus! {

/// Errors from low-level SPI interactions.
#[derive(Debug)]
pub enum HalError<SpiE, CsE> {
    OpenCircuitError,
    SpiError(SpiE),
    ChipSelectError(CsE),
}

impl<SpiE, CsE> HalError<SpiE, CsE> {
    /// The text that describes this error to a person.
    pub fn message(&self) -> (m: &'static str)
        ensures
            m@ == (match self {
                HalError::OpenCircuitError =>
                    "The MAX6675 detected an open circuit (bit D2 was high). \n                Please check the thermocouple connection and try again."@,
                HalError::ChipSelectError(_) => "A Chip Select error has occured."@,
                HalError::SpiError(_) => "An SPI error has occured."@,
            }),
    {
        match self {
            HalError::OpenCircuitError =>
                "The MAX6675 detected an open circuit (bit D2 was high). \n                Please check the thermocouple connection and try again.",
            HalError::ChipSelectError(_) => "A Chip Select error has occured.",
            HalError::SpiError(_) => "An SPI error has occured.",
        }
    }
}

/// The level to drive the chip select pin to.
#[derive(Clone, Copy, Debug, PartialEq, Eq)]
pub enum CsState {
    High,
    Low,
}

/// Where one read stands.
#[derive(Clone, Copy, Debug, PartialEq, Eq)]
pub enum TransferPhase {
    /// Nothing has been asked of the device yet.
    Idle,
    /// The chip select pin has been asked to go low.
    Selecting,
    /// The two-byte exchange has been asked for.
    Transferring,
    /// The exchange gave these bytes; the chip select pin has been asked to go high.
    Releasing([u8; 2]),
    /// The read has finished, well or not.
    Done,
}

/// What the device answered to the last step, or the start of a read.
pub enum TransferEvent<SpiE, CsE> {
    /// Start a read.
    Begin,
    /// The chip select pin was driven to the requested level, or failed.
    ChipSelect(Result<(), CsE>),
    /// The SPI exchange gave two bytes, or failed.
    Transfer(Result<[u8; 2], SpiE>),
}

/// What the owner of the bus and pin is to do next.
pub enum TransferAction<SpiE, CsE> {
    /// Drive the chip select pin to this level.
    SetChipSelect(CsState),
    /// Exchange two bytes over SPI, sending these.
    Transfer([u8; 2]),
    /// The read is over, with this result.
    Finish(Result<[u8; 2], HalError<SpiE, CsE>>),
    /// The event did not answer the pending step: nothing to do.
    Wait,
}

/// The transition table of one read: the next phase and the action for an event.
/// An event that does not answer the pending step changes nothing.
pub open spec fn transfer_next<SpiE, CsE>(
    phase: TransferPhase,
    event: TransferEvent<SpiE, CsE>,
) -> (TransferPhase, TransferAction<SpiE, CsE>) {
    match phase {
        TransferPhase::Idle => match event {
            TransferEvent::Begin => (
                TransferPhase::Selecting,
                TransferAction::SetChipSelect(CsState::Low),
            ),
            _ => (phase, TransferAction::Wait),
        },
        TransferPhase::Selecting => match event {
            TransferEvent::ChipSelect(Ok(_)) => (
                TransferPhase::Transferring,
                TransferAction::Transfer([0u8, 0u8]),
            ),
            TransferEvent::ChipSelect(Err(e)) => (
                TransferPhase::Done,
                TransferAction::Finish(Err(HalError::ChipSelectError(e))),
            ),
            _ => (phase, TransferAction::Wait),
        },
        TransferPhase::Transferring => match event {
            TransferEvent::Transfer(Ok(bytes)) => (
                TransferPhase::Releasing(bytes),
                TransferAction::SetChipSelect(CsState::High),
            ),
            TransferEvent::Transfer(Err(e)) => (
                TransferPhase::Done,
                TransferAction::Finish(Err(HalError::SpiError(e))),
            ),
            _ => (phase, TransferAction::Wait),
        },
        TransferPhase::Releasing(bytes) => match event {
            TransferEvent::ChipSelect(Ok(_)) => (
                TransferPhase::Done,
                TransferAction::Finish(Ok(bytes)),
            ),
            TransferEvent::ChipSelect(Err(e)) => (
                TransferPhase::Done,
                TransferAction::Finish(Err(HalError::ChipSelectError(e))),
            ),
            _ => (phase, TransferAction::Wait),
        },
        TransferPhase::Done => (phase, TransferAction::Wait),
    }
}

/// Decides the next step of a read from the answer to the previous one.
pub fn transfer_step<SpiE, CsE>(phase: TransferPhase, event: TransferEvent<SpiE, CsE>) -> (out: (
    TransferPhase,
    TransferAction<SpiE, CsE>,
))
    ensures
        out == transfer_next(phase, event),
{
    match phase {
        TransferPhase::Idle => match event {
            TransferEvent::Begin => (
                TransferPhase::Selecting,
                TransferAction::SetChipSelect(CsState::Low),
            ),
            _ => (phase, TransferAction::Wait),
        },
        TransferPhase::Selecting => match event {
            TransferEvent::ChipSelect(Ok(_)) => (
                TransferPhase::Transferring,
                TransferAction::Transfer([0u8, 0u8]),
            ),
            TransferEvent::ChipSelect(Err(e)) => (
                TransferPhase::Done,
                TransferAction::Finish(Err(HalError::ChipSelectError(e))),
            ),
            _ => (phase, TransferAction::Wait),
        },
        TransferPhase::Transferring => match event {
            TransferEvent::Transfer(Ok(bytes)) => (
                TransferPhase::Releasing(bytes),
                TransferAction::SetChipSelect(CsState::High),
            ),
            TransferEvent::Transfer(Err(e)) => (
                TransferPhase::Done,
                TransferAction::Finish(Err(HalError::SpiError(e))),
            ),
            _ => (phase, TransferAction::Wait),
        },
        TransferPhase::Releasing(bytes) => match event {
            TransferEvent::ChipSelect(Ok(_)) => (
                TransferPhase::Done,
                TransferAction::Finish(Ok(bytes)),
            ),
            TransferEvent::ChipSelect(Err(e)) => (
                TransferPhase::Done,
                TransferAction::Finish(Err(HalError::ChipSelectError(e))),
            ),
            _ => (phase, TransferAction::Wait),
        },
        TransferPhase::Done => (phase, TransferAction::Wait),
    }
}

/// The result of one read when the chip select pin answers `select` to going
/// low, the SPI exchange answers `exchange`, and the pin answers `release` to
/// going high: the first failure, or the exchanged bytes.
pub open spec fn transfer_outcome<SpiE, CsE>(
    select: Result<(), CsE>,
    exchange: Result<[u8; 2], SpiE>,
    release: Result<(), CsE>,
) -> Result<[u8; 2], HalError<SpiE, CsE>> {
    match select {
        Err(e) => Err(HalError::ChipSelectError(e)),
        Ok(_) => match exchange {
            Err(e) => Err(HalError::SpiError(e)),
            Ok(bytes) => match release {
                Err(e) => Err(HalError::ChipSelectError(e)),
                Ok(_) => Ok(bytes),
            },
        },
    }
}

/// What each answer does to a read: a chip select failure, at either end, is
/// reported as `ChipSelectError` with the pin's error; an exchange failure as
/// `SpiError` with the bus's error; a read whose three steps succeed gives
/// the exchanged bytes unchanged; the first failure wins.
pub proof fn lemma_outcome_cases<SpiE, CsE>(
    cs_err: CsE,
    cs_err2: CsE,
    spi_err: SpiE,
    bytes: [u8; 2],
)
    ensures
        transfer_outcome::<SpiE, CsE>(Ok(()), Ok(bytes), Ok(())) == Ok::<
            [u8; 2],
            HalError<SpiE, CsE>,
        >(bytes),
        transfer_outcome::<SpiE, CsE>(Err(cs_err), Ok(bytes), Ok(())) == Err::<
            [u8; 2],
            HalError<SpiE, CsE>,
        >(HalError::ChipSelectError(cs_err)),
        transfer_outcome::<SpiE, CsE>(Err(cs_err), Err(spi_err), Err(cs_err2)) == Err::<
            [u8; 2],
            HalError<SpiE, CsE>,
        >(HalError::ChipSelectError(cs_err)),
        transfer_outcome::<SpiE, CsE>(Ok(()), Err(spi_err), Ok(())) == Err::<
            [u8; 2],
            HalError<SpiE, CsE>,
        >(HalError::SpiError(spi_err)),
        transfer_outcome::<SpiE, CsE>(Ok(()), Err(spi_err), Err(cs_err2)) == Err::<
            [u8; 2],
            HalError<SpiE, CsE>,
        >(HalError::SpiError(spi_err)),
        transfer_outcome::<SpiE, CsE>(Ok(()), Ok(bytes), Err(cs_err2)) == Err::<
            [u8; 2],
            HalError<SpiE, CsE>,
        >(HalError::ChipSelectError(cs_err2)),
{
}

/// Each answer of the device, in the step it answers, and where it leads:
/// the pin going low leads to the exchange of two zero bytes; the exchange's
/// bytes are kept while the pin goes high; the pin going high ends the read
/// with those bytes; any failure ends the read with its error.
pub proof fn lemma_answers<SpiE, CsE>(cs_err: CsE, spi_err: SpiE, bytes: [u8; 2])
    ensures
        transfer_next::<SpiE, CsE>(TransferPhase::Idle, TransferEvent::Begin) == (
            TransferPhase::Selecting,
            TransferAction::<SpiE, CsE>::SetChipSelect(CsState::Low),
        ),
        transfer_next::<SpiE, CsE>(TransferPhase::Selecting, TransferEvent::ChipSelect(Ok(())))
            == (TransferPhase::Transferring, TransferAction::<SpiE, CsE>::Transfer([0u8, 0u8])),
        transfer_next::<SpiE, CsE>(TransferPhase::Selecting, TransferEvent::ChipSelect(Err(cs_err)))
            == (
            TransferPhase::Done,
            TransferAction::<SpiE, CsE>::Finish(Err(HalError::ChipSelectError(cs_err))),
        ),
        transfer_next::<SpiE, CsE>(TransferPhase::Transferring, TransferEvent::Transfer(Ok(bytes)))
            == (
            TransferPhase::Releasing(bytes),
            TransferAction::<SpiE, CsE>::SetChipSelect(CsState::High),
        ),
        transfer_next::<SpiE, CsE>(
            TransferPhase::Transferring,
            TransferEvent::Transfer(Err(spi_err)),
        ) == (TransferPhase::Done, TransferAction::<SpiE, CsE>::Finish(Err(HalError::SpiError(spi_err)))),
        transfer_next::<SpiE, CsE>(TransferPhase::Releasing(bytes), TransferEvent::ChipSelect(Ok(())))
            == (TransferPhase::Done, TransferAction::<SpiE, CsE>::Finish(Ok(bytes))),
        transfer_next::<SpiE, CsE>(
            TransferPhase::Releasing(bytes),
            TransferEvent::ChipSelect(Err(cs_err)),
        ) == (
            TransferPhase::Done,
            TransferAction::<SpiE, CsE>::Finish(Err(HalError::ChipSelectError(cs_err))),
        ),
{
}

/// A raw read with a fault check: bytes whose bit D2 (bit 2 of the second byte)
/// is high give `OpenCircuitError`, other bytes pass unchanged, and an error
/// passes unchanged.
pub proof fn lemma_fault_check_cases<SpiE, CsE>(bytes: [u8; 2], e: HalError<SpiE, CsE>)
    ensures
        (bytes@[1] / 4) % 2 == 1 ==> fault_checked::<SpiE, CsE>(Ok(bytes)) == Err::<
            [u8; 2],
            HalError<SpiE, CsE>,
        >(HalError::OpenCircuitError),
        (bytes@[1] / 4) % 2 == 0 ==> fault_checked::<SpiE, CsE>(Ok(bytes)) == Ok::<
            [u8; 2],
            HalError<SpiE, CsE>,
        >(bytes),
        fault_checked::<SpiE, CsE>(Err(e)) == Err::<[u8; 2], HalError<SpiE, CsE>>(e),
{
    crate::lemma_reading_bits(bytes@, 0);
}

/// How far a read has come.
pub open spec fn phase_rank(phase: TransferPhase) -> int {
    match phase {
        TransferPhase::Idle => 0,
        TransferPhase::Selecting => 1,
        TransferPhase::Transferring => 2,
        TransferPhase::Releasing(_) => 3,
        TransferPhase::Done => 4,
    }
}

/// One read, step by step: started, the machine asks for the chip select pin to
/// go low; a failure there ends the read; otherwise it asks for the exchange of
/// two zero bytes; a
/// failure there ends the read (the pin stays low); otherwise it asks for the
/// pin to go high, and then ends. Whenever it ends, it ends with
/// `transfer_outcome(select, exchange, release)`: `Ok` with the exchanged bytes
/// exactly when all three steps succeeded, else the error of the first failure.
pub proof fn lemma_read_sequence<SpiE, CsE>(
    select: Result<(), CsE>,
    exchange: Result<[u8; 2], SpiE>,
    release: Result<(), CsE>,
)
    ensures
        transfer_next::<SpiE, CsE>(TransferPhase::Idle, TransferEvent::Begin) == (
            TransferPhase::Selecting,
            TransferAction::<SpiE, CsE>::SetChipSelect(CsState::Low),
        ),
        select is Err ==> transfer_next::<SpiE, CsE>(
            TransferPhase::Selecting,
            TransferEvent::ChipSelect(select),
        ) == (
            TransferPhase::Done,
            TransferAction::Finish(transfer_outcome(select, exchange, release)),
        ),
        select is Ok ==> transfer_next::<SpiE, CsE>(
            TransferPhase::Selecting,
            TransferEvent::ChipSelect(select),
        ) == (TransferPhase::Transferring, TransferAction::<SpiE, CsE>::Transfer([0u8, 0u8])),
        select is Ok && exchange is Err ==> transfer_next::<SpiE, CsE>(
            TransferPhase::Transferring,
            TransferEvent::Transfer(exchange),
        ) == (
            TransferPhase::Done,
            TransferAction::Finish(transfer_outcome(select, exchange, release)),
        ),
        exchange matches Ok(bytes) ==> transfer_next::<SpiE, CsE>(
            TransferPhase::Transferring,
            TransferEvent::Transfer(exchange),
        ) == (
            TransferPhase::Releasing(bytes),
            TransferAction::<SpiE, CsE>::SetChipSelect(CsState::High),
        ),
        select is Ok ==> (exchange matches Ok(bytes) ==> transfer_next::<SpiE, CsE>(
            TransferPhase::Releasing(bytes),
            TransferEvent::ChipSelect(release),
        ) == (
            TransferPhase::Done,
            TransferAction::Finish(transfer_outcome(select, exchange, release)),
        )),
{
}

/// A finished read stays finished: whatever comes, nothing more is asked.
pub proof fn lemma_done_is_final<SpiE, CsE>(event: TransferEvent<SpiE, CsE>)
    ensures
        transfer_next(TransferPhase::Done, event) == (
            TransferPhase::Done,
            TransferAction::<SpiE, CsE>::Wait,
        ),
{
}

/// The steps come in their order and only after the step before succeeded:
/// the pin goes low only at the start; the exchange is asked for only once the
/// pin went low; the pin goes high only after the exchange gave bytes; a read
/// succeeds only once the pin went high, with the bytes of the exchange. An
/// event that asks nothing changes nothing, and every step moves the read
/// forward, so that a read asks for at most four things.
pub proof fn lemma_step_order<SpiE, CsE>(phase: TransferPhase, event: TransferEvent<SpiE, CsE>)
    ensures
        transfer_next(phase, event).1 == TransferAction::<SpiE, CsE>::SetChipSelect(CsState::Low)
            ==> phase == TransferPhase::Idle && event is Begin,
        transfer_next(phase, event).1 is Transfer ==> phase == TransferPhase::Selecting
            && event matches TransferEvent::ChipSelect(Ok(_)),
        transfer_next(phase, event).1 matches TransferAction::Transfer(out) ==> out@ == seq![
            0u8,
            0u8,
        ],
        transfer_next(phase, event).1 == TransferAction::<SpiE, CsE>::SetChipSelect(CsState::High)
            ==> phase == TransferPhase::Transferring && (event matches TransferEvent::Transfer(
            Ok(bytes)) && transfer_next(phase, event).0 == TransferPhase::Releasing(bytes)),
        transfer_next(phase, event).1 matches TransferAction::Finish(Ok(bytes)) ==> phase
            == TransferPhase::Releasing(bytes) && event matches TransferEvent::ChipSelect(Ok(_)),
        transfer_next(phase, event).1 is Finish <==> (phase_rank(phase) < 4 && transfer_next(
            phase,
            event,
        ).0 == TransferPhase::Done),
        transfer_next(phase, event).1 is Wait ==> transfer_next(phase, event).0 == phase,
        !(transfer_next(phase, event).1 is Wait) ==> phase_rank(transfer_next(phase, event).0)
            > phase_rank(phase),
{
}

/// A raw read that checks for a fault: the bytes of a successful read whose
/// bit D2 is high become `OpenCircuitError`; anything else stays as it is.
pub open spec fn fault_checked<SpiE, CsE>(result: Result<[u8; 2], HalError<SpiE, CsE>>) -> Result<
    [u8; 2],
    HalError<SpiE, CsE>,
> {
    match result {
        Ok(bytes) => if crate::is_open_circuit(bytes@) {
            Err(HalError::OpenCircuitError)
        } else {
            Ok(bytes)
        },
        Err(e) => Err(e),
    }
}

/// Checks the result of a read for a fault (bit D2 high: the thermocouple
/// input is open), as the raw read of an SPI bus does.
pub fn check_fault<SpiE, CsE>(result: Result<[u8; 2], HalError<SpiE, CsE>>) -> (r: Result<
    [u8; 2],
    HalError<SpiE, CsE>,
>)
    ensures
        r == fault_checked(result),
{
    match result {
        Ok(bytes) => match crate::thermocouple_count(bytes) {
            Some(_) => Ok(bytes),
            None => Err(HalError::OpenCircuitError),
        },
        Err(e) => Err(e),
    }
}

/// The raw read of an SPI bus succeeds exactly when the chip select pin went
/// low, the exchange gave bytes whose bit D2 is low, and the pin went high;
/// it then gives those bytes. It reports `OpenCircuitError` exactly when all
/// three steps succeeded and bit D2 is high; otherwise it reports the first
/// failure.
pub proof fn lemma_raw_read_reports_fault<SpiE, CsE>(
    select: Result<(), CsE>,
    exchange: Result<[u8; 2], SpiE>,
    release: Result<(), CsE>,
)
    ensures
        fault_checked(transfer_outcome(select, exchange, release)) is Ok <==> (select is Ok
            && release is Ok && (exchange matches Ok(bytes) && !crate::is_open_circuit(bytes@))),
        fault_checked(transfer_outcome(select, exchange, release)) matches Ok(bytes) ==> exchange
            == Ok::<[u8; 2], SpiE>(bytes),
        fault_checked(transfer_outcome(select, exchange, release)) == Err::<
            [u8; 2],
            HalError<SpiE, CsE>,
        >(HalError::OpenCircuitError) <==> (select is Ok && release is Ok && (exchange matches Ok(
            bytes,
        ) && crate::is_open_circuit(bytes@))),
        !(transfer_outcome(select, exchange, release) is Ok) ==> fault_checked(
            transfer_outcome(select, exchange, release),
        ) == transfer_outcome(select, exchange, release),
{
}

/// Turns the two bytes of a read into a temperature in quarter degrees Celsius,
/// or `OpenCircuitError` when bit D2 is high (see the MAX6675 datasheet, p. 5).
pub fn read_celsius_quarters<SpiE, CsE>(raw: [u8; 2]) -> (r: Result<u16, HalError<SpiE, CsE>>)
    ensures
        r is Err <==> crate::is_open_circuit(raw@),
        r matches Err(e) ==> e is OpenCircuitError,
        r matches Ok(q) ==> q as int == crate::quarter_degrees(raw@),
{
    match thermocouple_count(raw) {
        Some(count) => Ok(count),
        None => Err(HalError::OpenCircuitError),
    }
}

} // verus!
