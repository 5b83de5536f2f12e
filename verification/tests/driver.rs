use max6675_hal::error;
use max6675_hal::hal::{
    check_fault, read_celsius_quarters, transfer_step, CsState, HalError, TransferAction,
    TransferEvent, TransferPhase,
};
use max6675_hal::{celsius_quarters, thermocouple_count, Max6675Error};

type SpiE = &'static str;
type CsE = u8;

/// The answer of a MAX6675 at about body temperature: 37 °C, 148 quarter degrees.
fn body_temperature_bytes() -> [u8; 2] {
    ((148 << 3) as u16).to_be_bytes()
}

/// Runs one read against a device that answers `select` to the chip select
/// going low, `exchange` to the SPI exchange and `release` to the chip select
/// going high. Gives the steps asked for and the result; checks that the
/// exchange is asked to send two zero bytes.
fn run_read(
    select: Result<(), CsE>,
    exchange: Result<[u8; 2], SpiE>,
    release: Result<(), CsE>,
) -> (Vec<&'static str>, Result<[u8; 2], HalError<SpiE, CsE>>) {
    let mut steps = Vec::new();
    let mut phase = TransferPhase::Idle;
    let mut event: TransferEvent<SpiE, CsE> = TransferEvent::Begin;
    loop {
        let (next, action) = transfer_step(phase, event);
        phase = next;
        match action {
            TransferAction::SetChipSelect(CsState::Low) => {
                steps.push("low");
                event = TransferEvent::ChipSelect(select);
            }
            TransferAction::Transfer(out) => {
                assert_eq!(out, [0x00, 0x00]);
                steps.push("transfer");
                event = TransferEvent::Transfer(exchange);
            }
            TransferAction::SetChipSelect(CsState::High) => {
                steps.push("high");
                event = TransferEvent::ChipSelect(release);
            }
            TransferAction::Finish(result) => {
                assert_eq!(phase, TransferPhase::Done);
                return (steps, result);
            }
            TransferAction::Wait => panic!("the machine waited on an answer it asked for"),
        }
    }
}

#[test]
fn lib_test_raw() {
    let (steps, result) = run_read(Ok(()), Ok(body_temperature_bytes()), Ok(()));
    assert_eq!(steps, vec!["low", "transfer", "high"]);
    assert_eq!(result.unwrap(), [0x04, 0xA0]);
}

#[test]
fn lib_test_celsius() {
    let quarters = celsius_quarters::<SpiE, CsE>([0x04, 0xA0]).unwrap();
    assert_eq!(quarters, 148);
    let celsius = quarters as f32 * 0.25_f32;
    assert!((celsius - 37_f32).abs() < 1e-6);
}

#[test]
fn lib_test_fahrenheit() {
    let quarters = celsius_quarters::<SpiE, CsE>([0x04, 0xA0]).unwrap();
    let f = simmer::Temperature::Celsius(quarters as f32 * 0.25).to_fahrenheit();
    assert!((f.into_inner() - 98.6_f32).abs() < 1e-4);
}

#[test]
fn lib_test_kelvin() {
    let quarters = celsius_quarters::<SpiE, CsE>([0x04, 0xA0]).unwrap();
    let k = simmer::Temperature::Celsius(quarters as f32 * 0.25).to_kelvin();
    assert!((k.into_inner() - 310.15_f32).abs() < 1e-3);
}

#[test]
fn max_test_celsius() {
    let (_, result) = run_read(Ok(()), Ok(body_temperature_bytes()), Ok(()));
    let quarters = read_celsius_quarters::<SpiE, CsE>(result.unwrap()).unwrap();
    assert!((quarters as f32 * 0.25 - 37_f32).abs() < 1e-6);
}

#[test]
fn max_test_fahrenheit() {
    let (_, result) = run_read(Ok(()), Ok(body_temperature_bytes()), Ok(()));
    let quarters = read_celsius_quarters::<SpiE, CsE>(result.unwrap()).unwrap();
    let f = simmer::Temperature::Celsius(quarters as f32 * 0.25).to_fahrenheit();
    assert!((f.into_inner() - 98.6_f32).abs() < 1e-4);
}

#[test]
fn max_test_kelvin() {
    let (_, result) = run_read(Ok(()), Ok(body_temperature_bytes()), Ok(()));
    let quarters = read_celsius_quarters::<SpiE, CsE>(result.unwrap()).unwrap();
    let k = simmer::Temperature::Celsius(quarters as f32 * 0.25).to_kelvin();
    assert!((k.into_inner() - 310.15_f32).abs() < 1e-3);
}

#[test]
fn max_test_raw() {
    let (_, result) = run_read(Ok(()), Ok(body_temperature_bytes()), Ok(()));
    assert_eq!(result.unwrap(), [0x04, 0xA0]);
}

#[test]
fn read_fails_when_chip_select_does_not_go_low() {
    let (steps, result) = run_read(Err(1), Ok([1, 2]), Ok(()));
    assert_eq!(steps, vec!["low"]);
    assert!(matches!(result, Err(HalError::ChipSelectError(1))));
}

#[test]
fn read_fails_on_spi_error_and_leaves_chip_selected() {
    let (steps, result) = run_read(Ok(()), Err("bus"), Ok(()));
    assert_eq!(steps, vec!["low", "transfer"]);
    assert!(matches!(result, Err(HalError::SpiError("bus"))));
}

#[test]
fn read_fails_when_chip_select_does_not_go_high() {
    let (steps, result) = run_read(Ok(()), Ok([1, 2]), Err(9));
    assert_eq!(steps, vec!["low", "transfer", "high"]);
    assert!(matches!(result, Err(HalError::ChipSelectError(9))));
}

#[test]
fn unexpected_events_change_nothing() {
    let (p, a) = transfer_step::<SpiE, CsE>(TransferPhase::Idle, TransferEvent::ChipSelect(Ok(())));
    assert_eq!(p, TransferPhase::Idle);
    assert!(matches!(a, TransferAction::Wait));
    let (p, a) = transfer_step::<SpiE, CsE>(TransferPhase::Selecting, TransferEvent::Transfer(Ok([1, 1])));
    assert_eq!(p, TransferPhase::Selecting);
    assert!(matches!(a, TransferAction::Wait));
    let (p, a) = transfer_step::<SpiE, CsE>(TransferPhase::Transferring, TransferEvent::Begin);
    assert_eq!(p, TransferPhase::Transferring);
    assert!(matches!(a, TransferAction::Wait));
    let (p, a) = transfer_step::<SpiE, CsE>(TransferPhase::Releasing([3, 4]), TransferEvent::Transfer(Err("x")));
    assert_eq!(p, TransferPhase::Releasing([3, 4]));
    assert!(matches!(a, TransferAction::Wait));
}

#[test]
fn finished_read_stays_finished() {
    for event in [
        TransferEvent::<SpiE, CsE>::Begin,
        TransferEvent::ChipSelect(Ok(())),
        TransferEvent::Transfer(Ok([1, 2])),
    ] {
        let (p, a) = transfer_step(TransferPhase::Done, event);
        assert_eq!(p, TransferPhase::Done);
        assert!(matches!(a, TransferAction::Wait));
    }
}

#[test]
fn raw_read_checks_for_a_fault() {
    // a read whose bit D2 is high
    let (steps, result) = run_read(Ok(()), Ok([0x04, 0xA4]), Ok(()));
    assert_eq!(steps, vec!["low", "transfer", "high"]);
    assert!(matches!(check_fault(result), Err(HalError::OpenCircuitError)));
    // a read whose bit D2 is low
    let (_, result) = run_read(Ok(()), Ok([0x04, 0xA0]), Ok(()));
    assert_eq!(check_fault(result).unwrap(), [0x04, 0xA0]);
    // a failed read keeps its error
    let (_, result) = run_read(Ok(()), Err("bus"), Ok(()));
    assert!(matches!(check_fault(result), Err(HalError::SpiError("bus"))));
    let (_, result) = run_read(Err(5), Ok([0x04, 0xA4]), Ok(()));
    assert!(matches!(check_fault(result), Err(HalError::ChipSelectError(5))));
}

#[test]
fn open_circuit_is_reported() {
    // bit D2 high
    assert_eq!(thermocouple_count([0x04, 0xA4]), None);
    assert_eq!(celsius_quarters::<SpiE, CsE>([0x04, 0xA4]), Err(Max6675Error::OpenCircuitError));
    assert!(matches!(read_celsius_quarters::<SpiE, CsE>([0x00, 0x04]), Err(HalError::OpenCircuitError)));
}

#[test]
fn count_uses_the_high_bits_of_the_word() {
    // the high byte counts: 0x7FF8 >> 3 is 0x0FFF
    assert_eq!(thermocouple_count([0x7F, 0xF8]), Some(0x0FFF));
    // bits 0, 1 do not count
    assert_eq!(thermocouple_count([0x04, 0xA3]), Some(148));
    // bit 15 is kept, as the 0x1FFF mask keeps it
    assert_eq!(thermocouple_count([0xFF, 0xF8]), Some(0x1FFF));
    assert_eq!(thermocouple_count([0x00, 0x00]), Some(0));
}

#[test]
fn errors_convert_from_their_causes() {
    let e: Max6675Error<SpiE, CsE> = Max6675Error::from("spi");
    assert_eq!(e, Max6675Error::SpiError("spi"));
    let e2: error::Max6675Error<SpiE> = "spi".into();
    assert!(e2 == error::Max6675Error::SpiError("spi"));
    assert_eq!(
        Max6675Error::from_hal(HalError::<SpiE, CsE>::ChipSelectError(3)),
        Max6675Error::CsError(3)
    );
    assert_eq!(
        Max6675Error::from_hal(HalError::<SpiE, CsE>::SpiError("s")),
        Max6675Error::SpiError("s")
    );
    assert_eq!(
        Max6675Error::from_hal(HalError::<SpiE, CsE>::OpenCircuitError),
        Max6675Error::OpenCircuitError
    );
}

#[test]
fn error_messages() {
    assert_eq!(
        Max6675Error::<SpiE, CsE>::OpenCircuitError.message(),
        "The MAX6675 has detected an open circuit."
    );
    assert_eq!(
        Max6675Error::<SpiE, CsE>::SpiError("x").message(),
        "An error occured while attempting to reach the MAX6675 over SPI."
    );
    assert_eq!(Max6675Error::<SpiE, CsE>::CsError(1).message(), "Detected a chip select pin error.");
    assert_eq!(
        error::Max6675Error::<SpiE>::OpenCircuitError.message(),
        "The MAX6675 detected an open circuit (bit D2 was high). Please check the thermocouple connection and try again."
    );
    assert_eq!(
        error::Max6675Error::<SpiE>::SpiError("x").message(),
        "An error occured while attempting to reach the MAX6675 over SPI."
    );
    assert_eq!(HalError::<SpiE, CsE>::SpiError("x").message(), "An SPI error has occured.");
    assert_eq!(HalError::<SpiE, CsE>::ChipSelectError(2).message(), "A Chip Select error has occured.");
    assert!(HalError::<SpiE, CsE>::OpenCircuitError
        .message()
        .starts_with("The MAX6675 detected an open circuit (bit D2 was high). \n"));
}
