use motor_protocol::motor::{OutMode, OutPort, OutputState, RegulationMode, RunState, RUN_FOREVER};
use motor_protocol::{Error, Field};
use std::collections::HashSet;

fn invalid(field: Field, value: u8) -> Error {
    Error::InvalidValue { field, value }
}

#[test]
fn out_port_reads_each_encoding() {
    assert_eq!(OutPort::try_from(0u8), Ok(OutPort::A));
    assert_eq!(OutPort::try_from(1u8), Ok(OutPort::B));
    assert_eq!(OutPort::try_from(2u8), Ok(OutPort::C));
    assert_eq!(OutPort::try_from(3u8), Ok(OutPort::AB));
    assert_eq!(OutPort::try_from(4u8), Ok(OutPort::AC));
    assert_eq!(OutPort::try_from(5u8), Ok(OutPort::BC));
    assert_eq!(OutPort::try_from(6u8), Ok(OutPort::ABC));
    assert_eq!(OutPort::try_from(0xffu8), Ok(OutPort::All));
}

#[test]
fn out_port_round_trips_over_every_byte() {
    let mut accepted: u32 = 0;
    for code in 0u8..=255u8 {
        match OutPort::try_from(code) {
            Ok(port) => {
                assert!(code <= 6 || code == 0xff);
                assert_eq!(port.to_u8(), code);
                accepted += 1;
            }
            Err(e) => {
                assert!(code > 6 && code != 0xff);
                assert_eq!(e, invalid(Field::OutPort, code));
            }
        }
    }
    assert_eq!(accepted, 8);
}

#[test]
fn out_port_encodes_each_variant() {
    assert_eq!(OutPort::A.to_u8(), 0);
    assert_eq!(OutPort::B.to_u8(), 1);
    assert_eq!(OutPort::C.to_u8(), 2);
    assert_eq!(OutPort::AB.to_u8(), 3);
    assert_eq!(OutPort::AC.to_u8(), 4);
    assert_eq!(OutPort::BC.to_u8(), 5);
    assert_eq!(OutPort::ABC.to_u8(), 6);
    assert_eq!(OutPort::All.to_u8(), 0xff);
}

#[test]
fn out_port_rejects_bytes_outside_the_set() {
    assert_eq!(OutPort::try_from(7u8), Err(invalid(Field::OutPort, 7)));
    assert_eq!(OutPort::try_from(0x80u8), Err(invalid(Field::OutPort, 0x80)));
    assert_eq!(OutPort::try_from(0xfeu8), Err(invalid(Field::OutPort, 0xfe)));
}

#[test]
fn out_port_is_hashable_and_copyable() {
    let port: OutPort = OutPort::BC;
    let copy: OutPort = port;
    let mut seen: HashSet<OutPort> = HashSet::new();
    assert!(seen.insert(port));
    assert!(!seen.insert(copy));
    assert!(seen.insert(OutPort::All));
    assert_eq!(seen.len(), 2);
}

#[test]
fn regulation_mode_reads_each_encoding() {
    assert_eq!(RegulationMode::try_from(0u8), Ok(RegulationMode::Idle));
    assert_eq!(RegulationMode::try_from(1u8), Ok(RegulationMode::Speed));
    assert_eq!(RegulationMode::try_from(2u8), Ok(RegulationMode::Sync));
}

#[test]
fn regulation_mode_rejects_bytes_outside_the_set() {
    assert_eq!(RegulationMode::try_from(3u8), Err(invalid(Field::RegulationMode, 3)));
    assert_eq!(RegulationMode::try_from(255u8), Err(invalid(Field::RegulationMode, 255)));
}

#[test]
fn regulation_mode_round_trips_over_every_byte() {
    let mut accepted: u32 = 0;
    for code in 0u8..=255u8 {
        match RegulationMode::try_from(code) {
            Ok(mode) => {
                assert!(code <= 2);
                assert_eq!(mode.to_u8(), code);
                accepted += 1;
            }
            Err(e) => {
                assert!(code > 2);
                assert_eq!(e, invalid(Field::RegulationMode, code));
            }
        }
    }
    assert_eq!(accepted, 3);
}

#[test]
fn regulation_mode_defaults_to_idle() {
    assert_eq!(RegulationMode::default(), RegulationMode::Idle);
    assert_eq!(RegulationMode::default().to_u8(), 0);
}

#[test]
fn run_state_reads_each_encoding() {
    assert_eq!(RunState::try_from(0x00u8), Ok(RunState::Idle));
    assert_eq!(RunState::try_from(0x10u8), Ok(RunState::RampUp));
    assert_eq!(RunState::try_from(0x20u8), Ok(RunState::Running));
    assert_eq!(RunState::try_from(0x40u8), Ok(RunState::RampDown));
}

#[test]
fn run_state_rejects_bytes_between_the_encodings() {
    assert_eq!(RunState::try_from(0x30u8), Err(invalid(Field::RunState, 0x30)));
    assert_eq!(RunState::try_from(0x15u8), Err(invalid(Field::RunState, 0x15)));
    assert_eq!(RunState::try_from(0x01u8), Err(invalid(Field::RunState, 0x01)));
    assert_eq!(RunState::try_from(0x80u8), Err(invalid(Field::RunState, 0x80)));
}

#[test]
fn run_state_round_trips_over_every_byte() {
    let mut accepted: u32 = 0;
    for code in 0u8..=255u8 {
        match RunState::try_from(code) {
            Ok(state) => {
                assert!(code == 0x00 || code == 0x10 || code == 0x20 || code == 0x40);
                assert_eq!(state.to_u8(), code);
                accepted += 1;
            }
            Err(e) => {
                assert!(code != 0x00 && code != 0x10 && code != 0x20 && code != 0x40);
                assert_eq!(e, invalid(Field::RunState, code));
            }
        }
    }
    assert_eq!(accepted, 4);
}

#[test]
fn out_mode_named_registers() {
    assert_eq!(OutMode::idle().bits(), 0x00);
    assert_eq!(OutMode::on().bits(), 0x01);
    assert_eq!(OutMode::brake().bits(), 0x02);
    assert_eq!(OutMode::regulated().bits(), 0x04);
}

#[test]
fn out_mode_on_with_brake() {
    let both: OutMode = OutMode::on() | OutMode::brake();
    assert_eq!(both.bits(), 0x03);
    assert_eq!(both, OutMode::from(0x03u8));
    assert!(both.contains(OutMode::on()));
    assert!(both.contains(OutMode::brake()));
    assert!(!both.contains(OutMode::regulated()));
}

#[test]
fn out_mode_takes_every_byte() {
    for code in 0u8..=255u8 {
        assert_eq!(OutMode::from(code).bits(), code);
    }
}

#[test]
fn out_mode_union_is_idempotent() {
    for code in 0u8..=255u8 {
        let mode: OutMode = OutMode::from(code);
        assert_eq!(mode | mode, mode);
        assert_eq!(mode | OutMode::idle(), mode);
        assert!(mode.contains(OutMode::idle()));
    }
}

#[test]
fn out_mode_union_is_commutative_and_keeps_bits() {
    for a in 0u8..=255u8 {
        for b in 0u8..=255u8 {
            let left: OutMode = OutMode::from(a) | OutMode::from(b);
            let right: OutMode = OutMode::from(b) | OutMode::from(a);
            assert_eq!(left, right);
            assert_eq!(left.bits(), a | b);
            assert!(left.contains(OutMode::from(a)));
            assert!(left.contains(OutMode::from(b)));
        }
    }
}

#[test]
fn out_mode_keeps_unnamed_bits() {
    let mode: OutMode = OutMode::from(0xf8u8) | OutMode::on();
    assert_eq!(mode.bits(), 0xf9);
    assert!(!OutMode::from(0x06u8).contains(OutMode::on()));
    assert!(OutMode::from(0x06u8).contains(OutMode::from(0x04u8)));
}

#[test]
fn run_forever_is_zero() {
    let limit: u32 = RUN_FOREVER;
    assert_eq!(limit, 0);
}

#[test]
fn status_is_decoded_from_valid_fields() {
    let state: OutputState =
        OutputState::decode(0x03, -50, 0x05, 0x01, 10, 0x20, 0, 120, 30, 500).unwrap();
    assert_eq!(state.port, OutPort::AB);
    assert_eq!(state.power, -50);
    assert_eq!(state.mode, OutMode::on() | OutMode::regulated());
    assert!(state.mode.contains(OutMode::on()));
    assert!(state.mode.contains(OutMode::regulated()));
    assert!(!state.mode.contains(OutMode::brake()));
    assert_eq!(state.regulation_mode, RegulationMode::Speed);
    assert_eq!(state.turn_ratio, 10);
    assert_eq!(state.run_state, RunState::Running);
    assert_eq!(state.tacho_limit, RUN_FOREVER);
    assert!(state.runs_forever());
    assert_eq!(state.tacho_count, 120);
    assert_eq!(state.block_tacho_count, 30);
    assert_eq!(state.rotation_count, 500);
}

#[test]
fn status_with_invalid_run_state_is_refused() {
    let r = OutputState::decode(0x03, -50, 0x05, 0x01, 10, 0x11, 0, 120, 30, 500);
    let e: Error = r.unwrap_err();
    assert_eq!(e, invalid(Field::RunState, 0x11));
    assert_eq!(e.field(), Field::RunState);
    assert_eq!(e.field().name(), "RunState");
    assert_eq!(e.value(), 0x11);
    assert_eq!(e.message(), "Invalid RunState");
}

#[test]
fn status_reports_the_first_invalid_field() {
    let all_bad = OutputState::decode(0x07, 0, 0x00, 0x03, 0, 0x11, 0, 0, 0, 0);
    assert_eq!(all_bad, Err(invalid(Field::OutPort, 0x07)));
    let port_good = OutputState::decode(0xff, 0, 0x00, 0x03, 0, 0x11, 0, 0, 0, 0);
    assert_eq!(port_good, Err(invalid(Field::RegulationMode, 0x03)));
    let run_state_bad = OutputState::decode(0xff, 0, 0x00, 0x02, 0, 0x11, 0, 0, 0, 0);
    assert_eq!(run_state_bad, Err(invalid(Field::RunState, 0x11)));
}

#[test]
fn status_with_a_limit_does_not_run_forever() {
    let state: OutputState =
        OutputState::decode(0x00, 100, 0xff, 0x02, -100, 0x40, 360, -7, -8, -9).unwrap();
    assert!(!state.runs_forever());
    assert_eq!(state.tacho_limit, 360);
    assert_eq!(state.port, OutPort::A);
    assert_eq!(state.mode.bits(), 0xff);
    assert_eq!(state.regulation_mode, RegulationMode::Sync);
    assert_eq!(state.run_state, RunState::RampDown);
    assert_eq!(state.power, 100);
    assert_eq!(state.turn_ratio, -100);
    assert_eq!(state.tacho_count, -7);
    assert_eq!(state.block_tacho_count, -8);
    assert_eq!(state.rotation_count, -9);
}

#[test]
fn status_is_assembled_as_given() {
    let state: OutputState = OutputState::new(
        OutPort::C,
        -1,
        OutMode::brake(),
        RegulationMode::default(),
        2,
        RunState::RampUp,
        5,
        6,
        7,
        8,
    );
    let expected: OutputState = OutputState {
        port: OutPort::C,
        power: -1,
        mode: OutMode::from(0x02u8),
        regulation_mode: RegulationMode::Idle,
        turn_ratio: 2,
        run_state: RunState::RampUp,
        tacho_limit: 5,
        tacho_count: 6,
        block_tacho_count: 7,
        rotation_count: 8,
    };
    assert_eq!(state, expected);
    assert_eq!(
        OutputState::decode(0x02, -1, 0x02, 0x00, 2, 0x10, 5, 6, 7, 8),
        Ok(expected)
    );
}

#[test]
fn error_names_its_field() {
    assert_eq!(Field::OutPort.name(), "OutPort");
    assert_eq!(Field::RegulationMode.name(), "RegulationMode");
    assert_eq!(Field::RunState.name(), "RunState");
    assert_eq!(invalid(Field::OutPort, 9).message(), "Invalid OutPort");
    assert_eq!(invalid(Field::RegulationMode, 9).message(), "Invalid RegulationMode");
    assert_eq!(invalid(Field::RunState, 9).message(), "Invalid RunState");
    assert_eq!(invalid(Field::OutPort, 9).value(), 9);
    assert_eq!(invalid(Field::RegulationMode, 9).field(), Field::RegulationMode);
}
