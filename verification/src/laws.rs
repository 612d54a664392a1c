//! What holds of the conversions between raw bytes and typed values, for
//! every byte and every value.

use crate::error::{Error, Field};
use crate::motor::{OutMode, OutPort, OutputState, RegulationMode, RunState, RUN_FOREVER};
use vstd::prelude::*;
use vstd::std_specs::convert::{FromSpec, TryFromSpec};
use vstd::std_specs::ops::BitOrSpec;

verus! {

/// A byte that encodes a port is read as a port, and that port encodes to the
/// same byte.
pub proof fn out_port_accepts_its_codes(code: u8)
    requires
        OutPort::is_code(code),
    ensures
        OutPort::try_from_spec(code) is Ok,
        OutPort::try_from_spec(code).unwrap().to_u8() == code,
{
    OutPort::lemma_code_is_encoding(code);
}

/// A byte that encodes no port is rejected, and the error names the port
/// field and holds the byte.
pub proof fn out_port_rejects_other_bytes(code: u8)
    requires
        !OutPort::is_code(code),
    ensures
        OutPort::try_from_spec(code) == Err::<OutPort, Error>(
            Error::InvalidValue { field: Field::OutPort, value: code },
        ),
{
}

/// No two distinct ports share an encoding.
pub proof fn out_port_encoding_is_injective(a: OutPort, b: OutPort)
    requires
        a.to_u8() == b.to_u8(),
    ensures
        a == b,
{
}

/// Every port is read back from the byte that encodes it.
pub proof fn out_port_round_trip(port: OutPort)
    ensures
        OutPort::is_code(port.to_u8()),
        OutPort::try_from_spec(port.to_u8()) == Ok::<OutPort, Error>(port),
{
}

/// A byte that encodes a regulation mode is read as a mode, and that mode
/// encodes to the same byte.
pub proof fn regulation_mode_accepts_its_codes(code: u8)
    requires
        RegulationMode::is_code(code),
    ensures
        RegulationMode::try_from_spec(code) is Ok,
        RegulationMode::try_from_spec(code).unwrap().to_u8() == code,
{
    RegulationMode::lemma_code_is_encoding(code);
}

/// A byte that encodes no regulation mode is rejected, and the error names
/// the regulation field and holds the byte.
pub proof fn regulation_mode_rejects_other_bytes(code: u8)
    requires
        !RegulationMode::is_code(code),
    ensures
        RegulationMode::try_from_spec(code) == Err::<RegulationMode, Error>(
            Error::InvalidValue { field: Field::RegulationMode, value: code },
        ),
{
}

/// No two distinct regulation modes share an encoding.
pub proof fn regulation_mode_encoding_is_injective(a: RegulationMode, b: RegulationMode)
    requires
        a.to_u8() == b.to_u8(),
    ensures
        a == b,
{
}

/// Every regulation mode is read back from the byte that encodes it.
pub proof fn regulation_mode_round_trip(mode: RegulationMode)
    ensures
        RegulationMode::is_code(mode.to_u8()),
        RegulationMode::try_from_spec(mode.to_u8()) == Ok::<RegulationMode, Error>(mode),
{
}

/// A byte that encodes a run state is read as a state, and that state encodes
/// to the same byte.
pub proof fn run_state_accepts_its_codes(code: u8)
    requires
        RunState::is_code(code),
    ensures
        RunState::try_from_spec(code) is Ok,
        RunState::try_from_spec(code).unwrap().to_u8() == code,
{
    RunState::lemma_code_is_encoding(code);
}

/// A byte that encodes no run state is rejected, and the error names the run
/// state field and holds the byte.
pub proof fn run_state_rejects_other_bytes(code: u8)
    requires
        !RunState::is_code(code),
    ensures
        RunState::try_from_spec(code) == Err::<RunState, Error>(
            Error::InvalidValue { field: Field::RunState, value: code },
        ),
{
}

/// No two distinct run states share an encoding.
pub proof fn run_state_encoding_is_injective(a: RunState, b: RunState)
    requires
        a.to_u8() == b.to_u8(),
    ensures
        a == b,
{
}

/// Every run state is read back from the byte that encodes it.
pub proof fn run_state_round_trip(state: RunState)
    ensures
        RunState::is_code(state.to_u8()),
        RunState::try_from_spec(state.to_u8()) == Ok::<RunState, Error>(state),
{
}

/// Every byte is a mode register, and the register holds that byte.
pub proof fn out_mode_takes_every_byte(code: u8)
    ensures
        <OutMode as FromSpec<u8>>::obeys_from_spec(),
        OutMode::from_spec(code)@ == code,
{
}

/// `|` on mode registers is their union.
pub proof fn out_mode_bitor_is_union(a: OutMode, b: OutMode)
    ensures
        <OutMode as BitOrSpec<OutMode>>::obeys_bitor_spec(),
        a.bitor_req(b),
        a.bitor_spec(b) == a.union(b),
{
}

/// Combining a register with itself changes nothing.
pub proof fn out_mode_union_idempotent(a: OutMode)
    ensures
        a.union(a) == a,
{
    let x: u8 = a.0;
    assert(x | x == x) by (bit_vector);
}

/// The order of the operands does not matter to a union.
pub proof fn out_mode_union_commutative(a: OutMode, b: OutMode)
    ensures
        a.union(b) == b.union(a),
{
    let x: u8 = a.0;
    let y: u8 = b.0;
    assert(x | y == y | x) by (bit_vector);
}

/// A union holds every bit of either operand, and is the least such
/// register: whatever contains both operands contains their union.
pub proof fn out_mode_union_keeps_bits(a: OutMode, b: OutMode, c: OutMode)
    ensures
        a.union(b).contains(a),
        a.union(b).contains(b),
        c.contains(a) && c.contains(b) ==> c.contains(a.union(b)),
{
    let x: u8 = a.0;
    let y: u8 = b.0;
    let z: u8 = c.0;
    assert((x | y) & x == x) by (bit_vector);
    assert((x | y) & y == y) by (bit_vector);
    assert(z & x == x && z & y == y ==> z & (x | y) == (x | y)) by (bit_vector);
}

/// The idle register is the unit of the union.
pub proof fn out_mode_union_idle(a: OutMode)
    ensures
        a.union(OutMode(0x00)) == a,
        a.contains(OutMode(0x00)),
{
    let x: u8 = a.0;
    assert(x | 0x00 == x) by (bit_vector);
    assert(x & 0x00 == 0x00) by (bit_vector);
}

/// A status is decoded exactly when its three encoded fields are valid, and
/// the record then encodes back to the raw values it was read from.
pub proof fn output_state_round_trip(
    port: u8,
    power: i8,
    mode: u8,
    regulation_mode: u8,
    turn_ratio: i8,
    run_state: u8,
    tacho_limit: u32,
    tacho_count: i32,
    block_tacho_count: i32,
    rotation_count: i32,
)
    ensures
        ({
            let r = OutputState::spec_decode(
                port,
                power,
                mode,
                regulation_mode,
                turn_ratio,
                run_state,
                tacho_limit,
                tacho_count,
                block_tacho_count,
                rotation_count,
            );
            &&& r is Ok <==> OutPort::is_code(port) && RegulationMode::is_code(regulation_mode)
                && RunState::is_code(run_state)
            &&& r matches Ok(state) ==> {
                &&& state.port.to_u8() == port
                &&& state.power == power
                &&& state.mode@ == mode
                &&& state.regulation_mode.to_u8() == regulation_mode
                &&& state.turn_ratio == turn_ratio
                &&& state.run_state.to_u8() == run_state
                &&& state.tacho_limit == tacho_limit
                &&& state.tacho_count == tacho_count
                &&& state.block_tacho_count == block_tacho_count
                &&& state.rotation_count == rotation_count
            }
        }),
{
    if OutPort::is_code(port) {
        OutPort::lemma_code_is_encoding(port);
    }
    if RegulationMode::is_code(regulation_mode) {
        RegulationMode::lemma_code_is_encoding(regulation_mode);
    }
    if RunState::is_code(run_state) {
        RunState::lemma_code_is_encoding(run_state);
    }
}

/// A status that is not decoded reports the first field, in the order port,
/// regulation mode, run state, whose byte encodes nothing, with that byte.
pub proof fn output_state_reports_first_invalid_field(
    port: u8,
    power: i8,
    mode: u8,
    regulation_mode: u8,
    turn_ratio: i8,
    run_state: u8,
    tacho_limit: u32,
    tacho_count: i32,
    block_tacho_count: i32,
    rotation_count: i32,
)
    ensures
        ({
            let r = OutputState::spec_decode(
                port,
                power,
                mode,
                regulation_mode,
                turn_ratio,
                run_state,
                tacho_limit,
                tacho_count,
                block_tacho_count,
                rotation_count,
            );
            &&& !OutPort::is_code(port) ==> r == Err::<OutputState, Error>(
                Error::InvalidValue { field: Field::OutPort, value: port },
            )
            &&& OutPort::is_code(port) && !RegulationMode::is_code(regulation_mode) ==> r == Err::<
                OutputState,
                Error,
            >(Error::InvalidValue { field: Field::RegulationMode, value: regulation_mode })
            &&& OutPort::is_code(port) && RegulationMode::is_code(regulation_mode)
                && !RunState::is_code(run_state) ==> r == Err::<OutputState, Error>(
                Error::InvalidValue { field: Field::RunState, value: run_state },
            )
        }),
{
}

/// A status asks for unlimited rotation exactly when its tachometer limit is
/// zero: the limit's type holds no other mark.
pub proof fn run_forever_is_the_zero_limit(state: OutputState)
    ensures
        RUN_FOREVER == 0,
        state.runs_forever() <==> state.tacho_limit == 0,
{
}

} // verus!
