//! The typed values of the motor output protocol and their byte encodings.

use crate::error::{Error, Field};
use vstd::prelude::*;
use vstd::std_specs::convert::TryFromSpec;

verus! {

/// The tachometer limit that stands for unlimited rotation.
pub const RUN_FOREVER: u32 = 0;

/// The output port, or set of ports, that a command addresses.
#[derive(Copy, Clone, Debug, Hash, PartialEq, Eq, Structural)]
pub enum OutPort {
    A,
    B,
    C,
    AB,
    AC,
    BC,
    ABC,
    /// Every port of the device.
    All,
}

impl OutPort {
    /// The byte that encodes this port.
    pub open spec fn spec_to_u8(self) -> u8 {
        match self {
            OutPort::A => 0,
            OutPort::B => 1,
            OutPort::C => 2,
            OutPort::AB => 3,
            OutPort::AC => 4,
            OutPort::BC => 5,
            OutPort::ABC => 6,
            OutPort::All => 0xff,
        }
    }

    /// Whether `code` encodes a port.
    pub open spec fn is_code(code: u8) -> bool {
        code <= 6 || code == 0xff
    }

    /// The byte that encodes this port.
    #[verifier::when_used_as_spec(spec_to_u8)]
    pub fn to_u8(self) -> (code: u8)
        ensures
            code == self.spec_to_u8(),
            Self::is_code(code),
    {
        match self {
            OutPort::A => 0,
            OutPort::B => 1,
            OutPort::C => 2,
            OutPort::AB => 3,
            OutPort::AC => 4,
            OutPort::BC => 5,
            OutPort::ABC => 6,
            OutPort::All => 0xff,
        }
    }

    /// Every byte that `is_code` admits is the encoding of a port.
    pub proof fn lemma_code_is_encoding(code: u8)
        requires
            Self::is_code(code),
        ensures
            exists|port: OutPort| port.spec_to_u8() == code,
    {
        assert(OutPort::A.spec_to_u8() == 0);
        assert(OutPort::B.spec_to_u8() == 1);
        assert(OutPort::C.spec_to_u8() == 2);
        assert(OutPort::AB.spec_to_u8() == 3);
        assert(OutPort::AC.spec_to_u8() == 4);
        assert(OutPort::BC.spec_to_u8() == 5);
        assert(OutPort::ABC.spec_to_u8() == 6);
        assert(OutPort::All.spec_to_u8() == 0xff);
    }
}

impl vstd::std_specs::convert::TryFromSpecImpl<u8> for OutPort {
    open spec fn obeys_try_from_spec() -> bool {
        true
    }

    /// The value whose encoding is `code`, where there is one; else the error
    /// that holds `code`.
    open spec fn try_from_spec(code: u8) -> core::result::Result<Self, Error> {
        if Self::is_code(code) {
            Ok(choose|port: OutPort| port.spec_to_u8() == code)
        } else {
            Err(Error::InvalidValue { field: Field::OutPort, value: code })
        }
    }
}

impl TryFrom<u8> for OutPort {
    type Error = Error;

    /// Reads a port from its byte. Succeeds exactly on the bytes that encode a
    /// port, with the port whose encoding is `code`; any other byte comes back
    /// in the error.
    fn try_from(code: u8) -> (r: core::result::Result<Self, Error>)
        ensures
            r is Ok <==> Self::is_code(code),
            r matches Ok(port) ==> port.to_u8() == code,
            r matches Err(e) ==> e == (Error::InvalidValue { field: Field::OutPort, value: code }),
    {
        proof {
            if Self::is_code(code) {
                Self::lemma_code_is_encoding(code);
            }
        }
        match code {
            0 => Ok(OutPort::A),
            1 => Ok(OutPort::B),
            2 => Ok(OutPort::C),
            3 => Ok(OutPort::AB),
            4 => Ok(OutPort::AC),
            5 => Ok(OutPort::BC),
            6 => Ok(OutPort::ABC),
            0xff => Ok(OutPort::All),
            _ => Err(Error::InvalidValue { field: Field::OutPort, value: code }),
        }
    }
}

/// A register of independent mode bits. Every byte is a valid register: the
/// bits without a name are carried along untouched.
#[derive(Copy, Clone, Debug, PartialEq, Eq, Structural)]
pub struct OutMode(pub u8);

impl View for OutMode {
    type V = u8;

    /// The register's byte.
    open spec fn view(&self) -> u8 {
        self.0
    }
}

impl OutMode {
    /// The register with no bit set: the output coasts.
    pub fn idle() -> (r: Self)
        ensures
            r@ == 0x00,
    {
        Self(0x00)
    }

    /// The register with only the bit that turns the output on.
    pub fn on() -> (r: Self)
        ensures
            r@ == 0x01,
    {
        Self(0x01)
    }

    /// The register with only the bit that brakes the output between pulses.
    pub fn brake() -> (r: Self)
        ensures
            r@ == 0x02,
    {
        Self(0x02)
    }

    /// The register with only the bit that turns regulation on.
    pub fn regulated() -> (r: Self)
        ensures
            r@ == 0x04,
    {
        Self(0x04)
    }

    /// The register that holds every bit set in `self` or in `other`.
    pub open spec fn union(self, other: OutMode) -> OutMode {
        OutMode(self.0 | other.0)
    }

    /// Whether every bit set in `other` is set in `self`.
    pub open spec fn spec_contains(self, other: OutMode) -> bool {
        self.0 & other.0 == other.0
    }

    /// The register's byte.
    pub fn bits(self) -> (b: u8)
        ensures
            b == self@,
    {
        self.0
    }

    /// Whether every bit set in `other` is set in `self`.
    #[verifier::when_used_as_spec(spec_contains)]
    pub fn contains(self, other: OutMode) -> (r: bool)
        ensures
            r == self.spec_contains(other),
    {
        self.0 & other.0 == other.0
    }
}

impl vstd::std_specs::convert::FromSpecImpl<u8> for OutMode {
    open spec fn obeys_from_spec() -> bool {
        true
    }

    open spec fn from_spec(code: u8) -> Self {
        OutMode(code)
    }
}

impl From<u8> for OutMode {
    /// Takes any byte as a register, bit for bit.
    fn from(code: u8) -> (r: Self)
        ensures
            r@ == code,
    {
        Self(code)
    }
}

impl vstd::std_specs::ops::BitOrSpecImpl<OutMode> for OutMode {
    open spec fn obeys_bitor_spec() -> bool {
        true
    }

    open spec fn bitor_req(self, other: OutMode) -> bool {
        true
    }

    open spec fn bitor_spec(self, other: OutMode) -> Self {
        self.union(other)
    }
}

impl core::ops::BitOr<OutMode> for OutMode {
    type Output = Self;

    /// Combines two registers into their bitwise union.
    fn bitor(self, other: OutMode) -> (r: Self)
        ensures
            r == self.union(other),
            r@ == self@ | other@,
    {
        Self(self.0 | other.0)
    }
}

/// The control strategy that the firmware applies to an output.
#[derive(Copy, Clone, Debug, PartialEq, Eq, Structural)]
pub enum RegulationMode {
    Idle,
    Speed,
    Sync,
}

impl RegulationMode {
    /// The byte that encodes this mode.
    pub open spec fn spec_to_u8(self) -> u8 {
        match self {
            RegulationMode::Idle => 0,
            RegulationMode::Speed => 1,
            RegulationMode::Sync => 2,
        }
    }

    /// Whether `code` encodes a regulation mode.
    pub open spec fn is_code(code: u8) -> bool {
        code <= 2
    }

    /// The byte that encodes this mode.
    #[verifier::when_used_as_spec(spec_to_u8)]
    pub fn to_u8(self) -> (code: u8)
        ensures
            code == self.spec_to_u8(),
            Self::is_code(code),
    {
        match self {
            RegulationMode::Idle => 0,
            RegulationMode::Speed => 1,
            RegulationMode::Sync => 2,
        }
    }

    /// Every byte that `is_code` admits is the encoding of a regulation mode.
    pub proof fn lemma_code_is_encoding(code: u8)
        requires
            Self::is_code(code),
        ensures
            exists|mode: RegulationMode| mode.spec_to_u8() == code,
    {
        assert(RegulationMode::Idle.spec_to_u8() == 0);
        assert(RegulationMode::Speed.spec_to_u8() == 1);
        assert(RegulationMode::Sync.spec_to_u8() == 2);
    }
}

impl Default for RegulationMode {
    /// The mode of an output of which nothing has been read yet.
    fn default() -> (r: Self)
        ensures
            r == RegulationMode::Idle,
    {
        RegulationMode::Idle
    }
}

impl vstd::std_specs::convert::TryFromSpecImpl<u8> for RegulationMode {
    open spec fn obeys_try_from_spec() -> bool {
        true
    }

    /// The value whose encoding is `code`, where there is one; else the error
    /// that holds `code`.
    open spec fn try_from_spec(code: u8) -> core::result::Result<Self, Error> {
        if Self::is_code(code) {
            Ok(choose|mode: RegulationMode| mode.spec_to_u8() == code)
        } else {
            Err(Error::InvalidValue { field: Field::RegulationMode, value: code })
        }
    }
}

impl TryFrom<u8> for RegulationMode {
    type Error = Error;

    /// Reads a regulation mode from its byte. Succeeds exactly on the bytes
    /// that encode a mode, with the mode whose encoding is `code`; any other
    /// byte comes back in the error.
    fn try_from(code: u8) -> (r: core::result::Result<Self, Error>)
        ensures
            r is Ok <==> Self::is_code(code),
            r matches Ok(mode) ==> mode.to_u8() == code,
            r matches Err(e) ==> e == (Error::InvalidValue {
                field: Field::RegulationMode,
                value: code,
            }),
    {
        proof {
            if Self::is_code(code) {
                Self::lemma_code_is_encoding(code);
            }
        }
        match code {
            0 => Ok(RegulationMode::Idle),
            1 => Ok(RegulationMode::Speed),
            2 => Ok(RegulationMode::Sync),
            _ => Err(Error::InvalidValue { field: Field::RegulationMode, value: code }),
        }
    }
}

/// The phase of execution that an output reports. The encodings are single
/// bit patterns, but a state is one of the four and never a combination.
#[derive(Copy, Clone, Debug, PartialEq, Eq, Structural)]
pub enum RunState {
    Idle,
    RampUp,
    Running,
    RampDown,
}

impl RunState {
    /// The byte that encodes this state.
    pub open spec fn spec_to_u8(self) -> u8 {
        match self {
            RunState::Idle => 0x00,
            RunState::RampUp => 0x10,
            RunState::Running => 0x20,
            RunState::RampDown => 0x40,
        }
    }

    /// Whether `code` encodes a run state.
    pub open spec fn is_code(code: u8) -> bool {
        code == 0x00 || code == 0x10 || code == 0x20 || code == 0x40
    }

    /// The byte that encodes this state.
    #[verifier::when_used_as_spec(spec_to_u8)]
    pub fn to_u8(self) -> (code: u8)
        ensures
            code == self.spec_to_u8(),
            Self::is_code(code),
    {
        match self {
            RunState::Idle => 0x00,
            RunState::RampUp => 0x10,
            RunState::Running => 0x20,
            RunState::RampDown => 0x40,
        }
    }

    /// Every byte that `is_code` admits is the encoding of a run state.
    pub proof fn lemma_code_is_encoding(code: u8)
        requires
            Self::is_code(code),
        ensures
            exists|state: RunState| state.spec_to_u8() == code,
    {
        assert(RunState::Idle.spec_to_u8() == 0x00);
        assert(RunState::RampUp.spec_to_u8() == 0x10);
        assert(RunState::Running.spec_to_u8() == 0x20);
        assert(RunState::RampDown.spec_to_u8() == 0x40);
    }
}

impl vstd::std_specs::convert::TryFromSpecImpl<u8> for RunState {
    open spec fn obeys_try_from_spec() -> bool {
        true
    }

    /// The value whose encoding is `code`, where there is one; else the error
    /// that holds `code`.
    open spec fn try_from_spec(code: u8) -> core::result::Result<Self, Error> {
        if Self::is_code(code) {
            Ok(choose|state: RunState| state.spec_to_u8() == code)
        } else {
            Err(Error::InvalidValue { field: Field::RunState, value: code })
        }
    }
}

impl TryFrom<u8> for RunState {
    type Error = Error;

    /// Reads a run state from its byte. Succeeds exactly on the four bytes
    /// that encode a state, with the state whose encoding is `code`; any other
    /// byte, one between two encodings too, comes back in the error.
    fn try_from(code: u8) -> (r: core::result::Result<Self, Error>)
        ensures
            r is Ok <==> Self::is_code(code),
            r matches Ok(state) ==> state.to_u8() == code,
            r matches Err(e) ==> e == (Error::InvalidValue { field: Field::RunState, value: code }),
    {
        proof {
            if Self::is_code(code) {
                Self::lemma_code_is_encoding(code);
            }
        }
        match code {
            0x00 => Ok(RunState::Idle),
            0x10 => Ok(RunState::RampUp),
            0x20 => Ok(RunState::Running),
            0x40 => Ok(RunState::RampDown),
            _ => Err(Error::InvalidValue { field: Field::RunState, value: code }),
        }
    }
}

/// The reported state of one motor output.
#[derive(Copy, Clone, Debug, PartialEq, Eq, Structural)]
pub struct OutputState {
    pub port: OutPort,
    pub power: i8,
    pub mode: OutMode,
    pub regulation_mode: RegulationMode,
    pub turn_ratio: i8,
    pub run_state: RunState,
    pub tacho_limit: u32,
    pub tacho_count: i32,
    pub block_tacho_count: i32,
    pub rotation_count: i32,
}

impl OutputState {
    /// What `decode` gives for the raw values of a status reply: the record of
    /// the typed values, or the error of the first field, in the order port,
    /// regulation mode, run state, whose byte encodes nothing.
    pub open spec fn spec_decode(
        port: u8,
        power: i8,
        mode: u8,
        regulation_mode: u8,
        turn_ratio: i8,
        run_state: u8,
        tacho_limit: u32,
        tacho_count: i32,
        block_tacho_count: i32,
        rotation_count: i32,
    ) -> core::result::Result<OutputState, Error> {
        match (
            OutPort::try_from_spec(port),
            RegulationMode::try_from_spec(regulation_mode),
            RunState::try_from_spec(run_state),
        ) {
            (Err(e), _, _) => Err(e),
            (Ok(_), Err(e), _) => Err(e),
            (Ok(_), Ok(_), Err(e)) => Err(e),
            (Ok(port), Ok(regulation_mode), Ok(run_state)) => Ok(
                OutputState {
                    port,
                    power,
                    mode: OutMode(mode),
                    regulation_mode,
                    turn_ratio,
                    run_state,
                    tacho_limit,
                    tacho_count,
                    block_tacho_count,
                    rotation_count,
                },
            ),
        }
    }

    /// The error for the first of the three bytes, in the order port,
    /// regulation mode, run state, that encodes nothing. Where all three
    /// encode a value, nothing is said.
    pub open spec fn first_invalid(port: u8, regulation_mode: u8, run_state: u8) -> Error
        recommends
            !OutPort::is_code(port) || !RegulationMode::is_code(regulation_mode)
                || !RunState::is_code(run_state),
    {
        if !OutPort::is_code(port) {
            Error::InvalidValue { field: Field::OutPort, value: port }
        } else if !RegulationMode::is_code(regulation_mode) {
            Error::InvalidValue { field: Field::RegulationMode, value: regulation_mode }
        } else {
            Error::InvalidValue { field: Field::RunState, value: run_state }
        }
    }

    /// Whether the tachometer limit asks for unlimited rotation.
    pub open spec fn spec_runs_forever(&self) -> bool {
        self.tacho_limit == RUN_FOREVER
    }

    /// Assembles a record from values that have been read already. Nothing is
    /// checked here: each field is stored as it is given.
    pub fn new(
        port: OutPort,
        power: i8,
        mode: OutMode,
        regulation_mode: RegulationMode,
        turn_ratio: i8,
        run_state: RunState,
        tacho_limit: u32,
        tacho_count: i32,
        block_tacho_count: i32,
        rotation_count: i32,
    ) -> (state: Self)
        ensures
            state == (OutputState {
                port,
                power,
                mode,
                regulation_mode,
                turn_ratio,
                run_state,
                tacho_limit,
                tacho_count,
                block_tacho_count,
                rotation_count,
            }),
    {
        OutputState {
            port,
            power,
            mode,
            regulation_mode,
            turn_ratio,
            run_state,
            tacho_limit,
            tacho_count,
            block_tacho_count,
            rotation_count,
        }
    }

    /// Reads the typed fields from the raw values of a status reply, in the
    /// order port, mode, regulation mode, run state, and assembles the record.
    /// The first byte that encodes nothing ends the reading with its error,
    /// and no record is made.
    pub fn decode(
        port: u8,
        power: i8,
        mode: u8,
        regulation_mode: u8,
        turn_ratio: i8,
        run_state: u8,
        tacho_limit: u32,
        tacho_count: i32,
        block_tacho_count: i32,
        rotation_count: i32,
    ) -> (r: core::result::Result<Self, Error>)
        ensures
            r == Self::spec_decode(
                port,
                power,
                mode,
                regulation_mode,
                turn_ratio,
                run_state,
                tacho_limit,
                tacho_count,
                block_tacho_count,
                rotation_count,
            ),
            r is Ok <==> OutPort::is_code(port) && RegulationMode::is_code(regulation_mode)
                && RunState::is_code(run_state),
            r matches Ok(state) ==> {
                &&& state.port.to_u8() == port
                &&& state.power == power
                &&& state.mode@ == mode
                &&& state.regulation_mode.to_u8() == regulation_mode
                &&& state.turn_ratio == turn_ratio
                &&& state.run_state.to_u8() == run_state
                &&& state.tacho_limit == tacho_limit
                &&& state.tacho_count == tacho_count
                &&& state.block_tacho_count == block_tacho_count
                &&& state.rotation_count == rotation_count
            },
            r matches Err(e) ==> e == Self::first_invalid(port, regulation_mode, run_state),
    {
        let port = OutPort::try_from(port)?;
        let mode = OutMode::from(mode);
        let regulation_mode = RegulationMode::try_from(regulation_mode)?;
        let run_state = RunState::try_from(run_state)?;
        Ok(
            Self::new(
                port,
                power,
                mode,
                regulation_mode,
                turn_ratio,
                run_state,
                tacho_limit,
                tacho_count,
                block_tacho_count,
                rotation_count,
            ),
        )
    }

    /// Whether the tachometer limit asks for unlimited rotation.
    #[verifier::when_used_as_spec(spec_runs_forever)]
    pub fn runs_forever(&self) -> (r: bool)
        ensures
            r == self.spec_runs_forever(),
    {
        self.tacho_limit == RUN_FOREVER
    }
}

} // verus!
