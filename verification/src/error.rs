//! The error reported when a raw byte names no value of a closed set.

use vstd::prelude::*;

verus! {

/// The protocol field whose byte was being read.
#[derive(Copy, Clone, Debug, PartialEq, Eq, Structural)]
pub enum Field {
    OutPort,
    RegulationMode,
    RunState,
}

/// A failed conversion from a raw byte.
#[derive(Copy, Clone, Debug, PartialEq, Eq, Structural)]
pub enum Error {
    /// `value` is not an encoding of any value of `field`.
    InvalidValue { field: Field, value: u8 },
}

pub type Result<T> = core::result::Result<T, Error>;

impl Field {
    /// The field's name as a sequence of characters.
    pub open spec fn spec_name(self) -> Seq<char> {
        match self {
            Field::OutPort => "OutPort"@,
            Field::RegulationMode => "RegulationMode"@,
            Field::RunState => "RunState"@,
        }
    }

    /// The field's name, as it appears in diagnostics.
    pub fn name(self) -> (s: &'static str)
        ensures
            s@ == self.spec_name(),
    {
        match self {
            Field::OutPort => "OutPort",
            Field::RegulationMode => "RegulationMode",
            Field::RunState => "RunState",
        }
    }
}

impl Error {
    /// The field that the rejected byte was read for.
    pub open spec fn spec_field(self) -> Field {
        match self {
            Error::InvalidValue { field, .. } => field,
        }
    }

    /// The rejected byte.
    pub open spec fn spec_value(self) -> u8 {
        match self {
            Error::InvalidValue { value, .. } => value,
        }
    }

    /// The text of the diagnostic for this error.
    pub open spec fn spec_message(self) -> Seq<char> {
        match self.spec_field() {
            Field::OutPort => "Invalid OutPort"@,
            Field::RegulationMode => "Invalid RegulationMode"@,
            Field::RunState => "Invalid RunState"@,
        }
    }

    /// The field that the rejected byte was read for.
    #[verifier::when_used_as_spec(spec_field)]
    pub fn field(self) -> (f: Field)
        ensures
            f == self.spec_field(),
    {
        match self {
            Error::InvalidValue { field, .. } => field,
        }
    }

    /// The rejected byte.
    #[verifier::when_used_as_spec(spec_value)]
    pub fn value(self) -> (v: u8)
        ensures
            v == self.spec_value(),
    {
        match self {
            Error::InvalidValue { value, .. } => value,
        }
    }

    /// A short diagnostic that names the field.
    pub fn message(self) -> (s: &'static str)
        ensures
            s@ == self.spec_message(),
    {
        match self.field() {
            Field::OutPort => "Invalid OutPort",
            Field::RegulationMode => "Invalid RegulationMode",
            Field::RunState => "Invalid RunState",
        }
    }
}

} // verus!
