//! What a call can fail with, the message that goes with each failure, and the
//! status that is reported for it.

use vstd::prelude::*;

verus! {

/// A buffer that crosses the boundary of a call.
#[derive(Clone, Copy, Debug, PartialEq, Eq, Structural)]
pub enum Field {
    Setup,
    UserId,
    Password,
    Request,
    State,
    Response,
    Upload,
    PasswordFile,
    Finalization,
    Output,
}

/// A step of the registration or of the login protocol.
#[derive(Clone, Copy, Debug, PartialEq, Eq, Structural)]
pub enum Step {
    ClientRegisterStart,
    ServerRegisterStart,
    ClientRegisterFinish,
    ClientLoginStart,
    ServerLoginStart,
    ClientLoginFinish,
    ServerLoginFinish,
}

/// A failure inside the engine that no input accounts for.
#[derive(Clone, Copy, Debug, PartialEq, Eq, Structural)]
pub enum Fault {
    /// A protocol state could not be written out as bytes.
    StateSerialize,
    /// The engine stopped with an unexpected runtime fault.
    Panic,
}

/// The outcome that a call reports to its caller.
#[derive(Clone, Copy, Debug, PartialEq, Eq, Structural)]
pub enum Status {
    Success,
    ProtocolError,
    InternalFault,
}

/// Why a call failed.
#[derive(Clone, Copy, Debug, PartialEq, Eq, Structural)]
pub enum OpaqueError {
    /// The caller supplied no data where data is required.
    InputEmpty(Field),
    /// A buffer does not deserialize into the value it should hold.
    FormatInvalid(Field),
    /// A protocol step rejected its inputs (a wrong password, an unknown user, a
    /// failed authentication tag), or made what the next step cannot take up.
    ProtocolStepFailed(Step),
    /// An unexpected failure inside the engine.
    InternalFault(Fault),
}

pub open spec fn field_name(field: Field) -> Seq<char> {
    match field {
        Field::Setup => "setup"@,
        Field::UserId => "user id"@,
        Field::Password => "password"@,
        Field::Request => "request"@,
        Field::State => "state"@,
        Field::Response => "response"@,
        Field::Upload => "upload"@,
        Field::PasswordFile => "password file"@,
        Field::Finalization => "finalization"@,
        Field::Output => "output"@,
    }
}

pub open spec fn step_name(step: Step) -> Seq<char> {
    match step {
        Step::ClientRegisterStart => "client register start"@,
        Step::ServerRegisterStart => "server register start"@,
        Step::ClientRegisterFinish => "client register finish"@,
        Step::ClientLoginStart => "client login start"@,
        Step::ServerLoginStart => "server login start"@,
        Step::ClientLoginFinish => "client login finish"@,
        Step::ServerLoginFinish => "server login finish"@,
    }
}

/// The human-readable message of an error.
pub open spec fn message_of(error: OpaqueError) -> Seq<char> {
    match error {
        OpaqueError::InputEmpty(Field::Output) => "bad output"@,
        OpaqueError::InputEmpty(field) => field_name(field) + " empty"@,
        OpaqueError::FormatInvalid(field) => field_name(field) + " invalid"@,
        OpaqueError::ProtocolStepFailed(step) => step_name(step) + " failed"@,
        OpaqueError::InternalFault(Fault::StateSerialize) => "state serialize failed"@,
        OpaqueError::InternalFault(Fault::Panic) => "panic"@,
    }
}

/// The status of an error: a failure inside the engine is an internal fault, every
/// other one a protocol error.
pub open spec fn status_of(error: OpaqueError) -> Status {
    match error {
        OpaqueError::InternalFault(_) => Status::InternalFault,
        _ => Status::ProtocolError,
    }
}

/// The number under which a status is reported.
pub open spec fn code_of(status: Status) -> i32 {
    match status {
        Status::Success => 0,
        Status::ProtocolError => 2,
        Status::InternalFault => 3,
    }
}

impl Field {
    pub fn name(self) -> (text: &'static str)
        ensures
            text@ == field_name(self),
    {
        match self {
            Field::Setup => "setup",
            Field::UserId => "user id",
            Field::Password => "password",
            Field::Request => "request",
            Field::State => "state",
            Field::Response => "response",
            Field::Upload => "upload",
            Field::PasswordFile => "password file",
            Field::Finalization => "finalization",
            Field::Output => "output",
        }
    }
}

impl Step {
    pub fn name(self) -> (text: &'static str)
        ensures
            text@ == step_name(self),
    {
        match self {
            Step::ClientRegisterStart => "client register start",
            Step::ServerRegisterStart => "server register start",
            Step::ClientRegisterFinish => "client register finish",
            Step::ClientLoginStart => "client login start",
            Step::ServerLoginStart => "server login start",
            Step::ClientLoginFinish => "client login finish",
            Step::ServerLoginFinish => "server login finish",
        }
    }
}

impl Status {
    pub fn code(self) -> (code: i32)
        ensures
            code == code_of(self),
    {
        match self {
            Status::Success => 0,
            Status::ProtocolError => 2,
            Status::InternalFault => 3,
        }
    }
}

impl OpaqueError {
    pub fn status(self) -> (status: Status)
        ensures
            status == status_of(self),
            status != Status::Success,
    {
        match self {
            OpaqueError::InternalFault(_) => Status::InternalFault,
            _ => Status::ProtocolError,
        }
    }

    pub fn message(self) -> (text: String)
        ensures
            text@ == message_of(self),
    {
        match self {
            OpaqueError::InputEmpty(Field::Output) => String::from_str("bad output"),
            OpaqueError::InputEmpty(field) => String::from_str(field.name()).concat(" empty"),
            OpaqueError::FormatInvalid(field) => String::from_str(field.name()).concat(" invalid"),
            OpaqueError::ProtocolStepFailed(step) => String::from_str(step.name()).concat(
                " failed",
            ),
            OpaqueError::InternalFault(Fault::StateSerialize) => String::from_str(
                "state serialize failed",
            ),
            OpaqueError::InternalFault(Fault::Panic) => String::from_str("panic"),
        }
    }
}

} // verus!
