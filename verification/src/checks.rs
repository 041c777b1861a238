//! What the engine makes of a buffer it was handed and of what a protocol step
//! gave back.

use vstd::prelude::*;
use crate::errors::{Fault, Field, OpaqueError, Step};
use crate::primitives::{ClientFinished, Started};
use crate::state::LoginFinish;
use crate::suite::SESSION_KEY_LEN;

verus! {

/// A message for the other party together with the bytes of the state that the
/// matching finish step uses up.
pub struct Exchange {
    pub message: Vec<u8>,
    pub state: Vec<u8>,
}

/// The first `wanted` bytes of `bytes`, or all of them where they are fewer.
pub open spec fn head_of(bytes: Seq<u8>, wanted: nat) -> Seq<u8> {
    if bytes.len() <= wanted {
        bytes
    } else {
        bytes.take(wanted as int)
    }
}

/// The session key within an exchanged key: its leading `SESSION_KEY_LEN` bytes.
pub open spec fn session_key_of(exchanged: Seq<u8>) -> Seq<u8> {
    head_of(exchanged, SESSION_KEY_LEN as nat)
}

/// The bytes of a buffer that may be missing.
pub open spec fn bytes_of(buffer: Option<Vec<u8>>) -> Option<Seq<u8>> {
    match buffer {
        Some(bytes) => Some(bytes@),
        None => None,
    }
}

/// A required buffer must hold data.
pub fn require_present(bytes: &[u8], field: Field) -> (checked: Result<(), OpaqueError>)
    ensures
        bytes@.len() == 0 ==> checked == Err::<(), OpaqueError>(OpaqueError::InputEmpty(field)),
        bytes@.len() > 0 ==> checked.is_ok(),
{
    if bytes.len() == 0 {
        Err(OpaqueError::InputEmpty(field))
    } else {
        Ok(())
    }
}

/// A buffer must have deserialized; `accepted` says whether it did.
pub fn require_decoded(accepted: bool, field: Field) -> (checked: Result<(), OpaqueError>)
    ensures
        !accepted ==> checked == Err::<(), OpaqueError>(OpaqueError::FormatInvalid(field)),
        accepted ==> checked.is_ok(),
{
    if accepted {
        Ok(())
    } else {
        Err(OpaqueError::FormatInvalid(field))
    }
}

/// What a step made must be fit for the step that takes it up; `usable` says
/// whether it is. A step that made anything else has failed.
pub fn require_usable(usable: bool, step: Step) -> (checked: Result<(), OpaqueError>)
    ensures
        !usable ==> checked == Err::<(), OpaqueError>(OpaqueError::ProtocolStepFailed(step)),
        usable ==> checked.is_ok(),
{
    if usable {
        Ok(())
    } else {
        Err(OpaqueError::ProtocolStepFailed(step))
    }
}

/// The message of a step that keeps no state, or the step's failure.
pub fn step_message(outcome: Option<Vec<u8>>, step: Step) -> (message: Result<
    Vec<u8>,
    OpaqueError,
>)
    ensures
        match outcome {
            Some(bytes) => message == Ok::<Vec<u8>, OpaqueError>(bytes),
            None => message == Err::<Vec<u8>, OpaqueError>(OpaqueError::ProtocolStepFailed(step)),
        },
{
    match outcome {
        Some(bytes) => Ok(bytes),
        None => Err(OpaqueError::ProtocolStepFailed(step)),
    }
}

/// The message and state of a start step, or its failure: the step's own, or
/// that its state could not be written out.
pub fn step_exchange(outcome: Option<Started>, step: Step) -> (exchange: Result<
    Exchange,
    OpaqueError,
>)
    ensures
        match outcome {
            None => exchange == Err::<Exchange, OpaqueError>(
                OpaqueError::ProtocolStepFailed(step),
            ),
            Some(Started { message, state: None }) => exchange == Err::<Exchange, OpaqueError>(
                OpaqueError::InternalFault(Fault::StateSerialize),
            ),
            Some(Started { message, state: Some(state) }) => exchange == Ok::<
                Exchange,
                OpaqueError,
            >(Exchange { message, state }),
        },
{
    match outcome {
        None => Err(OpaqueError::ProtocolStepFailed(step)),
        Some(started) => match started.state {
            None => Err(OpaqueError::InternalFault(Fault::StateSerialize)),
            Some(state) => Ok(Exchange { message: started.message, state }),
        },
    }
}

/// Copies the first `wanted` bytes of `bytes`, or all of them where they are
/// fewer.
pub fn head(bytes: &[u8], wanted: usize) -> (copy: Vec<u8>)
    ensures
        copy@ == head_of(bytes@, wanted as nat),
{
    let count: usize = if bytes.len() <= wanted {
        bytes.len()
    } else {
        wanted
    };
    let mut copy: Vec<u8> = Vec::with_capacity(count);
    let mut i: usize = 0;
    while i < count
        invariant
            i <= count <= bytes@.len(),
            copy@ == bytes@.take(i as int),
        decreases count - i,
    {
        copy.push(bytes[i]);
        i += 1;
        assert(bytes@.take(i as int) == bytes@.take(i - 1).push(bytes@[i - 1]));
    }
    assert(bytes@.take(bytes@.len() as int) == bytes@);
    copy
}

/// The session key that an exchanged key holds.
pub fn session_key(exchanged: &[u8]) -> (key: Vec<u8>)
    ensures
        key@ == session_key_of(exchanged@),
{
    head(exchanged, SESSION_KEY_LEN)
}

/// The finalization and session key of the client's last login step, or the
/// step's failure.
pub fn client_login_finished(outcome: Option<ClientFinished>) -> (finish: Result<
    LoginFinish,
    OpaqueError,
>)
    ensures
        match outcome {
            None => finish == Err::<LoginFinish, OpaqueError>(
                OpaqueError::ProtocolStepFailed(Step::ClientLoginFinish),
            ),
            Some(finished) => finish matches Ok(done) && done.finalization == finished.message
                && done.session_key@ == session_key_of(finished.key@),
        },
{
    match outcome {
        None => Err(OpaqueError::ProtocolStepFailed(Step::ClientLoginFinish)),
        Some(finished) => {
            let key = session_key(finished.key.as_slice());
            Ok(LoginFinish { finalization: finished.message, session_key: key })
        },
    }
}

/// The session key of the server's last login step, or the step's failure.
pub fn server_login_finished(outcome: Option<Vec<u8>>) -> (key: Result<Vec<u8>, OpaqueError>)
    ensures
        match outcome {
            None => key == Err::<Vec<u8>, OpaqueError>(
                OpaqueError::ProtocolStepFailed(Step::ServerLoginFinish),
            ),
            Some(exchanged) => key matches Ok(bytes) && bytes@ == session_key_of(exchanged@),
        },
{
    match outcome {
        None => Err(OpaqueError::ProtocolStepFailed(Step::ServerLoginFinish)),
        Some(exchanged) => Ok(session_key(exchanged.as_slice())),
    }
}

} // verus!
