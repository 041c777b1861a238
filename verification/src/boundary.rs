//! The boundary of a call: the places where a call leaves buffers for its
//! caller, and the status and message it reports.

use vstd::prelude::*;
use vstd::string::StringSliceAdditionalSpecFns;
use vstd::utf8::encode_utf8;
use crate::state::LoginFinish;
use crate::errors::{code_of, message_of, status_of, Fault, Field, OpaqueError, Status};

verus! {

/// A place where a call leaves one buffer for its caller. A caller that wants no
/// buffer there leaves the place unattached; the buffer of an attached place is
/// the caller's from the moment the call returns.
pub struct OutBuffer {
    attached: bool,
    content: Option<Vec<u8>>,
}

/// How a call ended: with nothing to report, with an error, or without returning
/// (`None`).
pub open spec fn outcome_error(outcome: Option<Result<(), OpaqueError>>) -> Option<OpaqueError> {
    match outcome {
        Some(Ok(())) => None,
        Some(Err(error)) => Some(error),
        None => Some(OpaqueError::InternalFault(Fault::Panic)),
    }
}

/// The status that is reported for an outcome.
pub open spec fn outcome_status(outcome: Option<Result<(), OpaqueError>>) -> Status {
    match outcome_error(outcome) {
        None => Status::Success,
        Some(error) => status_of(error),
    }
}

/// The bytes of the message that is reported for an outcome; none for success.
pub open spec fn outcome_message(outcome: Option<Result<(), OpaqueError>>) -> Option<Seq<u8>> {
    match outcome_error(outcome) {
        None => None,
        Some(error) => Some(encode_utf8(message_of(error))),
    }
}

impl OutBuffer {
    /// Whether the caller takes a buffer here.
    pub closed spec fn is_attached(self) -> bool {
        self.attached
    }

    /// The bytes that were left here, if any were.
    pub closed spec fn held(self) -> Option<Seq<u8>> {
        match self.content {
            Some(bytes) => Some(bytes@),
            None => None,
        }
    }

    /// A place that holds nothing yet.
    pub fn new(attached: bool) -> (out: Self)
        ensures
            out.is_attached() == attached,
            out.held().is_none(),
    {
        OutBuffer { attached, content: None }
    }

    pub fn attached(&self) -> (attached: bool)
        ensures
            attached == self.is_attached(),
    {
        self.attached
    }

    /// Hands over what was left here.
    pub fn take(self) -> (content: Option<Vec<u8>>)
        ensures
            match content {
                Some(bytes) => self.held() == Some(bytes@),
                None => self.held().is_none(),
            },
    {
        self.content
    }
}

/// Leaves `bytes` at `out`. Fails, and leaves nothing, where `out` is not
/// attached.
pub fn alloc_out(bytes: Vec<u8>, out: &mut OutBuffer) -> (left: Result<(), ()>)
    ensures
        final(out).is_attached() == old(out).is_attached(),
        left.is_ok() == old(out).is_attached(),
        left.is_ok() ==> final(out).held() == Some(bytes@),
        left.is_err() ==> final(out).held() == old(out).held(),
{
    if !out.attached {
        return Err(());
    }
    out.content = Some(bytes);
    Ok(())
}

/// Leaves the message `msg` at `out_err`, if the caller takes one.
pub fn set_error(msg: &str, out_err: &mut OutBuffer)
    ensures
        final(out_err).is_attached() == old(out_err).is_attached(),
        final(out_err).held() == if old(out_err).is_attached() {
            Some(msg.spec_bytes())
        } else {
            old(out_err).held()
        },
{
    if !out_err.attached {
        return ;
    }
    let _ = alloc_out(msg.as_bytes_vec(), out_err);
}

/// Leaves no message at `out_err`, if the caller takes one.
pub fn ok_clear_error(out_err: &mut OutBuffer)
    ensures
        final(out_err).is_attached() == old(out_err).is_attached(),
        final(out_err).held() == if old(out_err).is_attached() {
            None
        } else {
            old(out_err).held()
        },
{
    if !out_err.attached {
        return ;
    }
    out_err.content = None;
}

/// Reports how a call ended: the number of its status, and at `out_err` the
/// message of its error, none for success. `outcome` is `None` for a call that
/// ended in a runtime fault instead of returning.
pub fn catch_and_report(outcome: Option<Result<(), OpaqueError>>, out_err: &mut OutBuffer) -> (code:
    i32)
    ensures
        code == code_of(outcome_status(outcome)),
        code == 0 <==> outcome_error(outcome).is_none(),
        final(out_err).is_attached() == old(out_err).is_attached(),
        final(out_err).held() == if old(out_err).is_attached() {
            outcome_message(outcome)
        } else {
            old(out_err).held()
        },
{
    ok_clear_error(out_err);
    let error = match outcome {
        Some(Ok(())) => {
            return Status::Success.code();
        },
        Some(Err(error)) => error,
        None => OpaqueError::InternalFault(Fault::Panic),
    };
    let message = error.message();
    set_error(message.as_str(), out_err);
    error.status().code()
}

/// Leaves one buffer for the caller.
pub fn deliver(bytes: Vec<u8>, out: &mut OutBuffer) -> (left: Result<(), OpaqueError>)
    ensures
        final(out).is_attached() == old(out).is_attached(),
        if old(out).is_attached() {
            left.is_ok() && final(out).held() == Some(bytes@)
        } else {
            left == Err::<(), OpaqueError>(OpaqueError::InputEmpty(Field::Output))
                && final(out).held() == old(out).held()
        },
{
    match alloc_out(bytes, out) {
        Ok(()) => Ok(()),
        Err(()) => Err(OpaqueError::InputEmpty(Field::Output)),
    }
}

/// Leaves the message and the state of a start step for the caller, the message
/// first. Where the place of the state is not attached, the message is left all
/// the same.
pub fn deliver_exchange(
    message: Vec<u8>,
    state: Vec<u8>,
    out_message: &mut OutBuffer,
    out_state: &mut OutBuffer,
) -> (left: Result<(), OpaqueError>)
    ensures
        final(out_message).is_attached() == old(out_message).is_attached(),
        final(out_state).is_attached() == old(out_state).is_attached(),
        left.is_ok() <==> old(out_message).is_attached() && old(out_state).is_attached(),
        left matches Err(error) ==> error == OpaqueError::InputEmpty(Field::Output),
        final(out_message).held() == if old(out_message).is_attached() {
            Some(message@)
        } else {
            old(out_message).held()
        },
        final(out_state).held() == if left.is_ok() {
            Some(state@)
        } else {
            old(out_state).held()
        },
{
    deliver(message, out_message)?;
    deliver(state, out_state)
}

/// Leaves the finalization and the session key of a login for the caller, the
/// finalization first.
pub fn deliver_login_finish(
    finish: LoginFinish,
    out_final: &mut OutBuffer,
    out_session_key: &mut OutBuffer,
) -> (left: Result<(), OpaqueError>)
    ensures
        final(out_final).is_attached() == old(out_final).is_attached(),
        final(out_session_key).is_attached() == old(out_session_key).is_attached(),
        left.is_ok() <==> old(out_final).is_attached() && old(out_session_key).is_attached(),
        left matches Err(error) ==> error == OpaqueError::InputEmpty(Field::Output),
        final(out_final).held() == if old(out_final).is_attached() {
            Some(finish.finalization@)
        } else {
            old(out_final).held()
        },
        final(out_session_key).held() == if left.is_ok() {
            Some(finish.session_key@)
        } else {
            old(out_session_key).held()
        },
{
    deliver(finish.finalization, out_final)?;
    deliver(finish.session_key, out_session_key)
}

} // verus!
