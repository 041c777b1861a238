//! The login engine: four messages after which client and server hold the same
//! session key, if and only if the client knew the password.

use vstd::prelude::*;
use crate::checks::{
    bytes_of, client_login_finished, require_decoded, require_present, require_usable,
    server_login_finished, session_key_of, step_exchange,
};
use crate::errors::{Fault, Field, OpaqueError, Step};
use crate::primitives::{
    client_login_outcome, client_login_state_decodes, conclude_login,
    credential_finalization_decodes, credential_request_decodes, credential_response_decodes,
    decodes_client_login_state, decodes_credential_request, decodes_credential_response,
    decodes_password_file, decodes_setup, finish_login, password_file_decodes,
    respond_to_login,
    server_login_outcome, server_login_state_decodes, setup_decodes, start_login, Started,
};
use crate::state::{ClientLoginState, LoginFinish, LoginResponse, LoginStart, ServerLoginState};
use crate::suite::{
    binding_of, Binding, CLIENT_LOGIN_STATE_LEN, CREDENTIAL_FINALIZATION_LEN,
    CREDENTIAL_REQUEST_LEN, CREDENTIAL_RESPONSE_LEN, SERVER_LOGIN_STATE_LEN, SESSION_KEY_LEN,
};

verus! {

/// Why the client's first login step is refused before it is tried.
pub open spec fn client_login_start_refusal(password: Seq<u8>) -> Option<OpaqueError> {
    if password.len() == 0 {
        Some(OpaqueError::InputEmpty(Field::Password))
    } else {
        None
    }
}

/// Whether a request and a state are what the client's first login step owes: a
/// request that the server's step takes, a state that the client's last step
/// takes.
pub open spec fn starts_login(request: Seq<u8>, state: Seq<u8>) -> bool {
    &&& request.len() == CREDENTIAL_REQUEST_LEN
    &&& credential_request_decodes(request)
    &&& state.len() == CLIENT_LOGIN_STATE_LEN
    &&& client_login_state_decodes(state)
}

/// Whether a response and a state are what the server's first login step owes,
/// for a user it knows as for one it does not: a response that the client's last
/// step takes, a state that the server's last step takes.
pub open spec fn answers_login(response: Seq<u8>, state: Seq<u8>) -> bool {
    &&& response.len() == CREDENTIAL_RESPONSE_LEN
    &&& credential_response_decodes(response)
    &&& state.len() == SERVER_LOGIN_STATE_LEN
    &&& server_login_state_decodes(state)
}

/// What the client's first login step makes of a request and a state that the
/// protocol gave it: they are the step's result if they are what the step owes,
/// and the step has failed if they are not. A state that could not be written
/// out is a fault of the engine.
pub open spec fn login_start_of(request: Seq<u8>, state: Option<Seq<u8>>) -> Result<
    (Seq<u8>, Seq<u8>),
    OpaqueError,
> {
    match state {
        None => Err(OpaqueError::InternalFault(Fault::StateSerialize)),
        Some(bytes) => if starts_login(request, bytes) {
            Ok((request, bytes))
        } else {
            Err(OpaqueError::ProtocolStepFailed(Step::ClientLoginStart))
        },
    }
}

/// What the server's first login step makes of a response and a state that the
/// protocol gave it, for a user it knows as for one it does not: they are the
/// step's result if they are what the step owes, and the step has failed if they
/// are not. A state that could not be written out is a fault of the engine.
pub open spec fn login_answer_of(response: Seq<u8>, state: Option<Seq<u8>>) -> Result<
    (Seq<u8>, Seq<u8>),
    OpaqueError,
> {
    match state {
        None => Err(OpaqueError::InternalFault(Fault::StateSerialize)),
        Some(bytes) => if answers_login(response, bytes) {
            Ok((response, bytes))
        } else {
            Err(OpaqueError::ProtocolStepFailed(Step::ServerLoginStart))
        },
    }
}

/// Why a credential record that the caller holds is refused; an absent record
/// never is.
pub open spec fn password_file_refusal(password_file: Option<Seq<u8>>) -> Option<OpaqueError> {
    match password_file {
        None => None,
        Some(file) => if file.len() == 0 {
            Some(OpaqueError::InputEmpty(Field::PasswordFile))
        } else if !password_file_decodes(file) {
            Some(OpaqueError::FormatInvalid(Field::PasswordFile))
        } else {
            None
        },
    }
}

/// Why the server's login response is refused before it is computed.
pub open spec fn server_login_start_refusal(
    setup: Seq<u8>,
    user_id: Seq<u8>,
    password_file: Option<Seq<u8>>,
    request: Seq<u8>,
) -> Option<OpaqueError> {
    if setup.len() == 0 {
        Some(OpaqueError::InputEmpty(Field::Setup))
    } else if user_id.len() == 0 {
        Some(OpaqueError::InputEmpty(Field::UserId))
    } else if request.len() == 0 {
        Some(OpaqueError::InputEmpty(Field::Request))
    } else if !setup_decodes(setup) {
        Some(OpaqueError::FormatInvalid(Field::Setup))
    } else if password_file_refusal(password_file).is_some() {
        password_file_refusal(password_file)
    } else if !credential_request_decodes(request) {
        Some(OpaqueError::FormatInvalid(Field::Request))
    } else {
        None
    }
}

/// Why the client's last login step is refused before it is tried.
pub open spec fn client_login_finish_refusal(
    user_id: Seq<u8>,
    password: Seq<u8>,
    state: Seq<u8>,
    response: Seq<u8>,
) -> Option<OpaqueError> {
    if user_id.len() == 0 {
        Some(OpaqueError::InputEmpty(Field::UserId))
    } else if password.len() == 0 {
        Some(OpaqueError::InputEmpty(Field::Password))
    } else if state.len() == 0 {
        Some(OpaqueError::InputEmpty(Field::State))
    } else if response.len() == 0 {
        Some(OpaqueError::InputEmpty(Field::Response))
    } else if !client_login_state_decodes(state) {
        Some(OpaqueError::FormatInvalid(Field::State))
    } else if !credential_response_decodes(response) {
        Some(OpaqueError::FormatInvalid(Field::Response))
    } else {
        None
    }
}

/// What the client's last login step gives: the finalization for the server and
/// the client's session key. A wrong password and a user that the server does not
/// know both end in the same failure.
pub open spec fn client_login_finish_result(
    user_id: Seq<u8>,
    password: Seq<u8>,
    state: Seq<u8>,
    response: Seq<u8>,
) -> Result<(Seq<u8>, Seq<u8>), OpaqueError> {
    match client_login_finish_refusal(user_id, password, state, response) {
        Some(error) => Err(error),
        None => match client_login_outcome(
            state,
            password,
            response,
            binding_of(user_id).context,
            binding_of(user_id).client_id,
            binding_of(user_id).server_id,
        ) {
            Some((finalization, exchanged)) => Ok((finalization, session_key_of(exchanged))),
            None => Err(OpaqueError::ProtocolStepFailed(Step::ClientLoginFinish)),
        },
    }
}

/// Why the server's last login step is refused before it is tried.
pub open spec fn server_login_finish_refusal(
    user_id: Seq<u8>,
    state: Seq<u8>,
    finalization: Seq<u8>,
) -> Option<OpaqueError> {
    if user_id.len() == 0 {
        Some(OpaqueError::InputEmpty(Field::UserId))
    } else if state.len() == 0 {
        Some(OpaqueError::InputEmpty(Field::State))
    } else if finalization.len() == 0 {
        Some(OpaqueError::InputEmpty(Field::Finalization))
    } else if !server_login_state_decodes(state) {
        Some(OpaqueError::FormatInvalid(Field::State))
    } else if !credential_finalization_decodes(finalization) {
        Some(OpaqueError::FormatInvalid(Field::Finalization))
    } else {
        None
    }
}

/// What the server's last login step gives: the server's session key, where the
/// finalization carries the tag that the server expects.
pub open spec fn server_login_finish_result(
    user_id: Seq<u8>,
    state: Seq<u8>,
    finalization: Seq<u8>,
) -> Result<Seq<u8>, OpaqueError> {
    match server_login_finish_refusal(user_id, state, finalization) {
        Some(error) => Err(error),
        None => match server_login_outcome(
            state,
            finalization,
            binding_of(user_id).context,
            binding_of(user_id).client_id,
            binding_of(user_id).server_id,
        ) {
            Some(exchanged) => Ok(session_key_of(exchanged)),
            None => Err(OpaqueError::ProtocolStepFailed(Step::ServerLoginFinish)),
        },
    }
}

/// The view of a credential record that may be absent.
pub open spec fn file_view(password_file: Option<&[u8]>) -> Option<Seq<u8>> {
    match password_file {
        Some(file) => Some(file@),
        None => None,
    }
}

/// What the client's first login step gives for what the protocol gave it:
/// nothing at all is a failed step, anything else is judged by `login_start_of`.
pub fn login_started(outcome: Option<Started>) -> (started: Result<LoginStart, OpaqueError>)
    ensures
        match outcome {
            None => started == Err::<LoginStart, OpaqueError>(
                OpaqueError::ProtocolStepFailed(Step::ClientLoginStart),
            ),
            Some(made) => match login_start_of(made.message@, bytes_of(made.state)) {
                Ok((request, state)) => started matches Ok(start) && start.request@ == request
                    && start.state@ == state,
                Err(error) => started == Err::<LoginStart, OpaqueError>(error),
            },
        },
{
    let exchange = step_exchange(outcome, Step::ClientLoginStart)?;
    let usable = exchange.message.len() == CREDENTIAL_REQUEST_LEN && decodes_credential_request(
        exchange.message.as_slice(),
    ) && exchange.state.len() == CLIENT_LOGIN_STATE_LEN && decodes_client_login_state(
        exchange.state.as_slice(),
    );
    require_usable(usable, Step::ClientLoginStart)?;
    Ok(LoginStart { request: exchange.message, state: ClientLoginState::from_bytes(exchange.state) })
}

/// What the server's first login step gives for what the protocol gave it:
/// nothing at all is a failed step, anything else is judged by
/// `login_answer_of`.
pub fn login_answered(outcome: Option<Started>) -> (started: Result<LoginResponse, OpaqueError>)
    ensures
        match outcome {
            None => started == Err::<LoginResponse, OpaqueError>(
                OpaqueError::ProtocolStepFailed(Step::ServerLoginStart),
            ),
            Some(made) => match login_answer_of(made.message@, bytes_of(made.state)) {
                Ok((response, state)) => started matches Ok(start) && start.response@ == response
                    && start.state@ == state,
                Err(error) => started == Err::<LoginResponse, OpaqueError>(error),
            },
        },
{
    let exchange = step_exchange(outcome, Step::ServerLoginStart)?;
    let usable = exchange.message.len() == CREDENTIAL_RESPONSE_LEN
        && decodes_credential_response(exchange.message.as_slice()) && exchange.state.len()
        == SERVER_LOGIN_STATE_LEN;
    require_usable(usable, Step::ServerLoginStart)?;
    Ok(
        LoginResponse {
            response: exchange.message,
            state: ServerLoginState::from_bytes(exchange.state),
        },
    )
}

/// The client's first login step: blinds `password` and draws the client's
/// ephemeral key under fresh randomness. Gives the request for the server and the
/// state for `mi_opaque_client_login_finish`. What the protocol hands back goes
/// through `login_started`.
pub fn mi_opaque_client_login_start(password: &[u8]) -> (started: Result<LoginStart, OpaqueError>)
    ensures
        match client_login_start_refusal(password@) {
            Some(error) => started == Err::<LoginStart, OpaqueError>(error),
            None => match started {
                Ok(start) => starts_login(start.request@, start.state@),
                Err(error) => error == OpaqueError::ProtocolStepFailed(Step::ClientLoginStart)
                    || error == OpaqueError::InternalFault(Fault::StateSerialize),
            },
        },
{
    require_present(password, Field::Password)?;
    login_started(start_login(password))
}

/// Checks a credential record that the caller holds.
fn check_password_file(password_file: Option<&[u8]>) -> (checked: Result<(), OpaqueError>)
    ensures
        match password_file_refusal(file_view(password_file)) {
            Some(error) => checked == Err::<(), OpaqueError>(error),
            None => checked.is_ok(),
        },
{
    match password_file {
        None => Ok(()),
        Some(file) => {
            require_present(file, Field::PasswordFile)?;
            require_decoded(decodes_password_file(file), Field::PasswordFile)
        },
    }
}

/// The server's first login step: answers `request` for the user `user_id`.
/// `password_file` is the user's credential record, `None` for a user that the
/// server does not know: the server then answers all the same, with a response
/// that the client takes up like any other and a state as fit for the last step.
/// What the protocol hands back goes through `login_answered`.
pub fn mi_opaque_server_login_start(
    setup: &[u8],
    user_id: &[u8],
    password_file: Option<&[u8]>,
    request: &[u8],
) -> (started: Result<LoginResponse, OpaqueError>)
    ensures
        match server_login_start_refusal(setup@, user_id@, file_view(password_file), request@) {
            Some(error) => started == Err::<LoginResponse, OpaqueError>(error),
            None => match started {
                Ok(start) => answers_login(start.response@, start.state@),
                Err(error) => error == OpaqueError::ProtocolStepFailed(Step::ServerLoginStart)
                    || error == OpaqueError::InternalFault(Fault::StateSerialize),
            },
        },
{
    require_present(setup, Field::Setup)?;
    require_present(user_id, Field::UserId)?;
    require_present(request, Field::Request)?;
    require_decoded(decodes_setup(setup), Field::Setup)?;
    check_password_file(password_file)?;
    require_decoded(decodes_credential_request(request), Field::Request)?;
    let binding = Binding::for_user(user_id);
    login_answered(respond_to_login(setup, password_file, request, &binding))
}

/// The client's last login step on the bytes of the state.
fn client_finish_with_state(user_id: &[u8], password: &[u8], state: &[u8], response: &[u8]) -> (finish:
    Result<LoginFinish, OpaqueError>)
    ensures
        match client_login_finish_result(user_id@, password@, state@, response@) {
            Ok((finalization, key)) => finish matches Ok(done) && done.finalization@
                == finalization && done.session_key@ == key && finalization.len()
                == CREDENTIAL_FINALIZATION_LEN && key.len() == SESSION_KEY_LEN,
            Err(error) => finish == Err::<LoginFinish, OpaqueError>(error),
        },
{
    require_present(user_id, Field::UserId)?;
    require_present(password, Field::Password)?;
    require_present(state, Field::State)?;
    require_present(response, Field::Response)?;
    require_decoded(decodes_client_login_state(state), Field::State)?;
    require_decoded(decodes_credential_response(response), Field::Response)?;
    let binding = Binding::for_user(user_id);
    client_login_finished(finish_login(state, password, response, &binding))
}

/// The client's last login step: stretches the password, opens the envelope in
/// `response` and runs the key exchange. What it gives depends on the four
/// buffers alone, so a state that went through storage or a transport continues
/// as the one it was written from. The state is used up, and overwritten before
/// it is let go.
pub fn mi_opaque_client_login_finish(
    user_id: &[u8],
    password: &[u8],
    state: ClientLoginState,
    response: &[u8],
) -> (finish: Result<LoginFinish, OpaqueError>)
    ensures
        match client_login_finish_result(user_id@, password@, state@, response@) {
            Ok((finalization, key)) => finish matches Ok(done) && done.finalization@
                == finalization && done.session_key@ == key && finalization.len()
                == CREDENTIAL_FINALIZATION_LEN && key.len() == SESSION_KEY_LEN,
            Err(error) => finish == Err::<LoginFinish, OpaqueError>(error),
        },
{
    let mut state = state;
    let finish = client_finish_with_state(user_id, password, state.as_bytes(), response);
    state.wipe();
    finish
}

/// The server's last login step on the bytes of the state. A state and a
/// finalization are bytes without structure, so whether they hold what they
/// should is a matter of their lengths.
fn server_finish_with_state(user_id: &[u8], state: &[u8], finalization: &[u8]) -> (key: Result<
    Vec<u8>,
    OpaqueError,
>)
    ensures
        match server_login_finish_result(user_id@, state@, finalization@) {
            Ok(bytes) => key matches Ok(k) && k@ == bytes && bytes.len() == SESSION_KEY_LEN,
            Err(error) => key == Err::<Vec<u8>, OpaqueError>(error),
        },
{
    require_present(user_id, Field::UserId)?;
    require_present(state, Field::State)?;
    require_present(finalization, Field::Finalization)?;
    require_decoded(state.len() >= SERVER_LOGIN_STATE_LEN, Field::State)?;
    require_decoded(finalization.len() >= CREDENTIAL_FINALIZATION_LEN, Field::Finalization)?;
    let binding = Binding::for_user(user_id);
    server_login_finished(conclude_login(state, finalization, &binding))
}

/// The server's last login step: checks the tag in `finalization` against the
/// transcript that `state` holds and gives the server's session key. No key comes
/// out of a failed check. The state is used up, and overwritten before it is let
/// go.
pub fn mi_opaque_server_login_finish(
    user_id: &[u8],
    state: ServerLoginState,
    finalization: &[u8],
) -> (key: Result<Vec<u8>, OpaqueError>)
    ensures
        match server_login_finish_result(user_id@, state@, finalization@) {
            Ok(bytes) => key matches Ok(k) && k@ == bytes && bytes.len() == SESSION_KEY_LEN,
            Err(error) => key == Err::<Vec<u8>, OpaqueError>(error),
        },
{
    let mut state = state;
    let key = server_finish_with_state(user_id, state.as_bytes(), finalization);
    state.wipe();
    key
}

} // verus!
