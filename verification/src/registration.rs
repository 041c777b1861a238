//! The registration engine: four messages that turn a password into the
//! credential record which the server keeps for the user.

use vstd::prelude::*;
use crate::checks::{
    bytes_of, head, head_of, require_decoded, require_present, require_usable, step_exchange,
    step_message,
};
use crate::errors::{Fault, Field, OpaqueError, Step};
use crate::primitives::{
    client_registration_state_decodes, decodes_client_registration_state,
    decodes_registration_request, decodes_registration_response, decodes_registration_upload,
    decodes_setup, finish_registration, registration_request_decodes,
    registration_response_decodes, registration_response_for, registration_upload_decodes,
    respond_to_registration, setup_decodes, start_registration, Started,
};
use crate::state::{ClientRegistrationState, RegistrationStart};
use crate::suite::{
    binding_of, Binding, CLIENT_REGISTRATION_STATE_LEN, PASSWORD_FILE_LEN,
    REGISTRATION_REQUEST_LEN, REGISTRATION_RESPONSE_LEN, REGISTRATION_UPLOAD_LEN,
};

verus! {

/// Why the client's first registration step is refused before it is tried.
pub open spec fn client_register_start_refusal(password: Seq<u8>) -> Option<OpaqueError> {
    if password.len() == 0 {
        Some(OpaqueError::InputEmpty(Field::Password))
    } else {
        None
    }
}

/// Whether a request and a state are what the client's first registration step
/// owes: a request that the server's step takes, a state that the client's last
/// step takes.
pub open spec fn starts_registration(request: Seq<u8>, state: Seq<u8>) -> bool {
    &&& request.len() == REGISTRATION_REQUEST_LEN
    &&& registration_request_decodes(request)
    &&& state.len() == CLIENT_REGISTRATION_STATE_LEN
    &&& client_registration_state_decodes(state)
}

/// What the client's first registration step makes of a request and a state
/// that the protocol gave it: they are the step's result if they are what the
/// step owes, and the step has failed if they are not. A state that could not be
/// written out is a fault of the engine.
pub open spec fn registration_start_of(request: Seq<u8>, state: Option<Seq<u8>>) -> Result<
    (Seq<u8>, Seq<u8>),
    OpaqueError,
> {
    match state {
        None => Err(OpaqueError::InternalFault(Fault::StateSerialize)),
        Some(bytes) => if starts_registration(request, bytes) {
            Ok((request, bytes))
        } else {
            Err(OpaqueError::ProtocolStepFailed(Step::ClientRegisterStart))
        },
    }
}

/// Why the server's registration response is refused before it is computed.
pub open spec fn server_register_response_refusal(
    setup: Seq<u8>,
    user_id: Seq<u8>,
    request: Seq<u8>,
) -> Option<OpaqueError> {
    if setup.len() == 0 {
        Some(OpaqueError::InputEmpty(Field::Setup))
    } else if user_id.len() == 0 {
        Some(OpaqueError::InputEmpty(Field::UserId))
    } else if request.len() == 0 {
        Some(OpaqueError::InputEmpty(Field::Request))
    } else if !setup_decodes(setup) {
        Some(OpaqueError::FormatInvalid(Field::Setup))
    } else if !registration_request_decodes(request) {
        Some(OpaqueError::FormatInvalid(Field::Request))
    } else {
        None
    }
}

/// What the server answers to a registration request: the response that the
/// protocol gives under the user's identifier as credential identifier, as long
/// as it is one that a client can take up.
pub open spec fn server_register_response_result(
    setup: Seq<u8>,
    user_id: Seq<u8>,
    request: Seq<u8>,
) -> Result<Seq<u8>, OpaqueError> {
    match server_register_response_refusal(setup, user_id, request) {
        Some(error) => Err(error),
        None => match registration_response_for(
            setup,
            request,
            binding_of(user_id).credential_id,
        ) {
            Some(response) => if registration_response_decodes(response) {
                Ok(response)
            } else {
                Err(OpaqueError::ProtocolStepFailed(Step::ServerRegisterStart))
            },
            None => Err(OpaqueError::ProtocolStepFailed(Step::ServerRegisterStart)),
        },
    }
}

/// Why an envelope is not sealed for a state and a response that both hold data.
pub open spec fn seal_refusal(state: Seq<u8>, response: Seq<u8>) -> Option<OpaqueError> {
    if !client_registration_state_decodes(state) {
        Some(OpaqueError::FormatInvalid(Field::State))
    } else if !registration_response_decodes(response) {
        Some(OpaqueError::FormatInvalid(Field::Response))
    } else {
        None
    }
}

/// Why the client's last registration step is refused before it is tried.
pub open spec fn client_register_finish_refusal(
    user_id: Seq<u8>,
    password: Seq<u8>,
    state: Seq<u8>,
    response: Seq<u8>,
) -> Option<OpaqueError> {
    if user_id.len() == 0 {
        Some(OpaqueError::InputEmpty(Field::UserId))
    } else if password.len() == 0 {
        Some(OpaqueError::InputEmpty(Field::Password))
    } else if state.len() == 0 {
        Some(OpaqueError::InputEmpty(Field::State))
    } else if response.len() == 0 {
        Some(OpaqueError::InputEmpty(Field::Response))
    } else {
        seal_refusal(state, response)
    }
}

/// Whether `upload` is what the client's last registration step owes: an upload
/// that the server's last step takes.
pub open spec fn finishes_registration(upload: Seq<u8>) -> bool {
    upload.len() == REGISTRATION_UPLOAD_LEN && registration_upload_decodes(upload)
}

/// What the client's last registration step makes of what the protocol gave it:
/// an upload that the server can take up is the step's result; with anything
/// else, and with nothing, the step has failed.
pub open spec fn sealed_upload_of(sealed: Option<Seq<u8>>) -> Result<Seq<u8>, OpaqueError> {
    match sealed {
        Some(upload) => if finishes_registration(upload) {
            Ok(upload)
        } else {
            Err(OpaqueError::ProtocolStepFailed(Step::ClientRegisterFinish))
        },
        None => Err(OpaqueError::ProtocolStepFailed(Step::ClientRegisterFinish)),
    }
}

/// The credential record that the server keeps for an upload: the upload
/// itself, without anything that follows it.
pub open spec fn server_register_finish_result(upload: Seq<u8>) -> Result<Seq<u8>, OpaqueError> {
    if upload.len() == 0 {
        Err(OpaqueError::InputEmpty(Field::Upload))
    } else if !registration_upload_decodes(upload) {
        Err(OpaqueError::FormatInvalid(Field::Upload))
    } else {
        Ok(head_of(upload, PASSWORD_FILE_LEN as nat))
    }
}

/// Why provisioning a credential record in one call is refused before any step
/// is tried.
pub open spec fn create_user_password_file_refusal(
    setup: Seq<u8>,
    user_id: Seq<u8>,
    password: Seq<u8>,
) -> Option<OpaqueError> {
    if setup.len() == 0 {
        Some(OpaqueError::InputEmpty(Field::Setup))
    } else if user_id.len() == 0 {
        Some(OpaqueError::InputEmpty(Field::UserId))
    } else if password.len() == 0 {
        Some(OpaqueError::InputEmpty(Field::Password))
    } else if !setup_decodes(setup) {
        Some(OpaqueError::FormatInvalid(Field::Setup))
    } else {
        None
    }
}

/// A failure that a registration run can end with once its inputs were accepted:
/// that of one of its steps, or that the client's state could not be written out.
pub open spec fn registration_run_failure(error: OpaqueError) -> bool {
    error == OpaqueError::ProtocolStepFailed(Step::ClientRegisterStart) || error
        == OpaqueError::ProtocolStepFailed(Step::ServerRegisterStart) || error
        == OpaqueError::ProtocolStepFailed(Step::ClientRegisterFinish) || error
        == OpaqueError::InternalFault(Fault::StateSerialize)
}

/// What the client's first registration step gives for what the protocol gave
/// it: nothing at all is a failed step, anything else is judged by
/// `registration_start_of`.
pub fn registration_started(outcome: Option<Started>) -> (started: Result<
    RegistrationStart,
    OpaqueError,
>)
    ensures
        match outcome {
            None => started == Err::<RegistrationStart, OpaqueError>(
                OpaqueError::ProtocolStepFailed(Step::ClientRegisterStart),
            ),
            Some(made) => match registration_start_of(made.message@, bytes_of(made.state)) {
                Ok((request, state)) => started matches Ok(start) && start.request@ == request
                    && start.state@ == state,
                Err(error) => started == Err::<RegistrationStart, OpaqueError>(error),
            },
        },
{
    let exchange = step_exchange(outcome, Step::ClientRegisterStart)?;
    let usable = exchange.message.len() == REGISTRATION_REQUEST_LEN
        && decodes_registration_request(exchange.message.as_slice()) && exchange.state.len()
        == CLIENT_REGISTRATION_STATE_LEN && decodes_client_registration_state(
        exchange.state.as_slice(),
    );
    require_usable(usable, Step::ClientRegisterStart)?;
    Ok(
        RegistrationStart {
            request: exchange.message,
            state: ClientRegistrationState::from_bytes(exchange.state),
        },
    )
}

/// What the client's last registration step gives for what the protocol gave
/// it, as `sealed_upload_of` says.
pub fn upload_sealed(outcome: Option<Vec<u8>>) -> (upload: Result<Vec<u8>, OpaqueError>)
    ensures
        match sealed_upload_of(bytes_of(outcome)) {
            Ok(bytes) => upload matches Ok(u) && u@ == bytes,
            Err(error) => upload == Err::<Vec<u8>, OpaqueError>(error),
        },
{
    let upload = step_message(outcome, Step::ClientRegisterFinish)?;
    let usable = upload.len() == REGISTRATION_UPLOAD_LEN && decodes_registration_upload(
        upload.as_slice(),
    );
    require_usable(usable, Step::ClientRegisterFinish)?;
    Ok(upload)
}

/// The credential record for what the protocol gave the client's last
/// registration step: the upload itself where `sealed_upload_of` accepts it.
pub fn record_of_sealed(outcome: Option<Vec<u8>>) -> (file: Result<Vec<u8>, OpaqueError>)
    ensures
        match sealed_upload_of(bytes_of(outcome)) {
            Ok(bytes) => file matches Ok(f) && f@ == bytes,
            Err(error) => file == Err::<Vec<u8>, OpaqueError>(error),
        },
{
    let upload = upload_sealed(outcome)?;
    mi_opaque_server_register_finish(upload.as_slice())
}

/// The client's first registration step: blinds `password` under fresh
/// randomness. Gives the request for the server and the state for
/// `mi_opaque_client_register_finish`; the password itself is in neither. What
/// the protocol hands back goes through `registration_started`.
pub fn mi_opaque_client_register_start(password: &[u8]) -> (started: Result<
    RegistrationStart,
    OpaqueError,
>)
    ensures
        match client_register_start_refusal(password@) {
            Some(error) => started == Err::<RegistrationStart, OpaqueError>(error),
            None => match started {
                Ok(start) => starts_registration(start.request@, start.state@),
                Err(error) => error == OpaqueError::ProtocolStepFailed(Step::ClientRegisterStart)
                    || error == OpaqueError::InternalFault(Fault::StateSerialize),
            },
        },
{
    require_present(password, Field::Password)?;
    registration_started(start_registration(password))
}

/// The server's registration step: answers `request` for the user `user_id`
/// under `setup`. The answer depends on these three alone.
pub fn mi_opaque_server_register_response(setup: &[u8], user_id: &[u8], request: &[u8]) -> (response:
    Result<Vec<u8>, OpaqueError>)
    ensures
        match server_register_response_result(setup@, user_id@, request@) {
            Ok(bytes) => response matches Ok(r) && r@ == bytes && bytes.len()
                == REGISTRATION_RESPONSE_LEN && registration_response_decodes(bytes),
            Err(error) => response == Err::<Vec<u8>, OpaqueError>(error),
        },
{
    require_present(setup, Field::Setup)?;
    require_present(user_id, Field::UserId)?;
    require_present(request, Field::Request)?;
    require_decoded(decodes_setup(setup), Field::Setup)?;
    require_decoded(decodes_registration_request(request), Field::Request)?;
    let binding = Binding::for_user(user_id);
    let response = step_message(
        respond_to_registration(setup, request, &binding),
        Step::ServerRegisterStart,
    )?;
    require_usable(
        decodes_registration_response(response.as_slice()),
        Step::ServerRegisterStart,
    )?;
    Ok(response)
}

/// The client's last registration step on the bytes of the state. What the
/// protocol hands back goes through `upload_sealed`.
fn finish_with_state(user_id: &[u8], password: &[u8], state: &[u8], response: &[u8]) -> (upload:
    Result<Vec<u8>, OpaqueError>)
    ensures
        match client_register_finish_refusal(user_id@, password@, state@, response@) {
            Some(error) => upload == Err::<Vec<u8>, OpaqueError>(error),
            None => match upload {
                Ok(bytes) => finishes_registration(bytes@),
                Err(error) => error == OpaqueError::ProtocolStepFailed(
                    Step::ClientRegisterFinish,
                ),
            },
        },
{
    require_present(user_id, Field::UserId)?;
    require_present(password, Field::Password)?;
    require_present(state, Field::State)?;
    require_present(response, Field::Response)?;
    require_decoded(decodes_client_registration_state(state), Field::State)?;
    require_decoded(decodes_registration_response(response), Field::Response)?;
    let binding = Binding::for_user(user_id);
    upload_sealed(finish_registration(state, password, response, &binding))
}

/// The client's last registration step: stretches the password, seals the
/// envelope for `user_id` and this server, and gives the upload for the server.
/// The state is used up, and overwritten before it is let go.
pub fn mi_opaque_client_register_finish(
    user_id: &[u8],
    password: &[u8],
    state: ClientRegistrationState,
    response: &[u8],
) -> (upload: Result<Vec<u8>, OpaqueError>)
    ensures
        match client_register_finish_refusal(user_id@, password@, state@, response@) {
            Some(error) => upload == Err::<Vec<u8>, OpaqueError>(error),
            None => match upload {
                Ok(bytes) => finishes_registration(bytes@),
                Err(error) => error == OpaqueError::ProtocolStepFailed(
                    Step::ClientRegisterFinish,
                ),
            },
        },
{
    let mut state = state;
    let upload = finish_with_state(user_id, password, state.as_bytes(), response);
    state.wipe();
    upload
}

/// The server's last registration step: the credential record to keep for the
/// user whose client sent `upload`. The record is what the upload holds, copied
/// out once the protocol has accepted the upload.
pub fn mi_opaque_server_register_finish(upload: &[u8]) -> (file: Result<Vec<u8>, OpaqueError>)
    ensures
        match server_register_finish_result(upload@) {
            Ok(bytes) => file matches Ok(f) && f@ == bytes && bytes.len() == PASSWORD_FILE_LEN
                && bytes == upload@.take(PASSWORD_FILE_LEN as int),
            Err(error) => file == Err::<Vec<u8>, OpaqueError>(error),
        },
{
    require_present(upload, Field::Upload)?;
    require_decoded(decodes_registration_upload(upload), Field::Upload)?;
    let file = head(upload, PASSWORD_FILE_LEN);
    assert(upload@.take(upload@.len() as int) == upload@);
    Ok(file)
}

/// Provisions the credential record of `user_id` in one call, for a process that
/// is both client and server: runs the four registration steps in turn, each on
/// what the one before it gave.
///
/// Sealing draws a nonce that no caller sees, so the contract cannot name the
/// record: it says that the record is one which the server's last step keeps and
/// a login takes up, and does not bind it to `user_id` or `password`.
pub fn mi_opaque_create_user_password_file(setup: &[u8], user_id: &[u8], password: &[u8]) -> (file:
    Result<Vec<u8>, OpaqueError>)
    ensures
        match create_user_password_file_refusal(setup@, user_id@, password@) {
            Some(error) => file == Err::<Vec<u8>, OpaqueError>(error),
            None => match file {
                Ok(bytes) => finishes_registration(bytes@) && server_register_finish_result(
                    bytes@,
                ) == Ok::<Seq<u8>, OpaqueError>(bytes@),
                Err(error) => registration_run_failure(error),
            },
        },
{
    require_present(setup, Field::Setup)?;
    require_present(user_id, Field::UserId)?;
    require_present(password, Field::Password)?;
    require_decoded(decodes_setup(setup), Field::Setup)?;
    let started = registration_started(start_registration(password))?;
    let response = mi_opaque_server_register_response(setup, user_id, started.request.as_slice())?;
    let binding = Binding::for_user(user_id);
    let mut state = started.state;
    let sealed = finish_registration(state.as_bytes(), password, response.as_slice(), &binding);
    state.wipe();
    record_of_sealed(sealed)
}

} // verus!
