//! What holds of the engine for every input, stated over the specifications of
//! its operations.

use vstd::prelude::*;
use crate::checks::session_key_of;
use crate::errors::{status_of, Field, OpaqueError, Status, Step};
use crate::login::{
    client_login_finish_refusal, client_login_finish_result, client_login_start_refusal,
    password_file_refusal, server_login_finish_refusal, server_login_finish_result,
    server_login_start_refusal, answers_login, starts_login,
};
use crate::primitives::{
    expected_tag, client_login_outcome, client_login_state_decodes, client_registration_state_decodes,
    credential_finalization_decodes, credential_request_decodes, credential_response_decodes,
    password_file_decodes, registration_request_decodes, registration_response_decodes,
    registration_upload_decodes, server_login_outcome, server_login_state_decodes,
    setup_decodes,
};
use crate::registration::{
    client_register_finish_refusal, client_register_start_refusal,
    create_user_password_file_refusal, finishes_registration,
    server_register_finish_result, server_register_response_refusal,
    server_register_response_result, starts_registration,
};
use crate::setup::setup_refusal;
use crate::suite::{
    binding_of, EXCHANGED_KEY_LEN, MI_OPAQUE_CONTEXT, MI_OPAQUE_SERVER_ID,
    CREDENTIAL_FINALIZATION_LEN, PASSWORD_FILE_LEN, SERVER_LOGIN_STATE_LEN, SESSION_KEY_LEN,
};

verus! {

/// Whether `refusal` says that a buffer did not deserialize.
pub open spec fn is_format_invalid(refusal: Option<OpaqueError>) -> bool {
    refusal matches Some(OpaqueError::FormatInvalid(_))
}

/// A server setup that holds data and does not deserialize is refused as
/// malformed by every operation that takes one, whatever the other buffers hold,
/// as long as they hold data.
pub proof fn malformed_setup_is_format_invalid(
    setup: Seq<u8>,
    user_id: Seq<u8>,
    password: Seq<u8>,
    password_file: Option<Seq<u8>>,
    request: Seq<u8>,
)
    requires
        setup.len() > 0,
        user_id.len() > 0,
        password.len() > 0,
        request.len() > 0,
        !setup_decodes(setup),
    ensures
        setup_refusal(setup) == Some(OpaqueError::FormatInvalid(Field::Setup)),
        server_register_response_refusal(setup, user_id, request) == Some(
            OpaqueError::FormatInvalid(Field::Setup),
        ),
        create_user_password_file_refusal(setup, user_id, password) == Some(
            OpaqueError::FormatInvalid(Field::Setup),
        ),
        server_login_start_refusal(setup, user_id, password_file, request) == Some(
            OpaqueError::FormatInvalid(Field::Setup),
        ),
{
}

/// The server's registration step refuses as malformed whatever holds data and
/// does not deserialize.
pub proof fn server_register_response_rejects_malformed(
    setup: Seq<u8>,
    user_id: Seq<u8>,
    request: Seq<u8>,
)
    requires
        setup.len() > 0,
        user_id.len() > 0,
        request.len() > 0,
        !setup_decodes(setup) || !registration_request_decodes(request),
    ensures
        is_format_invalid(server_register_response_refusal(setup, user_id, request)),
        server_register_response_result(setup, user_id, request).is_err(),
{
}

/// The client's last registration step refuses as malformed a state or a
/// response that holds data and does not deserialize: a response that was
/// changed on its way fails so wherever the change leaves nothing that
/// deserializes.
pub proof fn client_register_finish_rejects_malformed(
    user_id: Seq<u8>,
    password: Seq<u8>,
    state: Seq<u8>,
    response: Seq<u8>,
)
    requires
        user_id.len() > 0,
        password.len() > 0,
        state.len() > 0,
        response.len() > 0,
        !client_registration_state_decodes(state) || !registration_response_decodes(response),
    ensures
        is_format_invalid(client_register_finish_refusal(user_id, password, state, response)),
        client_registration_state_decodes(state) ==> client_register_finish_refusal(
            user_id,
            password,
            state,
            response,
        ) == Some(OpaqueError::FormatInvalid(Field::Response)),
{
}

/// The server's last registration step refuses as malformed an upload that holds
/// data and does not deserialize.
pub proof fn server_register_finish_rejects_malformed(upload: Seq<u8>)
    requires
        upload.len() > 0,
        !registration_upload_decodes(upload),
    ensures
        server_register_finish_result(upload) == Err::<Seq<u8>, OpaqueError>(
            OpaqueError::FormatInvalid(Field::Upload),
        ),
{
}

/// The server's first login step refuses as malformed whatever holds data and
/// does not deserialize: the setup, the credential record, the request.
pub proof fn server_login_start_rejects_malformed(
    setup: Seq<u8>,
    user_id: Seq<u8>,
    password_file: Option<Seq<u8>>,
    request: Seq<u8>,
)
    requires
        setup.len() > 0,
        user_id.len() > 0,
        request.len() > 0,
        password_file matches Some(file) ==> file.len() > 0,
        !setup_decodes(setup) || !credential_request_decodes(request) || (
        password_file matches Some(file) && !password_file_decodes(file)),
    ensures
        is_format_invalid(server_login_start_refusal(setup, user_id, password_file, request)),
{
}

/// The client's last login step refuses as malformed a state or a response that
/// holds data and does not deserialize.
pub proof fn client_login_finish_rejects_malformed(
    user_id: Seq<u8>,
    password: Seq<u8>,
    state: Seq<u8>,
    response: Seq<u8>,
)
    requires
        user_id.len() > 0,
        password.len() > 0,
        state.len() > 0,
        response.len() > 0,
        !client_login_state_decodes(state) || !credential_response_decodes(response),
    ensures
        is_format_invalid(client_login_finish_refusal(user_id, password, state, response)),
        client_login_finish_result(user_id, password, state, response).is_err(),
{
}

/// The server's last login step refuses as malformed a state or a finalization
/// that holds data and does not deserialize.
pub proof fn server_login_finish_rejects_malformed(
    user_id: Seq<u8>,
    state: Seq<u8>,
    finalization: Seq<u8>,
)
    requires
        user_id.len() > 0,
        state.len() > 0,
        finalization.len() > 0,
        !server_login_state_decodes(state) || !credential_finalization_decodes(finalization),
    ensures
        is_format_invalid(server_login_finish_refusal(user_id, state, finalization)),
        server_login_finish_result(user_id, state, finalization).is_err(),
{
}

/// An operation refuses a required buffer that holds no data as the caller's
/// error, before it looks at what any buffer holds.
pub proof fn empty_input_is_the_callers_error(
    setup: Seq<u8>,
    user_id: Seq<u8>,
    password: Seq<u8>,
    state: Seq<u8>,
    message: Seq<u8>,
    password_file: Option<Seq<u8>>,
)
    ensures
        setup.len() == 0 ==> setup_refusal(setup) == Some(OpaqueError::InputEmpty(Field::Setup))
            && server_register_response_refusal(setup, user_id, message) == Some(
            OpaqueError::InputEmpty(Field::Setup),
        ) && create_user_password_file_refusal(setup, user_id, password) == Some(
            OpaqueError::InputEmpty(Field::Setup),
        ) && server_login_start_refusal(setup, user_id, password_file, message) == Some(
            OpaqueError::InputEmpty(Field::Setup),
        ),
        user_id.len() == 0 ==> client_register_finish_refusal(user_id, password, state, message)
            == Some(OpaqueError::InputEmpty(Field::UserId)) && client_login_finish_refusal(
            user_id,
            password,
            state,
            message,
        ) == Some(OpaqueError::InputEmpty(Field::UserId)) && server_login_finish_refusal(
            user_id,
            state,
            message,
        ) == Some(OpaqueError::InputEmpty(Field::UserId)),
        password.len() == 0 ==> client_register_start_refusal(password) == Some(
            OpaqueError::InputEmpty(Field::Password),
        ) && client_login_start_refusal(password) == Some(
            OpaqueError::InputEmpty(Field::Password),
        ),
        status_of(OpaqueError::InputEmpty(Field::Setup)) == Status::ProtocolError,
{
}

/// Provisioning in one call is refused on exactly the inputs that one of the
/// registration steps refuses for what the caller handed it: the setup, the user
/// identifier, the password.
pub proof fn one_call_refuses_as_the_steps_do(
    setup: Seq<u8>,
    user_id: Seq<u8>,
    password: Seq<u8>,
)
    ensures
        create_user_password_file_refusal(setup, user_id, password).is_none() <==> (
        client_register_start_refusal(password).is_none() && setup_refusal(setup).is_none()
            && user_id.len() > 0),
        forall|request: Seq<u8>|
            create_user_password_file_refusal(setup, user_id, password).is_none()
                && request.len() > 0 && registration_request_decodes(request)
                ==> #[trigger] server_register_response_refusal(setup, user_id, request).is_none(),
{
}

/// A login for a user that the server has no record of is refused on no input on
/// which a login with a record is accepted, so no refusal tells the two apart.
pub proof fn unknown_user_is_not_refused(
    setup: Seq<u8>,
    user_id: Seq<u8>,
    password_file: Seq<u8>,
    request: Seq<u8>,
)
    ensures
        server_login_start_refusal(setup, user_id, Some(password_file), request).is_none()
            ==> server_login_start_refusal(setup, user_id, None, request).is_none(),
        server_login_start_refusal(setup, user_id, None, request) matches Some(error) ==> (
        server_login_start_refusal(setup, user_id, Some(password_file), request) matches Some(
            other,
        ) && (other == error || password_file_refusal(Some(password_file)) == Some(other))),
{
}

/// Once its buffers are accepted, the client's last login step fails in one way
/// only: a wrong password, an unknown user and a response that was tampered with
/// are not told apart.
pub proof fn login_failure_is_uniform(
    user_id: Seq<u8>,
    password: Seq<u8>,
    state: Seq<u8>,
    response: Seq<u8>,
)
    requires
        client_login_finish_refusal(user_id, password, state, response).is_none(),
    ensures
        client_login_finish_result(user_id, password, state, response) matches Err(error)
            ==> error == OpaqueError::ProtocolStepFailed(Step::ClientLoginFinish),
        client_login_finish_result(user_id, password, state, response).is_err()
            <==> client_login_outcome(
            state,
            password,
            response,
            MI_OPAQUE_CONTEXT@,
            user_id,
            MI_OPAQUE_SERVER_ID@,
        ).is_none(),
{
}

/// Where the server's last login step fails, no session key comes out of it; where
/// it succeeds, the key is the session key within the key that the exchange gave.
pub proof fn server_key_only_on_success(
    user_id: Seq<u8>,
    state: Seq<u8>,
    finalization: Seq<u8>,
)
    ensures
        match server_login_finish_result(user_id, state, finalization) {
            Ok(key) => server_login_finish_refusal(user_id, state, finalization).is_none() && (
            server_login_outcome(
                state,
                finalization,
                MI_OPAQUE_CONTEXT@,
                user_id,
                MI_OPAQUE_SERVER_ID@,
            ) matches Some(exchanged) && key == session_key_of(exchanged)),
            Err(error) => server_login_finish_refusal(user_id, state, finalization) == Some(error)
                || error == OpaqueError::ProtocolStepFailed(Step::ServerLoginFinish),
        },
{
}

/// Where the protocol hands the client the key that the server's state holds,
/// together with the tag that the state expects, both last steps succeed and
/// give one and the same session key, of a session key's length. That an
/// undisturbed run is such a case is the protocol's part; this is the engine's.
pub proof fn one_exchanged_key_gives_one_session_key(
    user_id: Seq<u8>,
    password: Seq<u8>,
    client_state: Seq<u8>,
    response: Seq<u8>,
    server_state: Seq<u8>,
    finalization: Seq<u8>,
    exchanged: Seq<u8>,
)
    requires
        client_login_finish_refusal(user_id, password, client_state, response).is_none(),
        server_state.len() >= SERVER_LOGIN_STATE_LEN,
        client_login_outcome(
            client_state,
            password,
            response,
            binding_of(user_id).context,
            binding_of(user_id).client_id,
            binding_of(user_id).server_id,
        ) == Some((finalization, exchanged)),
        finalization == expected_tag(server_state),
        exchanged == server_state.take(EXCHANGED_KEY_LEN as int),
    ensures
        client_login_finish_result(user_id, password, client_state, response) == Ok::<
            (Seq<u8>, Seq<u8>),
            OpaqueError,
        >((finalization, session_key_of(exchanged))),
        server_login_finish_result(user_id, server_state, finalization) == Ok::<
            Seq<u8>,
            OpaqueError,
        >(session_key_of(exchanged)),
        session_key_of(exchanged).len() == SESSION_KEY_LEN,
        session_key_of(exchanged) == server_state.take(SESSION_KEY_LEN as int),
{
    assert(finalization.len() == CREDENTIAL_FINALIZATION_LEN);
    assert(finalization.take(CREDENTIAL_FINALIZATION_LEN as int) =~= finalization);
    assert(session_key_of(exchanged) =~= server_state.take(SESSION_KEY_LEN as int));
}

/// The client's last login step gives the same for the same bytes: a state that
/// was written out, stored or sent, and read back continues as the state it was
/// written from. This is a congruence: it holds because the step's result is a
/// function of the four buffers, which is what the step's own contract states.
pub proof fn state_survives_transport(
    user_id: Seq<u8>,
    password: Seq<u8>,
    state: Seq<u8>,
    stored: Seq<u8>,
    response: Seq<u8>,
)
    requires
        stored =~= state,
    ensures
        client_login_finish_result(user_id, password, stored, response)
            == client_login_finish_result(user_id, password, state, response),
{
}

/// The credential record of an upload is the upload, byte for byte: the server's
/// last registration step adds nothing and takes nothing away, and gives the
/// same record whenever it is asked again.
pub proof fn record_is_the_upload(upload: Seq<u8>)
    requires
        finishes_registration(upload),
    ensures
        server_register_finish_result(upload) == Ok::<Seq<u8>, OpaqueError>(upload),
{
    assert(upload.take(PASSWORD_FILE_LEN as int) =~= upload);
}

/// What one step of a registration gives, the next step takes up: the server's
/// step does not refuse the request of the client's first step, the client's
/// last step does not refuse the state of its first step nor a response that
/// the server gave, and the server's last step keeps the upload.
pub proof fn registration_steps_fit(
    setup: Seq<u8>,
    user_id: Seq<u8>,
    password: Seq<u8>,
    request: Seq<u8>,
    state: Seq<u8>,
    response: Seq<u8>,
    upload: Seq<u8>,
)
    requires
        setup.len() > 0,
        setup_decodes(setup),
        user_id.len() > 0,
        password.len() > 0,
        starts_registration(request, state),
    ensures
        server_register_response_refusal(setup, user_id, request).is_none(),
        server_register_response_result(setup, user_id, request) == Ok::<Seq<u8>, OpaqueError>(
            response,
        ) && response.len() > 0 ==> client_register_finish_refusal(
            user_id,
            password,
            state,
            response,
        ).is_none(),
        finishes_registration(upload) ==> server_register_finish_result(upload) == Ok::<
            Seq<u8>,
            OpaqueError,
        >(upload),
{
    assert(upload.len() == PASSWORD_FILE_LEN ==> upload.take(PASSWORD_FILE_LEN as int)
        =~= upload);
}

/// What one step of a login gives, the next step takes up, for a user that the
/// server knows as for one it does not: the server's first step refuses neither
/// the request of the client's first step nor a record that a registration
/// ended with, and neither last step refuses the state of its own first step or
/// a message of the length that the other side sends.
pub proof fn login_steps_fit(
    setup: Seq<u8>,
    user_id: Seq<u8>,
    password: Seq<u8>,
    record: Seq<u8>,
    request: Seq<u8>,
    client_state: Seq<u8>,
    response: Seq<u8>,
    server_state: Seq<u8>,
    finalization: Seq<u8>,
)
    requires
        setup.len() > 0,
        setup_decodes(setup),
        user_id.len() > 0,
        password.len() > 0,
        finishes_registration(record),
        starts_login(request, client_state),
        answers_login(response, server_state),
        finalization.len() == CREDENTIAL_FINALIZATION_LEN,
    ensures
        server_login_start_refusal(setup, user_id, None, request).is_none(),
        server_login_start_refusal(setup, user_id, Some(record), request).is_none(),
        client_login_finish_refusal(user_id, password, client_state, response).is_none(),
        server_login_finish_refusal(user_id, server_state, finalization).is_none(),
{
}

/// The server's last login step gives a key for one finalization only: the tag
/// that its state expects. Every other finalization, a forged one as one from a
/// client that did not know the password, ends in a failed step and no key.
pub proof fn server_rejects_every_other_finalization(
    user_id: Seq<u8>,
    state: Seq<u8>,
    finalization: Seq<u8>,
)
    requires
        user_id.len() > 0,
        state.len() >= SERVER_LOGIN_STATE_LEN,
        finalization.len() >= CREDENTIAL_FINALIZATION_LEN,
    ensures
        finalization.take(CREDENTIAL_FINALIZATION_LEN as int) != expected_tag(state)
            ==> server_login_finish_result(user_id, state, finalization) == Err::<
            Seq<u8>,
            OpaqueError,
        >(OpaqueError::ProtocolStepFailed(Step::ServerLoginFinish)),
        finalization.take(CREDENTIAL_FINALIZATION_LEN as int) == expected_tag(state)
            ==> server_login_finish_result(user_id, state, finalization) == Ok::<
            Seq<u8>,
            OpaqueError,
        >(state.take(SESSION_KEY_LEN as int)),
{
    assert(session_key_of(state.take(EXCHANGED_KEY_LEN as int)) =~= state.take(
        SESSION_KEY_LEN as int,
    ));
}

} // verus!
