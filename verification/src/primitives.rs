//! The calls into the protocol crate. Each takes and returns plain bytes; what a
//! call returns for given bytes has a name wherever chance plays no part in it.

use vstd::prelude::*;
use opaque_ke::{
    ClientLogin, ClientLoginFinishParameters, ClientRegistration,
    ClientRegistrationFinishParameters, CredentialFinalization, CredentialRequest,
    CredentialResponse, Identifiers, RegistrationRequest, RegistrationResponse,
    RegistrationUpload, ServerLogin, ServerLoginParameters, ServerRegistration, ServerSetup,
};
use rand::rngs::OsRng;
use crate::suite::{
    Binding, Suite, CREDENTIAL_FINALIZATION_LEN, CREDENTIAL_REQUEST_LEN,
    CREDENTIAL_RESPONSE_LEN, EXCHANGED_KEY_LEN, REGISTRATION_REQUEST_LEN,
    REGISTRATION_RESPONSE_LEN, REGISTRATION_UPLOAD_LEN, SERVER_LOGIN_STATE_LEN,
    SERVER_SETUP_LEN,
};

verus! {

/// A message for the other party together with the serialized state that the
/// matching finish step consumes. `state` is `None` where the state could not be
/// written out.
pub struct Started {
    pub message: Vec<u8>,
    pub state: Option<Vec<u8>>,
}

/// The client's last message of a login together with the key that the key
/// exchange gave the client.
pub struct ClientFinished {
    pub message: Vec<u8>,
    pub key: Vec<u8>,
}

/// Whether `bytes` deserialize into a server setup.
pub uninterp spec fn setup_decodes(bytes: Seq<u8>) -> bool;

/// Whether `bytes` deserialize into a registration request.
pub uninterp spec fn registration_request_decodes(bytes: Seq<u8>) -> bool;

/// Whether `bytes` deserialize into a registration response.
pub uninterp spec fn registration_response_decodes(bytes: Seq<u8>) -> bool;

/// Whether `bytes` deserialize into a registration upload.
pub uninterp spec fn registration_upload_decodes(bytes: Seq<u8>) -> bool;

/// Whether `bytes` deserialize into a credential record. A record is the upload
/// that it was made from, and is read as one.
pub open spec fn password_file_decodes(bytes: Seq<u8>) -> bool {
    registration_upload_decodes(bytes)
}

/// Whether `bytes` deserialize into a credential request.
pub uninterp spec fn credential_request_decodes(bytes: Seq<u8>) -> bool;

/// Whether `bytes` deserialize into a credential response.
pub uninterp spec fn credential_response_decodes(bytes: Seq<u8>) -> bool;

/// Whether `bytes` hold a credential finalization. A finalization is an
/// authentication tag and nothing else: bytes hold one as soon as they are
/// enough, and what follows the tag is not read.
pub open spec fn credential_finalization_decodes(bytes: Seq<u8>) -> bool {
    bytes.len() >= CREDENTIAL_FINALIZATION_LEN
}

/// Whether `bytes` deserialize into the client's registration state.
pub uninterp spec fn client_registration_state_decodes(bytes: Seq<u8>) -> bool;

/// Whether `bytes` deserialize into the client's login state.
pub uninterp spec fn client_login_state_decodes(bytes: Seq<u8>) -> bool;

/// Whether `bytes` hold the server's login state. The state is the exchanged key
/// followed by the tag that the server expects, without any framing: bytes hold
/// one as soon as they are enough, and what follows the tag is not read.
pub open spec fn server_login_state_decodes(bytes: Seq<u8>) -> bool {
    bytes.len() >= SERVER_LOGIN_STATE_LEN
}

/// The registration response that a server with `setup` gives to `request` under
/// the credential identifier `credential_id`, serialized; `None` where the step
/// fails.
pub uninterp spec fn registration_response_for(
    setup: Seq<u8>,
    request: Seq<u8>,
    credential_id: Seq<u8>,
) -> Option<Seq<u8>>;

/// What the client's last login step gives for its state, the password and the
/// server's response under the given context and names of client and server: the
/// finalization message and the exchanged key; `None` where the step fails.
pub uninterp spec fn client_login_outcome(
    state: Seq<u8>,
    password: Seq<u8>,
    response: Seq<u8>,
    context: Seq<u8>,
    client_id: Seq<u8>,
    server_id: Seq<u8>,
) -> Option<(Seq<u8>, Seq<u8>)>;

/// Bytes of the length field that a context is written with into a transcript;
/// a longer context fits no transcript.
pub const CONTEXT_LIMIT: usize = 0xffff;

/// The tag that a server's login state expects of the client: what follows the
/// exchanged key.
pub open spec fn expected_tag(state: Seq<u8>) -> Seq<u8> {
    state.subrange(EXCHANGED_KEY_LEN as int, SERVER_LOGIN_STATE_LEN as int)
}

/// The exchanged key that the server's last login step gives for its state and
/// the client's finalization under the given context and names of client and
/// server: the key at the head of the state, if the finalization is the tag that
/// the state expects; `None` otherwise. The names play no part in this step of
/// a triple Diffie-Hellman exchange: they went into the tag.
pub open spec fn server_login_outcome(
    state: Seq<u8>,
    finalization: Seq<u8>,
    context: Seq<u8>,
    client_id: Seq<u8>,
    server_id: Seq<u8>,
) -> Option<Seq<u8>> {
    if context.len() <= CONTEXT_LIMIT && finalization.take(CREDENTIAL_FINALIZATION_LEN as int)
        == expected_tag(state) {
        Some(state.take(EXCHANGED_KEY_LEN as int))
    } else {
        None
    }
}

/// `ServerSetup::deserialize` of opaque-ke: whether it accepts `bytes`.
#[verifier::external_body]
pub(crate) fn decodes_setup(bytes: &[u8]) -> (ok: bool)
    ensures
        ok == setup_decodes(bytes@),
{
    ServerSetup::<Suite>::deserialize(bytes).is_ok()
}

/// `RegistrationRequest::deserialize` of opaque-ke: whether it accepts `bytes`.
#[verifier::external_body]
pub(crate) fn decodes_registration_request(bytes: &[u8]) -> (ok: bool)
    ensures
        ok == registration_request_decodes(bytes@),
{
    RegistrationRequest::<Suite>::deserialize(bytes).is_ok()
}

/// `RegistrationResponse::deserialize` of opaque-ke: whether it accepts `bytes`.
#[verifier::external_body]
pub(crate) fn decodes_registration_response(bytes: &[u8]) -> (ok: bool)
    ensures
        ok == registration_response_decodes(bytes@),
{
    RegistrationResponse::<Suite>::deserialize(bytes).is_ok()
}

/// `RegistrationUpload::deserialize` of opaque-ke: whether it accepts `bytes`.
/// It reads a public key, a masking key and an envelope from the front, and
/// fails where the bytes run out before that.
#[verifier::external_body]
pub(crate) fn decodes_registration_upload(bytes: &[u8]) -> (ok: bool)
    ensures
        ok == registration_upload_decodes(bytes@),
        ok ==> bytes@.len() >= REGISTRATION_UPLOAD_LEN,
{
    RegistrationUpload::<Suite>::deserialize(bytes).is_ok()
}

/// `ServerRegistration::deserialize` of opaque-ke: whether it accepts `bytes`.
/// It hands the bytes to `RegistrationUpload::deserialize` and accepts what
/// that accepts.
#[verifier::external_body]
pub(crate) fn decodes_password_file(bytes: &[u8]) -> (ok: bool)
    ensures
        ok == registration_upload_decodes(bytes@),
{
    ServerRegistration::<Suite>::deserialize(bytes).is_ok()
}

/// `CredentialRequest::deserialize` of opaque-ke: whether it accepts `bytes`.
#[verifier::external_body]
pub(crate) fn decodes_credential_request(bytes: &[u8]) -> (ok: bool)
    ensures
        ok == credential_request_decodes(bytes@),
{
    CredentialRequest::<Suite>::deserialize(bytes).is_ok()
}

/// `CredentialResponse::deserialize` of opaque-ke: whether it accepts `bytes`.
#[verifier::external_body]
pub(crate) fn decodes_credential_response(bytes: &[u8]) -> (ok: bool)
    ensures
        ok == credential_response_decodes(bytes@),
{
    CredentialResponse::<Suite>::deserialize(bytes).is_ok()
}

/// `bincode::deserialize` into opaque-ke's `ClientRegistration`: whether it
/// accepts `bytes`.
#[verifier::external_body]
pub(crate) fn decodes_client_registration_state(bytes: &[u8]) -> (ok: bool)
    ensures
        ok == client_registration_state_decodes(bytes@),
{
    bincode::deserialize::<ClientRegistration<Suite>>(bytes).is_ok()
}

/// `bincode::deserialize` into opaque-ke's `ClientLogin`: whether it accepts
/// `bytes`.
#[verifier::external_body]
pub(crate) fn decodes_client_login_state(bytes: &[u8]) -> (ok: bool)
    ensures
        ok == client_login_state_decodes(bytes@),
{
    bincode::deserialize::<ClientLogin<Suite>>(bytes).is_ok()
}

/// `ServerSetup::new` of opaque-ke on the operating system's random source, its
/// result serialized. The bytes differ from call to call; they have the length of
/// a setup and, as the crate documents of `serialize`, restore the setup when
/// deserialized. The random source stops the process where it has no entropy.
#[verifier::external_body]
pub(crate) fn new_setup() -> (setup: Vec<u8>)
    ensures
        setup@.len() == SERVER_SETUP_LEN,
        setup_decodes(setup@),
{
    ServerSetup::<Suite>::new(&mut OsRng).serialize().to_vec()
}

/// `ClientRegistration::start` of opaque-ke on the operating system's random
/// source: the serialized request and, through `bincode::serialize`, the state.
/// `None` where the call fails. The request has a request's length; nothing else
/// is claimed, as the blinding differs from call to call. The random source stops
/// the call where it has no entropy.
#[verifier::external_body]
pub(crate) fn start_registration(password: &[u8]) -> (started: Option<Started>)
    ensures
        started matches Some(s) ==> s.message@.len() == REGISTRATION_REQUEST_LEN,
{
    let start = ClientRegistration::<Suite>::start(&mut OsRng, password).ok()?;
    Some(Started {
        message: start.message.serialize().to_vec(),
        state: bincode::serialize(&start.state).ok(),
    })
}

/// `ServerRegistration::start` of opaque-ke on the deserialized setup and
/// request, with the binding's credential identifier: the serialized response,
/// `None` where the call fails. The call draws no randomness, so its result is a
/// function of the three values.
#[verifier::external_body]
pub(crate) fn respond_to_registration(setup: &[u8], request: &[u8], binding: &Binding) -> (response:
    Option<Vec<u8>>)
    requires
        setup_decodes(setup@),
        registration_request_decodes(request@),
    ensures
        response matches Some(bytes) ==> bytes@.len() == REGISTRATION_RESPONSE_LEN,
        match response {
            Some(bytes) => registration_response_for(setup@, request@, binding@.credential_id)
                == Some(bytes@),
            None => registration_response_for(setup@, request@, binding@.credential_id).is_none(),
        },
{
    let setup = ServerSetup::<Suite>::deserialize(setup).ok()?;
    let request = RegistrationRequest::<Suite>::deserialize(request).ok()?;
    let start =
        ServerRegistration::<Suite>::start(&setup, request, binding.credential_id()).ok()?;
    Some(start.message.serialize().to_vec())
}

/// `ClientRegistration::finish` of opaque-ke on the deserialized state and
/// response, with the binding's names of client and server as identifiers and
/// the default stretching parameters: the serialized upload, `None` where the
/// call fails. The envelope's nonce is drawn from the operating system's random
/// source, so only the length is claimed. The random source stops the call where
/// it has no entropy.
#[verifier::external_body]
pub(crate) fn finish_registration(
    state: &[u8],
    password: &[u8],
    response: &[u8],
    binding: &Binding,
) -> (upload: Option<Vec<u8>>)
    requires
        client_registration_state_decodes(state@),
        registration_response_decodes(response@),
    ensures
        upload matches Some(bytes) ==> bytes@.len() == REGISTRATION_UPLOAD_LEN,
{
    let state = bincode::deserialize::<ClientRegistration<Suite>>(state).ok()?;
    let response = RegistrationResponse::<Suite>::deserialize(response).ok()?;
    let identifiers =
        Identifiers { client: Some(binding.client_id()), server: Some(binding.server_id()) };
    let params = ClientRegistrationFinishParameters::new(identifiers, None);
    let finish = state.finish(&mut OsRng, password, response, params).ok()?;
    Some(finish.message.serialize().to_vec())
}

/// `ClientLogin::start` of opaque-ke on the operating system's random source: the
/// serialized request and, through `bincode::serialize`, the state. `None` where
/// the call fails. The request has a request's length; nothing else is claimed, as
/// the blinding and the ephemeral key differ from call to call. The random source
/// stops the call where it has no entropy.
#[verifier::external_body]
pub(crate) fn start_login(password: &[u8]) -> (started: Option<Started>)
    ensures
        started matches Some(s) ==> s.message@.len() == CREDENTIAL_REQUEST_LEN,
{
    let start = ClientLogin::<Suite>::start(&mut OsRng, password).ok()?;
    Some(Started {
        message: start.message.serialize().to_vec(),
        state: bincode::serialize(&start.state).ok(),
    })
}

/// `ServerLogin::start` of opaque-ke on the deserialized setup, credential record
/// (if there is one) and request, under the binding's credential identifier,
/// context and names: the serialized response and, through `bincode::serialize`,
/// the state. `None` where the call fails. The server's ephemeral key and nonces
/// are drawn from the operating system's random source, so only the response's
/// length is claimed; it is the same with and without a record. The random source
/// stops the call where it has no entropy.
#[verifier::external_body]
pub(crate) fn respond_to_login(
    setup: &[u8],
    password_file: Option<&[u8]>,
    request: &[u8],
    binding: &Binding,
) -> (started: Option<Started>)
    requires
        setup_decodes(setup@),
        password_file matches Some(file) ==> password_file_decodes(file@),
        credential_request_decodes(request@),
    ensures
        started matches Some(s) ==> s.message@.len() == CREDENTIAL_RESPONSE_LEN,
{
    let setup = ServerSetup::<Suite>::deserialize(setup).ok()?;
    let file = match password_file {
        Some(bytes) => Some(ServerRegistration::<Suite>::deserialize(bytes).ok()?),
        None => None,
    };
    let request = CredentialRequest::<Suite>::deserialize(request).ok()?;
    let identifiers =
        Identifiers { client: Some(binding.client_id()), server: Some(binding.server_id()) };
    let params = ServerLoginParameters { context: Some(binding.context()), identifiers };
    let id = binding.credential_id();
    let start = ServerLogin::start(&mut OsRng, &setup, file, request, id, params).ok()?;
    Some(Started {
        message: start.message.serialize().to_vec(),
        state: bincode::serialize(&start.state).ok(),
    })
}

/// `ClientLogin::finish` of opaque-ke on the deserialized state and response,
/// under the binding's context and names and the default stretching parameters:
/// the serialized finalization and the exchanged key, `None` where the call fails.
/// The call is handed the operating system's random source, which the triple
/// Diffie-Hellman exchange does not draw from: the result is a function of the
/// values handed in.
#[verifier::external_body]
pub(crate) fn finish_login(
    state: &[u8],
    password: &[u8],
    response: &[u8],
    binding: &Binding,
) -> (finished: Option<ClientFinished>)
    requires
        client_login_state_decodes(state@),
        credential_response_decodes(response@),
    ensures
        finished matches Some(f) ==> f.message@.len() == CREDENTIAL_FINALIZATION_LEN
            && f.key@.len() == EXCHANGED_KEY_LEN,
        match finished {
            Some(f) => client_login_outcome(
                state@,
                password@,
                response@,
                binding@.context,
                binding@.client_id,
                binding@.server_id,
            ) == Some((f.message@, f.key@)),
            None => client_login_outcome(
                state@,
                password@,
                response@,
                binding@.context,
                binding@.client_id,
                binding@.server_id,
            ).is_none(),
        },
{
    let state = bincode::deserialize::<ClientLogin<Suite>>(state).ok()?;
    let response = CredentialResponse::<Suite>::deserialize(response).ok()?;
    let identifiers =
        Identifiers { client: Some(binding.client_id()), server: Some(binding.server_id()) };
    let params = ClientLoginFinishParameters::new(Some(binding.context()), identifiers, None);
    let finish = state.finish(&mut OsRng, password, response, params).ok()?;
    Some(ClientFinished {
        message: finish.message.serialize().to_vec(),
        key: finish.session_key.to_vec(),
    })
}

/// `ServerLogin::finish` of opaque-ke on the deserialized state and finalization,
/// under the binding's context and names: the exchanged key, `None` where the
/// call fails. The call writes the context's length into two bytes, failing on
/// a longer one, compares the finalization's tag with the tag in the state, and
/// hands out the key in the state where they are equal.
#[verifier::external_body]
pub(crate) fn conclude_login(state: &[u8], finalization: &[u8], binding: &Binding) -> (key: Option<
    Vec<u8>,
>)
    requires
        server_login_state_decodes(state@),
        credential_finalization_decodes(finalization@),
    ensures
        key matches Some(bytes) ==> bytes@.len() == EXCHANGED_KEY_LEN,
        match key {
            Some(bytes) => server_login_outcome(
                state@,
                finalization@,
                binding@.context,
                binding@.client_id,
                binding@.server_id,
            ) == Some(bytes@),
            None => server_login_outcome(
                state@,
                finalization@,
                binding@.context,
                binding@.client_id,
                binding@.server_id,
            ).is_none(),
        },
{
    let state = bincode::deserialize::<ServerLogin<Suite>>(state).ok()?;
    let finalization = CredentialFinalization::<Suite>::deserialize(finalization).ok()?;
    let identifiers =
        Identifiers { client: Some(binding.client_id()), server: Some(binding.server_id()) };
    let params = ServerLoginParameters { context: Some(binding.context()), identifiers };
    Some(state.finish(finalization, params).ok()?.session_key.to_vec())
}

} // verus!
