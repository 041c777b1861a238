use opaque_ke::{
    ClientLogin, ClientLoginFinishParameters, CredentialFinalization, CredentialRequest,
    CredentialResponse, Identifiers, RegistrationRequest, RegistrationResponse,
    RegistrationUpload, ServerLogin, ServerLoginParameters, ServerRegistration, ServerSetup,
};
use opaque_pake::checks::require_usable;
use opaque_pake::suite::{Binding, Suite};
use opaque_pake::{
    mi_opaque_client_login_finish, mi_opaque_client_login_start,
    mi_opaque_client_register_finish, mi_opaque_client_register_start,
    mi_opaque_create_user_password_file, mi_opaque_server_login_finish,
    mi_opaque_server_login_start, mi_opaque_server_register_response,
    mi_opaque_server_setup_generate, ClientLoginState, ClientRegistrationState, OpaqueError,
    ServerLoginState, Step,
};
use rand::rngs::OsRng;

const CONTEXT: &[u8] = b"mi_e2ee_opaque_v1";
const SERVER_ID: &[u8] = b"mi_e2ee_server_v1";

fn params<'a>(context: &'a [u8], user: &'a [u8], server: &'a [u8]) -> ServerLoginParameters<'a, 'a> {
    ServerLoginParameters {
        context: Some(context),
        identifiers: Identifiers { client: Some(user), server: Some(server) },
    }
}

#[test]
fn binding_of_a_user_holds_context_and_names() {
    let binding = Binding::for_user(b"alice");
    assert_eq!(binding.context(), CONTEXT);
    assert_eq!(binding.server_id(), SERVER_ID);
    assert_eq!(binding.client_id(), b"alice");
    assert_eq!(binding.credential_id(), b"alice");
    assert_eq!(opaque_pake::suite::MI_OPAQUE_CONTEXT.as_slice(), CONTEXT);
    assert_eq!(opaque_pake::suite::MI_OPAQUE_SERVER_ID.as_slice(), SERVER_ID);
}

#[test]
fn unusable_output_is_a_failed_step() {
    assert_eq!(require_usable(true, Step::ServerLoginStart), Ok(()));
    assert_eq!(
        require_usable(false, Step::ServerLoginStart),
        Err(OpaqueError::ProtocolStepFailed(Step::ServerLoginStart))
    );
}

#[test]
fn wiped_states_hold_zeros() {
    let mut state = ClientRegistrationState::from_bytes(vec![1, 2, 3]);
    state.wipe();
    assert_eq!(state.as_bytes(), &[0u8, 0, 0]);
    let mut state = ClientLoginState::from_bytes(vec![9; 192]);
    state.wipe();
    assert_eq!(state.into_bytes(), vec![0u8; 192]);
    let mut state = ServerLoginState::from_bytes(Vec::new());
    state.wipe();
    assert_eq!(state.as_bytes(), &[0u8; 0]);
}

#[test]
fn what_a_step_gives_the_next_step_can_read() {
    let setup = mi_opaque_server_setup_generate();
    let started = mi_opaque_client_register_start(b"pw").unwrap();
    assert_eq!(started.state.as_bytes().len(), 64);
    assert!(RegistrationRequest::<Suite>::deserialize(&started.request).is_ok());
    let response = mi_opaque_server_register_response(&setup, b"alice", &started.request).unwrap();
    assert!(RegistrationResponse::<Suite>::deserialize(&response).is_ok());
    let upload =
        mi_opaque_client_register_finish(b"alice", b"pw", started.state, &response).unwrap();
    assert!(RegistrationUpload::<Suite>::deserialize(&upload).is_ok());

    let client = mi_opaque_client_login_start(b"pw").unwrap();
    assert_eq!(client.state.as_bytes().len(), 192);
    assert!(CredentialRequest::<Suite>::deserialize(&client.request).is_ok());
    assert!(bincode::deserialize::<ClientLogin<Suite>>(client.state.as_bytes()).is_ok());
    for file in [None, Some(upload.as_slice())] {
        let server = mi_opaque_server_login_start(&setup, b"alice", file, &client.request).unwrap();
        assert_eq!(server.response.len(), 320);
        assert_eq!(server.state.as_bytes().len(), 128);
        assert!(CredentialResponse::<Suite>::deserialize(&server.response).is_ok());
        assert!(bincode::deserialize::<ServerLogin<Suite>>(server.state.as_bytes()).is_ok());
    }
}

#[test]
fn client_of_the_library_logs_in_at_a_server_bound_alike() {
    let user = b"alice";
    let password = b"correct-horse-battery";
    let setup_bytes = mi_opaque_server_setup_generate();
    let file = mi_opaque_create_user_password_file(&setup_bytes, user, password).unwrap();
    let client = mi_opaque_client_login_start(password).unwrap();

    let setup = ServerSetup::<Suite>::deserialize(&setup_bytes).unwrap();
    let record = ServerRegistration::<Suite>::deserialize(&file).unwrap();
    let request = CredentialRequest::<Suite>::deserialize(&client.request).unwrap();
    let start = ServerLogin::start(
        &mut OsRng,
        &setup,
        Some(record),
        request,
        user,
        params(CONTEXT, user, SERVER_ID),
    )
    .unwrap();
    let response = start.message.serialize().to_vec();
    let finish = mi_opaque_client_login_finish(user, password, client.state, &response).unwrap();
    let finalization = CredentialFinalization::<Suite>::deserialize(&finish.finalization).unwrap();
    let server = start.state.finish(finalization, params(CONTEXT, user, SERVER_ID)).unwrap();
    assert_eq!(server.session_key.len(), 64);
    assert_eq!(finish.session_key.as_slice(), &server.session_key[..32]);
}

#[test]
fn client_of_the_library_fails_at_a_server_bound_otherwise() {
    let user = b"alice";
    let password = b"correct-horse-battery";
    let setup_bytes = mi_opaque_server_setup_generate();
    let file = mi_opaque_create_user_password_file(&setup_bytes, user, password).unwrap();
    let setup = ServerSetup::<Suite>::deserialize(&setup_bytes).unwrap();

    // Context and server name changed places.
    let bindings = [params(SERVER_ID, user, CONTEXT), params(CONTEXT, SERVER_ID, user)];
    for binding in bindings {
        let client = mi_opaque_client_login_start(password).unwrap();
        let record = ServerRegistration::<Suite>::deserialize(&file).unwrap();
        let request = CredentialRequest::<Suite>::deserialize(&client.request).unwrap();
        let start =
            ServerLogin::start(&mut OsRng, &setup, Some(record), request, user, binding).unwrap();
        let response = start.message.serialize().to_vec();
        assert_eq!(
            mi_opaque_client_login_finish(user, password, client.state, &response).err(),
            Some(OpaqueError::ProtocolStepFailed(Step::ClientLoginFinish))
        );
    }
}

#[test]
fn server_of_the_library_serves_a_client_bound_alike() {
    let user = b"alice";
    let password = b"correct-horse-battery";
    let setup = mi_opaque_server_setup_generate();
    let file = mi_opaque_create_user_password_file(&setup, user, password).unwrap();

    let start = ClientLogin::<Suite>::start(&mut OsRng, password).unwrap();
    let request = start.message.serialize().to_vec();
    let server = mi_opaque_server_login_start(&setup, user, Some(file.as_slice()), &request).unwrap();
    let response = CredentialResponse::<Suite>::deserialize(&server.response).unwrap();
    let identifiers = Identifiers { client: Some(user), server: Some(SERVER_ID) };
    let finish = start
        .state
        .finish(
            &mut OsRng,
            password,
            response,
            ClientLoginFinishParameters::new(Some(CONTEXT), identifiers, None),
        )
        .unwrap();
    let finalization = finish.message.serialize().to_vec();
    let key = mi_opaque_server_login_finish(user, server.state, &finalization).unwrap();
    assert_eq!(key.as_slice(), &finish.session_key[..32]);
}
