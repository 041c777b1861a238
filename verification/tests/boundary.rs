use opaque_pake::checks::{
    client_login_finished, require_decoded, require_present, server_login_finished, session_key,
    step_exchange, step_message,
};
use opaque_pake::primitives::{ClientFinished, Started};
use opaque_pake::{
    alloc_out, catch_and_report, deliver, deliver_exchange, deliver_login_finish, ok_clear_error,
    set_error, Fault, Field, LoginFinish, OpaqueError, OutBuffer, Step,
};

#[test]
fn alloc_out_leaves_the_bytes_at_an_attached_place() {
    let mut out = OutBuffer::new(true);
    assert!(out.attached());
    assert_eq!(alloc_out(vec![1, 2, 3], &mut out), Ok(()));
    assert_eq!(out.take(), Some(vec![1, 2, 3]));
}

#[test]
fn alloc_out_leaves_an_empty_buffer_too() {
    let mut out = OutBuffer::new(true);
    assert_eq!(alloc_out(Vec::new(), &mut out), Ok(()));
    assert_eq!(out.take(), Some(Vec::new()));
}

#[test]
fn alloc_out_fails_at_an_unattached_place() {
    let mut out = OutBuffer::new(false);
    assert!(!out.attached());
    assert_eq!(alloc_out(vec![1, 2, 3], &mut out), Err(()));
    assert_eq!(out.take(), None);
}

#[test]
fn set_error_writes_the_message_bytes() {
    let mut out = OutBuffer::new(true);
    set_error("setup empty", &mut out);
    assert_eq!(out.take(), Some(b"setup empty".to_vec()));
    let mut nowhere = OutBuffer::new(false);
    set_error("setup empty", &mut nowhere);
    assert_eq!(nowhere.take(), None);
}

#[test]
fn ok_clear_error_leaves_no_message() {
    let mut out = OutBuffer::new(true);
    set_error("old", &mut out);
    ok_clear_error(&mut out);
    assert_eq!(out.take(), None);
}

#[test]
fn success_is_reported_as_zero_without_a_message() {
    let mut out = OutBuffer::new(true);
    set_error("stale", &mut out);
    assert_eq!(catch_and_report(Some(Ok(())), &mut out), 0);
    assert_eq!(out.take(), None);
}

#[test]
fn an_error_is_reported_as_two_with_its_message() {
    let mut out = OutBuffer::new(true);
    let outcome = Some(Err(OpaqueError::FormatInvalid(Field::PasswordFile)));
    assert_eq!(catch_and_report(outcome, &mut out), 2);
    assert_eq!(out.take(), Some(b"password file invalid".to_vec()));

    let mut out = OutBuffer::new(true);
    let outcome = Some(Err(OpaqueError::ProtocolStepFailed(Step::ClientLoginFinish)));
    assert_eq!(catch_and_report(outcome, &mut out), 2);
    assert_eq!(out.take(), Some(b"client login finish failed".to_vec()));
}

#[test]
fn a_runtime_fault_is_reported_as_three() {
    let mut out = OutBuffer::new(true);
    assert_eq!(catch_and_report(None, &mut out), 3);
    assert_eq!(out.take(), Some(b"panic".to_vec()));

    let mut out = OutBuffer::new(true);
    let outcome = Some(Err(OpaqueError::InternalFault(Fault::StateSerialize)));
    assert_eq!(catch_and_report(outcome, &mut out), 3);
    assert_eq!(out.take(), Some(b"state serialize failed".to_vec()));
}

#[test]
fn a_status_is_reported_without_a_place_for_the_message() {
    let mut out = OutBuffer::new(false);
    let outcome = Some(Err(OpaqueError::InputEmpty(Field::Setup)));
    assert_eq!(catch_and_report(outcome, &mut out), 2);
    assert_eq!(out.take(), None);
}

#[test]
fn deliver_reports_a_missing_place_as_bad_output() {
    let mut out = OutBuffer::new(false);
    let left = deliver(vec![1], &mut out);
    assert_eq!(left, Err(OpaqueError::InputEmpty(Field::Output)));
    assert_eq!(left.unwrap_err().message(), "bad output");
    let mut out = OutBuffer::new(true);
    assert_eq!(deliver(vec![1], &mut out), Ok(()));
    assert_eq!(out.take(), Some(vec![1]));
}

#[test]
fn deliver_exchange_leaves_the_message_before_the_state() {
    let mut message = OutBuffer::new(true);
    let mut state = OutBuffer::new(true);
    assert_eq!(deliver_exchange(vec![1], vec![2, 2], &mut message, &mut state), Ok(()));
    assert_eq!(message.take(), Some(vec![1]));
    assert_eq!(state.take(), Some(vec![2, 2]));

    let mut message = OutBuffer::new(true);
    let mut state = OutBuffer::new(false);
    assert_eq!(
        deliver_exchange(vec![1], vec![2, 2], &mut message, &mut state),
        Err(OpaqueError::InputEmpty(Field::Output))
    );
    assert_eq!(message.take(), Some(vec![1]));
    assert_eq!(state.take(), None);

    let mut message = OutBuffer::new(false);
    let mut state = OutBuffer::new(true);
    assert_eq!(
        deliver_exchange(vec![1], vec![2, 2], &mut message, &mut state),
        Err(OpaqueError::InputEmpty(Field::Output))
    );
    assert_eq!(message.take(), None);
    assert_eq!(state.take(), None);
}

#[test]
fn deliver_login_finish_leaves_the_finalization_before_the_key() {
    let mut finalization = OutBuffer::new(true);
    let mut key = OutBuffer::new(true);
    let finish = LoginFinish { finalization: vec![5; 64], session_key: vec![6; 32] };
    assert_eq!(deliver_login_finish(finish, &mut finalization, &mut key), Ok(()));
    assert_eq!(finalization.take(), Some(vec![5; 64]));
    assert_eq!(key.take(), Some(vec![6; 32]));

    let mut finalization = OutBuffer::new(true);
    let mut key = OutBuffer::new(false);
    let finish = LoginFinish { finalization: vec![5; 64], session_key: vec![6; 32] };
    assert_eq!(
        deliver_login_finish(finish, &mut finalization, &mut key),
        Err(OpaqueError::InputEmpty(Field::Output))
    );
    assert_eq!(finalization.take(), Some(vec![5; 64]));
    assert_eq!(key.take(), None);
}

#[test]
fn session_key_is_the_head_of_the_exchanged_key() {
    let exchanged: Vec<u8> = (0u8..64).collect();
    let expected: Vec<u8> = (0u8..32).collect();
    assert_eq!(session_key(&exchanged), expected);
    assert_eq!(session_key(&exchanged[..32]), expected);
    assert_eq!(session_key(&exchanged[..10]), exchanged[..10].to_vec());
    assert_eq!(session_key(&[]), Vec::<u8>::new());
}

#[test]
fn presence_and_decoding_checks_name_the_field() {
    assert_eq!(require_present(b"", Field::Upload), Err(OpaqueError::InputEmpty(Field::Upload)));
    assert_eq!(require_present(b"x", Field::Upload), Ok(()));
    assert_eq!(
        require_decoded(false, Field::Request),
        Err(OpaqueError::FormatInvalid(Field::Request))
    );
    assert_eq!(require_decoded(true, Field::Request), Ok(()));
}

#[test]
fn step_outcomes_become_results() {
    assert_eq!(step_message(Some(vec![1, 2]), Step::ServerRegisterStart), Ok(vec![1, 2]));
    assert_eq!(
        step_message(None, Step::ServerRegisterStart),
        Err(OpaqueError::ProtocolStepFailed(Step::ServerRegisterStart))
    );

    let done = step_exchange(
        Some(Started { message: vec![1], state: Some(vec![2]) }),
        Step::ClientLoginStart,
    )
    .ok()
    .unwrap();
    assert_eq!(done.message, vec![1]);
    assert_eq!(done.state, vec![2]);
    assert_eq!(
        step_exchange(Some(Started { message: vec![1], state: None }), Step::ClientLoginStart)
            .err(),
        Some(OpaqueError::InternalFault(Fault::StateSerialize))
    );
    assert_eq!(
        step_exchange(None, Step::ClientLoginStart).err(),
        Some(OpaqueError::ProtocolStepFailed(Step::ClientLoginStart))
    );
}

#[test]
fn login_outcomes_become_results() {
    let exchanged: Vec<u8> = (100u8..164).collect();
    let finished = ClientFinished { message: vec![9; 64], key: exchanged.clone() };
    let done = client_login_finished(Some(finished)).ok().unwrap();
    assert_eq!(done.finalization, vec![9; 64]);
    assert_eq!(done.session_key, exchanged[..32].to_vec());
    assert_eq!(
        client_login_finished(None).err(),
        Some(OpaqueError::ProtocolStepFailed(Step::ClientLoginFinish))
    );
    assert_eq!(server_login_finished(Some(exchanged.clone())), Ok(exchanged[..32].to_vec()));
    assert_eq!(
        server_login_finished(None),
        Err(OpaqueError::ProtocolStepFailed(Step::ServerLoginFinish))
    );
}
