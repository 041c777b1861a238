use opaque_pake::{Fault, Field, OpaqueError, Status, Step};

#[test]
fn status_numbers_are_zero_two_and_three() {
    assert_eq!(Status::Success.code(), 0);
    assert_eq!(Status::ProtocolError.code(), 2);
    assert_eq!(Status::InternalFault.code(), 3);
}

#[test]
fn empty_inputs_have_their_messages() {
    let cases = [
        (Field::Setup, "setup empty"),
        (Field::UserId, "user id empty"),
        (Field::Password, "password empty"),
        (Field::Request, "request empty"),
        (Field::State, "state empty"),
        (Field::Response, "response empty"),
        (Field::Upload, "upload empty"),
        (Field::PasswordFile, "password file empty"),
        (Field::Finalization, "finalization empty"),
        (Field::Output, "bad output"),
    ];
    for (field, text) in cases {
        let error = OpaqueError::InputEmpty(field);
        assert_eq!(error.message(), text);
        assert_eq!(error.status(), Status::ProtocolError);
    }
}

#[test]
fn malformed_inputs_have_their_messages() {
    let cases = [
        (Field::Setup, "setup invalid"),
        (Field::UserId, "user id invalid"),
        (Field::Password, "password invalid"),
        (Field::Request, "request invalid"),
        (Field::State, "state invalid"),
        (Field::Response, "response invalid"),
        (Field::Upload, "upload invalid"),
        (Field::PasswordFile, "password file invalid"),
        (Field::Finalization, "finalization invalid"),
        (Field::Output, "output invalid"),
    ];
    for (field, text) in cases {
        let error = OpaqueError::FormatInvalid(field);
        assert_eq!(error.message(), text);
        assert_eq!(error.status(), Status::ProtocolError);
    }
}

#[test]
fn failed_steps_have_their_messages() {
    let cases = [
        (Step::ClientRegisterStart, "client register start failed"),
        (Step::ServerRegisterStart, "server register start failed"),
        (Step::ClientRegisterFinish, "client register finish failed"),
        (Step::ClientLoginStart, "client login start failed"),
        (Step::ServerLoginStart, "server login start failed"),
        (Step::ClientLoginFinish, "client login finish failed"),
        (Step::ServerLoginFinish, "server login finish failed"),
    ];
    for (step, text) in cases {
        let error = OpaqueError::ProtocolStepFailed(step);
        assert_eq!(error.message(), text);
        assert_eq!(error.status(), Status::ProtocolError);
        assert_eq!(step.name().len() + " failed".len(), text.len());
    }
}

#[test]
fn internal_faults_have_their_messages() {
    let serialize = OpaqueError::InternalFault(Fault::StateSerialize);
    assert_eq!(serialize.message(), "state serialize failed");
    assert_eq!(serialize.status(), Status::InternalFault);
    assert_eq!(serialize.status().code(), 3);
    let panic = OpaqueError::InternalFault(Fault::Panic);
    assert_eq!(panic.message(), "panic");
    assert_eq!(panic.status(), Status::InternalFault);
}

#[test]
fn field_names_are_those_of_the_messages() {
    assert_eq!(Field::PasswordFile.name(), "password file");
    assert_eq!(Field::UserId.name(), "user id");
    assert_eq!(Field::Output.name(), "output");
}
