//! Password-authenticated key exchange engine: server setup, registration and login.

pub mod boundary;
pub mod checks;
pub mod client;
pub mod errors;
pub mod laws;
pub mod login;
pub mod primitives;
pub mod registration;
pub mod setup;
pub mod state;
pub mod suite;

pub use boundary::{
    alloc_out, catch_and_report, deliver, deliver_exchange, deliver_login_finish, ok_clear_error,
    set_error, OutBuffer,
};
pub use errors::{Fault, Field, OpaqueError, Status, Step};
pub use login::{
    mi_opaque_client_login_finish, mi_opaque_client_login_start, mi_opaque_server_login_finish,
    mi_opaque_server_login_start,
};
pub use registration::{
    mi_opaque_client_register_finish, mi_opaque_client_register_start,
    mi_opaque_create_user_password_file, mi_opaque_server_register_finish,
    mi_opaque_server_register_response,
};
pub use state::{
    ClientLoginState, ClientRegistrationState, LoginFinish, LoginResponse, LoginStart,
    RegistrationStart, ServerLoginState,
};
pub use setup::{mi_opaque_server_setup_generate, mi_opaque_server_setup_validate};
