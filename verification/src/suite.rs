//! The primitives that every run of the protocol uses, and the values bound into
//! every transcript.

use vstd::prelude::*;
use vstd::slice::slice_to_vec;
use core::marker::PhantomData;
use core::ops::Add;
use opaque_ke::key_exchange::group::Group;
use opaque_ke::key_exchange::KeyExchange;
use sha2::digest::generic_array::ArrayLength;
use sha2::digest::typenum::{Sum, U96};

verus! {

/// The group `opaque_ke::Ristretto255`, named in the cipher suite. Nothing is
/// claimed of it.
#[verifier::external_type_specification]
#[verifier::external_body]
pub struct ExRistretto255(opaque_ke::Ristretto255);

/// The key stretching function `argon2::Argon2`, named in the cipher suite. Nothing
/// is claimed of it.
#[verifier::external_type_specification]
#[verifier::external_body]
pub struct ExArgon2<'key>(argon2::Argon2<'key>);

/// `typenum::UTerm`, the end of a type-level number. Nothing is claimed of it.
#[verifier::external_type_specification]
#[verifier::external_body]
pub struct ExUTerm(sha2::digest::typenum::UTerm);

/// `typenum::B0`, a type-level zero bit. Nothing is claimed of it.
#[verifier::external_type_specification]
#[verifier::external_body]
pub struct ExB0(sha2::digest::typenum::B0);

/// `typenum::B1`, a type-level one bit. Nothing is claimed of it.
#[verifier::external_type_specification]
#[verifier::external_body]
pub struct ExB1(sha2::digest::typenum::B1);

/// `typenum::UInt`, a type-level number with one more bit. Nothing is claimed of it.
#[verifier::external_type_specification]
#[verifier::external_body]
#[verifier::reject_recursive_types(U)]
#[verifier::reject_recursive_types(B)]
pub struct ExUInt<U, B>(sha2::digest::typenum::UInt<U, B>);

/// The primitives of a run, over the key exchange `K`: Ristretto255 for the
/// oblivious pseudorandom function and Argon2 for stretching the password.
pub struct MiOpaqueCipherSuite<K>(PhantomData<K>);

impl<K> opaque_ke::CipherSuite for MiOpaqueCipherSuite<K> where
    K: KeyExchange,
    U96: Add<<K::Group as Group>::PkLen>,
    Sum<U96, <K::Group as Group>::PkLen>: ArrayLength<u8>,
 {
    type OprfCs = opaque_ke::Ristretto255;

    type KeyExchange = K;

    type Ksf = argon2::Argon2<'static>;
}

/// The suite of this engine: triple Diffie-Hellman over Ristretto255, its
/// transcript hashed with SHA-512.
pub type Suite = MiOpaqueCipherSuite<opaque_ke::TripleDh<opaque_ke::Ristretto255, sha2::Sha512>>;

/// The context string `mi_e2ee_opaque_v1`, bound into the transcript of every login.
pub const MI_OPAQUE_CONTEXT: [u8; 17] = [
    0x6d, 0x69, 0x5f, 0x65, 0x32, 0x65, 0x65, 0x5f, 0x6f, 0x70, 0x61, 0x71, 0x75, 0x65, 0x5f,
    0x76, 0x31,
];

/// The server identifier `mi_e2ee_server_v1`, bound into every envelope and
/// transcript.
pub const MI_OPAQUE_SERVER_ID: [u8; 17] = [
    0x6d, 0x69, 0x5f, 0x65, 0x32, 0x65, 0x65, 0x5f, 0x73, 0x65, 0x72, 0x76, 0x65, 0x72, 0x5f,
    0x76, 0x31,
];

/// Bytes of a serialized server setup.
pub const SERVER_SETUP_LEN: usize = 128;

/// Bytes of a registration request.
pub const REGISTRATION_REQUEST_LEN: usize = 32;

/// Bytes of a registration response.
pub const REGISTRATION_RESPONSE_LEN: usize = 64;

/// Bytes of a registration upload.
pub const REGISTRATION_UPLOAD_LEN: usize = 192;

/// Bytes of a credential record.
pub const PASSWORD_FILE_LEN: usize = 192;

/// Bytes of a credential request.
pub const CREDENTIAL_REQUEST_LEN: usize = 96;

/// Bytes of a credential response.
pub const CREDENTIAL_RESPONSE_LEN: usize = 320;

/// Bytes of a credential finalization.
pub const CREDENTIAL_FINALIZATION_LEN: usize = 64;

/// Bytes of the key that the key exchange hands to each side.
pub const EXCHANGED_KEY_LEN: usize = 64;

/// Bytes of a session key.
pub const SESSION_KEY_LEN: usize = 32;

/// Bytes of the client's state between the two client steps of a registration.
pub const CLIENT_REGISTRATION_STATE_LEN: usize = 64;

/// Bytes of the client's state between the two client steps of a login.
pub const CLIENT_LOGIN_STATE_LEN: usize = 192;

/// Bytes of the server's state between the two server steps of a login.
pub const SERVER_LOGIN_STATE_LEN: usize = 128;

/// What a run is bound to: the context of this engine, the identifier under
/// which the server keeps the user's key, and the names of client and server
/// that go into envelope and transcript.
pub struct Binding {
    context: Vec<u8>,
    credential_id: Vec<u8>,
    client_id: Vec<u8>,
    server_id: Vec<u8>,
}

/// A binding as plain values.
pub struct BindingView {
    pub context: Seq<u8>,
    pub credential_id: Seq<u8>,
    pub client_id: Seq<u8>,
    pub server_id: Seq<u8>,
}

/// The binding of every run for the user `user_id`: the user identifier is both
/// the credential identifier and the client's name; context and server name are
/// this engine's own.
pub open spec fn binding_of(user_id: Seq<u8>) -> BindingView {
    BindingView {
        context: MI_OPAQUE_CONTEXT@,
        credential_id: user_id,
        client_id: user_id,
        server_id: MI_OPAQUE_SERVER_ID@,
    }
}

impl View for Binding {
    type V = BindingView;

    closed spec fn view(&self) -> BindingView {
        BindingView {
            context: self.context@,
            credential_id: self.credential_id@,
            client_id: self.client_id@,
            server_id: self.server_id@,
        }
    }
}

impl Binding {
    /// The binding of a run for the user `user_id`.
    pub fn for_user(user_id: &[u8]) -> (binding: Binding)
        ensures
            binding@ == binding_of(user_id@),
    {
        let context = MI_OPAQUE_CONTEXT;
        let server_id = MI_OPAQUE_SERVER_ID;
        Binding {
            context: slice_to_vec(context.as_slice()),
            credential_id: slice_to_vec(user_id),
            client_id: slice_to_vec(user_id),
            server_id: slice_to_vec(server_id.as_slice()),
        }
    }

    pub fn context(&self) -> (bytes: &[u8])
        ensures
            bytes@ == self@.context,
    {
        self.context.as_slice()
    }

    pub fn credential_id(&self) -> (bytes: &[u8])
        ensures
            bytes@ == self@.credential_id,
    {
        self.credential_id.as_slice()
    }

    pub fn client_id(&self) -> (bytes: &[u8])
        ensures
            bytes@ == self@.client_id,
    {
        self.client_id.as_slice()
    }

    pub fn server_id(&self) -> (bytes: &[u8])
        ensures
            bytes@ == self@.server_id,
    {
        self.server_id.as_slice()
    }
}

} // verus!
