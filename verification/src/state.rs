//! The states that a run holds between two of its steps. A start step makes one,
//! the matching finish step uses it up; in between it may leave the process as
//! bytes and come back from bytes.

use vstd::prelude::*;

verus! {

/// As many zero bytes as `len` says.
pub open spec fn zeros(len: nat) -> Seq<u8> {
    Seq::new(len, |i: int| 0u8)
}

/// Overwrites every byte with zero. The writes are plain stores: they hold for
/// anyone who reads the buffer afterwards, and a compiler is free to drop them
/// where nobody does. The protocol's own copy of a state, which a finish step
/// reads these bytes into, is zeroed by the protocol crate when it is dropped.
fn wipe_bytes(bytes: &mut Vec<u8>)
    ensures
        final(bytes)@ == zeros(old(bytes)@.len()),
{
    let mut i: usize = 0;
    while i < bytes.len()
        invariant
            i <= bytes@.len(),
            bytes@.len() == old(bytes)@.len(),
            forall|j: int| 0 <= j < i ==> bytes@[j] == 0,
        decreases bytes@.len() - i,
    {
        bytes.set(i, 0u8);
        i += 1;
    }
    assert(bytes@ =~= zeros(old(bytes)@.len()));
}

/// What the client holds between the two client steps of a registration.
pub struct ClientRegistrationState {
    inner: Vec<u8>,
}

/// What the client holds between the two client steps of a login.
pub struct ClientLoginState {
    inner: Vec<u8>,
}

/// What the server holds between the two server steps of a login.
pub struct ServerLoginState {
    inner: Vec<u8>,
}

impl View for ClientRegistrationState {
    type V = Seq<u8>;

    closed spec fn view(&self) -> Seq<u8> {
        self.inner@
    }
}

impl View for ClientLoginState {
    type V = Seq<u8>;

    closed spec fn view(&self) -> Seq<u8> {
        self.inner@
    }
}

impl View for ServerLoginState {
    type V = Seq<u8>;

    closed spec fn view(&self) -> Seq<u8> {
        self.inner@
    }
}

impl ClientRegistrationState {
    /// The state that `bytes` were written from. Whether they hold one shows when
    /// the state is used.
    pub fn from_bytes(bytes: Vec<u8>) -> (state: Self)
        ensures
            state@ == bytes@,
    {
        ClientRegistrationState { inner: bytes }
    }

    pub fn as_bytes(&self) -> (bytes: &[u8])
        ensures
            bytes@ == self@,
    {
        self.inner.as_slice()
    }

    /// The bytes to store or send; the state is given up for them.
    pub fn into_bytes(self) -> (bytes: Vec<u8>)
        ensures
            bytes@ == self@,
    {
        self.inner
    }

    /// Overwrites the state with zeros: what it held is gone from this value.
    pub fn wipe(&mut self)
        ensures
            final(self)@ == zeros(old(self)@.len()),
    {
        wipe_bytes(&mut self.inner);
    }
}

impl ClientLoginState {
    /// The state that `bytes` were written from. Whether they hold one shows when
    /// the state is used.
    pub fn from_bytes(bytes: Vec<u8>) -> (state: Self)
        ensures
            state@ == bytes@,
    {
        ClientLoginState { inner: bytes }
    }

    pub fn as_bytes(&self) -> (bytes: &[u8])
        ensures
            bytes@ == self@,
    {
        self.inner.as_slice()
    }

    /// The bytes to store or send; the state is given up for them.
    pub fn into_bytes(self) -> (bytes: Vec<u8>)
        ensures
            bytes@ == self@,
    {
        self.inner
    }

    /// Overwrites the state with zeros: what it held is gone from this value.
    pub fn wipe(&mut self)
        ensures
            final(self)@ == zeros(old(self)@.len()),
    {
        wipe_bytes(&mut self.inner);
    }
}

impl ServerLoginState {
    /// The state that `bytes` were written from. Whether they hold one shows when
    /// the state is used.
    pub fn from_bytes(bytes: Vec<u8>) -> (state: Self)
        ensures
            state@ == bytes@,
    {
        ServerLoginState { inner: bytes }
    }

    pub fn as_bytes(&self) -> (bytes: &[u8])
        ensures
            bytes@ == self@,
    {
        self.inner.as_slice()
    }

    /// The bytes to store or send; the state is given up for them.
    pub fn into_bytes(self) -> (bytes: Vec<u8>)
        ensures
            bytes@ == self@,
    {
        self.inner
    }

    /// Overwrites the state with zeros: what it held is gone from this value.
    pub fn wipe(&mut self)
        ensures
            final(self)@ == zeros(old(self)@.len()),
    {
        wipe_bytes(&mut self.inner);
    }
}

/// What the client's first registration step gives.
pub struct RegistrationStart {
    /// The request for the server.
    pub request: Vec<u8>,
    /// The state for the client's last step.
    pub state: ClientRegistrationState,
}

/// What the client's first login step gives.
pub struct LoginStart {
    /// The request for the server.
    pub request: Vec<u8>,
    /// The state for the client's last step.
    pub state: ClientLoginState,
}

/// What the server's first login step gives.
pub struct LoginResponse {
    /// The response for the client.
    pub response: Vec<u8>,
    /// The state for the server's last step.
    pub state: ServerLoginState,
}

/// What the client's last login step gives.
pub struct LoginFinish {
    /// The finalization for the server.
    pub finalization: Vec<u8>,
    /// The client's session key.
    pub session_key: Vec<u8>,
}

} // verus!
