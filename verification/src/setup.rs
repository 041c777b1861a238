//! The setup authority: the server's long-term key material.

use vstd::prelude::*;
use crate::checks::{require_decoded, require_present};
use crate::errors::{Field, OpaqueError};
use crate::primitives::{decodes_setup, new_setup, setup_decodes};
use crate::suite::SERVER_SETUP_LEN;

verus! {

/// Why `setup` is refused as a server setup; `None` where it is accepted.
pub open spec fn setup_refusal(setup: Seq<u8>) -> Option<OpaqueError> {
    if setup.len() == 0 {
        Some(OpaqueError::InputEmpty(Field::Setup))
    } else if !setup_decodes(setup) {
        Some(OpaqueError::FormatInvalid(Field::Setup))
    } else {
        None
    }
}

/// Fresh long-term key material for a server, serialized. Every user has to
/// register again once a server takes a new setup.
pub fn mi_opaque_server_setup_generate() -> (setup: Vec<u8>)
    ensures
        setup@.len() == SERVER_SETUP_LEN,
        setup_refusal(setup@).is_none(),
{
    new_setup()
}

/// Checks that `setup` holds a server setup.
pub fn mi_opaque_server_setup_validate(setup: &[u8]) -> (checked: Result<(), OpaqueError>)
    ensures
        match setup_refusal(setup@) {
            Some(error) => checked == Err::<(), OpaqueError>(error),
            None => checked.is_ok(),
        },
{
    require_present(setup, Field::Setup)?;
    require_decoded(decodes_setup(setup), Field::Setup)
}

} // verus!
