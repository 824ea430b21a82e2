//! The length check that key material passes before the cipher sees it.
use crate::error::Error;
use crate::params::{Params, Slot};
use vstd::prelude::*;

verus! {

/// The first fault in the lengths of a key and an IV, the key's before the
/// IV's, or `None` where both have the length that `params` asks for.
pub open spec fn length_fault(key: Seq<u8>, iv: Seq<u8>, params: Params) -> Option<Error> {
    if key.len() != params.spec_key_len() {
        Some(Error::InvalidLength { slot: Slot::Key, expected: params.spec_key_len() })
    } else if iv.len() != params.spec_block_len() {
        Some(Error::InvalidLength { slot: Slot::Iv, expected: params.spec_block_len() })
    } else {
        None
    }
}

/// Accepts a key and an IV of exactly the lengths that `params` asks for, and
/// rejects any other pair with the slot at fault and the length it should have.
pub fn check_lengths(key: &[u8], iv: &[u8], params: &Params) -> (r: Result<(), Error>)
    ensures
        r == match length_fault(key@, iv@, *params) {
            Some(e) => Err::<(), Error>(e),
            None => Ok(()),
        },
{
    if key.len() != params.key_len() {
        Err(Error::InvalidLength { slot: Slot::Key, expected: params.key_len() })
    } else if iv.len() != params.block_len() {
        Err(Error::InvalidLength { slot: Slot::Iv, expected: params.block_len() })
    } else {
        Ok(())
    }
}

} // verus!
