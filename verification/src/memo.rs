use vstd::prelude::*;

use crate::cipher::{CipherEngine, CipherError, Handle};
use crate::types::Ciphertext;

verus! {

/// Validates an encrypted memo by ingesting it: the service accepts exactly
/// the well-formed ciphertexts, and the memo's sealed value ends up behind
/// the returned handle for an allowed party to decrypt off-system.
pub fn build_memo(eng: &mut CipherEngine, encrypted_memo: &Ciphertext, input_type: u8) -> (r:
    Result<Handle, CipherError>)
    ensures
        r.is_ok() == encrypted_memo.spec_valid(),
        final(eng).extends(*old(eng)),
        r matches Ok(h) ==> final(eng).holds(h) && final(eng).value_of(h) == encrypted_memo.value,
        r is Err ==> *final(eng) == *old(eng),
{
    eng.new_handle(encrypted_memo, input_type)
}

} // verus!
