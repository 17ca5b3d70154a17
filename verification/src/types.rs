use vstd::prelude::*;

verus! {

/// Identity of a participant or of a stored record on the host ledger.
///
/// The logic only ever compares identities for equality; the value itself is
/// opaque, so it is carried as a plain 128-bit tag.
#[derive(Clone, Copy, PartialEq, Eq, Structural, Debug, Hash)]
pub struct Pubkey {
    pub id: u128,
}

/// Fixed cap on the wire length of any ciphertext argument. Oversize or
/// empty ciphertext is a caller error, rejected before any state changes.
pub const MAX_ESCROW_CIPHERTEXT_LEN: usize = 512;

/// A sealed amount as submitted by a caller: the wire bytes, plus the
/// 128-bit value the encrypted-arithmetic service recovers from them when it
/// ingests the ciphertext. No function of this crate reads `value` directly;
/// only the service model (`cipher::CipherEngine::new_handle`) does, and the
/// decrypting test harness.
#[derive(Debug)]
pub struct Ciphertext {
    pub bytes: Vec<u8>,
    pub value: u128,
}

impl Ciphertext {
    /// Non-empty and within the service's fixed cap.
    pub open spec fn spec_valid(self) -> bool {
        1 <= self.bytes@.len() && self.bytes@.len() <= MAX_ESCROW_CIPHERTEXT_LEN
    }

    pub fn is_valid(&self) -> (r: bool)
        ensures
            r == self.spec_valid(),
    {
        1 <= self.bytes.len() && self.bytes.len() <= MAX_ESCROW_CIPHERTEXT_LEN
    }
}

} // verus!
