use vstd::prelude::*;

use crate::types::{Ciphertext, Pubkey};

verus! {

/// Opaque reference to an encrypted 128-bit integer held by the
/// encrypted-arithmetic service.
#[derive(Clone, Copy, PartialEq, Eq, Structural, Debug)]
pub struct Handle {
    pub idx: usize,
}

/// Opaque reference to an encrypted boolean held by the service.
#[derive(Clone, Copy, PartialEq, Eq, Structural, Debug)]
pub struct BoolHandle {
    pub idx: usize,
}

/// Rejection of a caller-supplied ciphertext by the service.
#[derive(Clone, Copy, PartialEq, Eq, Structural, Debug)]
pub enum CipherError {
    MalformedCiphertext,
}

/// 128-bit modular sum: the service's addition on encrypted values.
pub open spec fn wrap_add(a: u128, b: u128) -> u128 {
    if a + b > u128::MAX {
        (a + b - 0x1_0000_0000_0000_0000_0000_0000_0000_0000) as u128
    } else {
        (a + b) as u128
    }
}

/// 128-bit modular difference: the service's subtraction.
pub open spec fn wrap_sub(a: u128, b: u128) -> u128 {
    if a - b < 0 {
        (a - b + 0x1_0000_0000_0000_0000_0000_0000_0000_0000) as u128
    } else {
        (a - b) as u128
    }
}

/// The encrypted-arithmetic service, held at its interface: callers pass
/// handles in and get a fresh handle out, and no caller ever branches on a
/// plaintext. The model keeps the plaintext behind each handle so that each
/// operation's contract can say what it computes, and so that a test harness
/// can decrypt outcomes; `values` and `bools` only ever grow, so the value
/// behind a handle never changes once the handle is issued.
pub struct CipherEngine {
    pub values: Vec<u128>,
    pub bools: Vec<bool>,
    pub grants: Vec<(Handle, Pubkey)>,
}

impl CipherEngine {
    /// `h` refers to an encrypted integer this service holds.
    pub open spec fn holds(self, h: Handle) -> bool {
        h.idx < self.values@.len()
    }

    /// `b` refers to an encrypted boolean this service holds.
    pub open spec fn holds_bool(self, b: BoolHandle) -> bool {
        b.idx < self.bools@.len()
    }

    /// The plaintext behind `h` — spec-level only; the system never reads it.
    pub open spec fn value_of(self, h: Handle) -> u128 {
        self.values@[h.idx as int]
    }

    /// The plaintext behind `b` — spec-level only.
    pub open spec fn bool_value_of(self, b: BoolHandle) -> bool {
        self.bools@[b.idx as int]
    }

    /// `who` has been granted decryption access to `h`.
    pub open spec fn granted(self, h: Handle, who: Pubkey) -> bool {
        exists|i: int| 0 <= i < self.grants@.len() && self.grants@[i] == (h, who)
    }

    /// `self` still holds every handle, boolean and grant of `pre`,
    /// unchanged. Every operation of the service extends its prior state.
    pub open spec fn extends(self, pre: Self) -> bool {
        &&& pre.values@.len() <= self.values@.len()
        &&& (forall|i: int| 0 <= i < pre.values@.len() ==> self.values@[i] == pre.values@[i])
        &&& pre.bools@.len() <= self.bools@.len()
        &&& (forall|i: int| 0 <= i < pre.bools@.len() ==> self.bools@[i] == pre.bools@[i])
        &&& pre.grants@.len() <= self.grants@.len()
        &&& (forall|i: int| 0 <= i < pre.grants@.len() ==> self.grants@[i] == pre.grants@[i])
    }

    pub fn new() -> (r: CipherEngine)
        ensures
            r.values@.len() == 0,
            r.bools@.len() == 0,
            r.grants@.len() == 0,
    {
        CipherEngine { values: Vec::new(), bools: Vec::new(), grants: Vec::new() }
    }

    /// Encrypt a plaintext the program itself supplies (a trivial encryption
    /// of a public constant, such as zero).
    pub fn as_handle(&mut self, v: u128) -> (h: Handle)
        ensures
            final(self).values@ == old(self).values@.push(v),
            final(self).bools@ == old(self).bools@,
            final(self).grants@ == old(self).grants@,
            h.idx == old(self).values@.len(),
            final(self).holds(h),
            final(self).value_of(h) == v,
            final(self).extends(*old(self)),
    {
        let h = Handle { idx: self.values.len() };
        self.values.push(v);
        h
    }

    /// Ingest a caller-supplied ciphertext into a fresh handle. The service
    /// rejects empty or oversize ciphertext and changes nothing then.
    #[allow(unused_variables)]
    pub fn new_handle(&mut self, ciphertext: &Ciphertext, input_type: u8) -> (r: Result<
        Handle,
        CipherError,
    >)
        ensures
            r.is_ok() == ciphertext.spec_valid(),
            r matches Ok(h) ==> {
                &&& final(self).values@ == old(self).values@.push(ciphertext.value)
                &&& final(self).bools@ == old(self).bools@
                &&& final(self).grants@ == old(self).grants@
                &&& h.idx == old(self).values@.len()
                &&& final(self).holds(h)
                &&& final(self).value_of(h) == ciphertext.value
                &&& final(self).extends(*old(self))
            },
            r is Err ==> *final(self) == *old(self) && r == Err::<Handle, CipherError>(
                CipherError::MalformedCiphertext,
            ),
    {
        if !ciphertext.is_valid() {
            return Err(CipherError::MalformedCiphertext);
        }
        let h = Handle { idx: self.values.len() };
        self.values.push(ciphertext.value);
        Ok(h)
    }

    /// Encrypted addition, modulo 2^128. `flag` is a reserved extension
    /// byte; 0 selects the default operation.
    #[allow(unused_variables)]
    pub fn e_add(&mut self, a: Handle, b: Handle, flag: u8) -> (h: Handle)
        requires
            old(self).holds(a),
            old(self).holds(b),
        ensures
            final(self).values@ == old(self).values@.push(
                wrap_add(old(self).value_of(a), old(self).value_of(b)),
            ),
            final(self).bools@ == old(self).bools@,
            final(self).grants@ == old(self).grants@,
            h.idx == old(self).values@.len(),
            final(self).holds(h),
            final(self).value_of(h) == wrap_add(old(self).value_of(a), old(self).value_of(b)),
            final(self).extends(*old(self)),
    {
        let av = self.values[a.idx];
        let bv = self.values[b.idx];
        let h = Handle { idx: self.values.len() };
        self.values.push(av.wrapping_add(bv));
        h
    }

    /// Encrypted subtraction, modulo 2^128.
    #[allow(unused_variables)]
    pub fn e_sub(&mut self, a: Handle, b: Handle, flag: u8) -> (h: Handle)
        requires
            old(self).holds(a),
            old(self).holds(b),
        ensures
            final(self).values@ == old(self).values@.push(
                wrap_sub(old(self).value_of(a), old(self).value_of(b)),
            ),
            final(self).bools@ == old(self).bools@,
            final(self).grants@ == old(self).grants@,
            h.idx == old(self).values@.len(),
            final(self).holds(h),
            final(self).value_of(h) == wrap_sub(old(self).value_of(a), old(self).value_of(b)),
            final(self).extends(*old(self)),
    {
        let av = self.values[a.idx];
        let bv = self.values[b.idx];
        let h = Handle { idx: self.values.len() };
        self.values.push(av.wrapping_sub(bv));
        h
    }

    /// Encrypted comparison `a >= b`, yielding an encrypted boolean.
    #[allow(unused_variables)]
    pub fn e_ge(&mut self, a: Handle, b: Handle, flag: u8) -> (c: BoolHandle)
        requires
            old(self).holds(a),
            old(self).holds(b),
        ensures
            final(self).bools@ == old(self).bools@.push(
                old(self).value_of(a) >= old(self).value_of(b),
            ),
            final(self).values@ == old(self).values@,
            final(self).grants@ == old(self).grants@,
            c.idx == old(self).bools@.len(),
            final(self).holds_bool(c),
            final(self).bool_value_of(c) == (old(self).value_of(a) >= old(self).value_of(b)),
            final(self).extends(*old(self)),
    {
        let av = self.values[a.idx];
        let bv = self.values[b.idx];
        let c = BoolHandle { idx: self.bools.len() };
        self.bools.push(av >= bv);
        c
    }

    /// Encrypted equality test, yielding an encrypted boolean.
    #[allow(unused_variables)]
    pub fn e_eq(&mut self, a: Handle, b: Handle, flag: u8) -> (c: BoolHandle)
        requires
            old(self).holds(a),
            old(self).holds(b),
        ensures
            final(self).bools@ == old(self).bools@.push(
                old(self).value_of(a) == old(self).value_of(b),
            ),
            final(self).values@ == old(self).values@,
            final(self).grants@ == old(self).grants@,
            c.idx == old(self).bools@.len(),
            final(self).holds_bool(c),
            final(self).bool_value_of(c) == (old(self).value_of(a) == old(self).value_of(b)),
            final(self).extends(*old(self)),
    {
        let av = self.values[a.idx];
        let bv = self.values[b.idx];
        let c = BoolHandle { idx: self.bools.len() };
        self.bools.push(av == bv);
        c
    }

    /// Encrypted selection: the value behind `x` if `cond` holds, else the
    /// value behind `y` — without revealing which branch was taken.
    #[allow(unused_variables)]
    pub fn e_select(&mut self, cond: BoolHandle, x: Handle, y: Handle, flag: u8) -> (h: Handle)
        requires
            old(self).holds_bool(cond),
            old(self).holds(x),
            old(self).holds(y),
        ensures
            final(self).values@ == old(self).values@.push(
                if old(self).bool_value_of(cond) {
                    old(self).value_of(x)
                } else {
                    old(self).value_of(y)
                },
            ),
            final(self).bools@ == old(self).bools@,
            final(self).grants@ == old(self).grants@,
            h.idx == old(self).values@.len(),
            final(self).holds(h),
            final(self).value_of(h) == if old(self).bool_value_of(cond) {
                old(self).value_of(x)
            } else {
                old(self).value_of(y)
            },
            final(self).extends(*old(self)),
    {
        let cv = self.bools[cond.idx];
        let xv = self.values[x.idx];
        let yv = self.values[y.idx];
        let h = Handle { idx: self.values.len() };
        self.values.push(if cv { xv } else { yv });
        h
    }

    /// Grant `who` decryption access to the value behind `h`.
    pub fn grant_decrypt(&mut self, h: Handle, who: Pubkey)
        requires
            old(self).holds(h),
        ensures
            final(self).grants@ == old(self).grants@.push((h, who)),
            final(self).values@ == old(self).values@,
            final(self).bools@ == old(self).bools@,
            final(self).granted(h, who),
            final(self).extends(*old(self)),
    {
        self.grants.push((h, who));
        proof {
            assert(self.grants@[self.grants@.len() - 1] == (h, who));
        }
    }

    /// Whether `who` holds a decryption grant for `h`.
    pub fn is_granted(&self, h: Handle, who: Pubkey) -> (r: bool)
        ensures
            r == self.granted(h, who),
    {
        let mut i: usize = 0;
        while i < self.grants.len()
            invariant
                i <= self.grants@.len(),
                forall|j: int| 0 <= j < i ==> self.grants@[j] != (h, who),
            decreases self.grants@.len() - i,
        {
            let (gh, gw) = self.grants[i];
            if gh == h && gw == who {
                proof {
                    assert(self.grants@[i as int] == (h, who));
                }
                return true;
            }
            i = i + 1;
        }
        false
    }

    /// The decryption the test harness (an allowed party off the system)
    /// performs; no function of this crate calls it.
    pub fn decrypt(&self, h: Handle) -> (v: u128)
        requires
            self.holds(h),
        ensures
            v == self.value_of(h),
    {
        self.values[h.idx]
    }

    /// The succinct-proof verifier, consumed as an opaque yes/no oracle: it
    /// publicly confirms or refutes the claim that the encrypted boolean
    /// behind `claim` is true, revealing nothing else.
    pub fn attest(&self, claim: BoolHandle) -> (r: bool)
        requires
            self.holds_bool(claim),
        ensures
            r == self.bool_value_of(claim),
    {
        self.bools[claim.idx]
    }
}

} // verus!
