use vstd::prelude::*;

use crate::cipher::{wrap_add, wrap_sub, CipherEngine};
use crate::errors::{CustomError, WrapError};
use crate::token::{clamped, with_amount, with_supply, IncoAccount, IncoMint};
use crate::types::{Ciphertext, Pubkey};
use crate::wrap::{wrap_token, wrap_token_check, TokenAccount, Vault};

verus! {

/// A 32-byte hiding digest — a commitment of (amount, recipient, blinding)
/// or a note's nullifier — carried as two 128-bit halves.
#[derive(Clone, Copy, PartialEq, Eq, Structural, Debug)]
pub struct Digest {
    pub hi: u128,
    pub lo: u128,
}

/// The namespace tag an address is derived under.
#[derive(Clone, Copy, PartialEq, Eq, Structural, Debug)]
pub enum AddressTag {
    Nullifier,
    Commitment,
}

/// An address in the accumulator's address space. The accumulator derives
/// addresses content-addressed from a (tag, digest) pair; the derivation is
/// injective, so the model carries the pair itself as the address.
#[derive(Clone, Copy, PartialEq, Eq, Structural, Debug)]
pub struct PoolAddress {
    pub tag: AddressTag,
    pub digest: Digest,
}

/// The append-only Merkle accumulator, held at its interface: inserting an
/// address that already exists fails the whole call atomically, and that
/// address-uniqueness is the pool's entire double-spend guard. The Merkle
/// proofs by which the deployed accumulator enforces this are its own
/// mechanics and stay outside the model.
pub struct Accumulator {
    pub entries: Vec<PoolAddress>,
}

impl Accumulator {
    /// `a` has been inserted.
    pub open spec fn spec_contains(self, a: PoolAddress) -> bool {
        exists|i: int| 0 <= i < self.entries@.len() && self.entries@[i] == a
    }

    pub fn new() -> (r: Accumulator)
        ensures
            r.entries@.len() == 0,
    {
        Accumulator { entries: Vec::new() }
    }

    /// Whether `a` is already present.
    pub fn contains(&self, a: PoolAddress) -> (r: bool)
        ensures
            r == self.spec_contains(a),
    {
        let mut i: usize = 0;
        while i < self.entries.len()
            invariant
                i <= self.entries@.len(),
                forall|j: int| 0 <= j < i ==> self.entries@[j] != a,
            decreases self.entries@.len() - i,
        {
            if self.entries[i] == a {
                proof {
                    assert(self.entries@[i as int] == a);
                }
                return true;
            }
            i = i + 1;
        }
        false
    }

    /// Appends one new address. A colliding address fails atomically; the
    /// collision is surfaced as a spent nullifier.
    pub fn insert(&mut self, a: PoolAddress) -> (r: Result<(), WrapError>)
        ensures
            r.is_ok() == !old(self).spec_contains(a),
            r is Ok ==> final(self).entries@ == old(self).entries@.push(a),
            r is Err ==> *final(self) == *old(self) && r == Err::<(), WrapError>(
                WrapError::NullifierAlreadySpent,
            ),
    {
        if self.contains(a) {
            return Err(WrapError::NullifierAlreadySpent);
        }
        self.entries.push(a);
        Ok(())
    }
}

/// Configuration of one shielded pool, bound to a vault and to the
/// external tree addresses its accumulator lives in.
#[derive(Clone, Copy, Debug)]
pub struct ShieldedPoolConfig {
    pub authority: Pubkey,
    pub vault: Pubkey,
    pub spl_token_mint: Pubkey,
    pub inco_token_mint: Pubkey,
    pub state_tree: Pubkey,
    pub address_tree: Pubkey,
    pub nullifier_queue: Pubkey,
    pub tree_depth: u8,
    pub is_initialized: bool,
}

/// Which result `init_shielded_pool` returns.
pub open spec fn init_shielded_pool_check(
    vault: Vault,
    spl_token_mint_key: Pubkey,
    inco_token_mint_key: Pubkey,
) -> Result<(), WrapError> {
    if vault.spl_token_mint != spl_token_mint_key {
        Err(WrapError::InvalidMint)
    } else if vault.inco_token_mint != inco_token_mint_key {
        Err(WrapError::InvalidIncoMint)
    } else {
        Ok(())
    }
}

/// Binds a pool config to one vault and to the external state tree,
/// address tree and nullifier queue.
pub fn init_shielded_pool(
    config: &mut ShieldedPoolConfig,
    authority: Pubkey,
    vault: &Vault,
    vault_key: Pubkey,
    spl_token_mint_key: Pubkey,
    inco_token_mint_key: Pubkey,
    state_tree: Pubkey,
    address_tree: Pubkey,
    nullifier_queue: Pubkey,
    tree_depth: u8,
) -> (r: Result<(), WrapError>)
    ensures
        r == init_shielded_pool_check(*vault, spl_token_mint_key, inco_token_mint_key),
        r is Err ==> *final(config) == *old(config),
        r is Ok ==> *final(config) == (ShieldedPoolConfig {
            authority,
            vault: vault_key,
            spl_token_mint: spl_token_mint_key,
            inco_token_mint: inco_token_mint_key,
            state_tree,
            address_tree,
            nullifier_queue,
            tree_depth,
            is_initialized: true,
        }),
{
    if vault.spl_token_mint != spl_token_mint_key {
        return Err(WrapError::InvalidMint);
    }
    if vault.inco_token_mint != inco_token_mint_key {
        return Err(WrapError::InvalidIncoMint);
    }
    config.authority = authority;
    config.vault = vault_key;
    config.spl_token_mint = spl_token_mint_key;
    config.inco_token_mint = inco_token_mint_key;
    config.state_tree = state_tree;
    config.address_tree = address_tree;
    config.nullifier_queue = nullifier_queue;
    config.tree_depth = tree_depth;
    config.is_initialized = true;
    Ok(())
}

/// Which result `shielded_transfer` returns; `proof_ok` is the verdict of
/// the external succinct-proof verifier on the caller's opaque payload.
pub open spec fn shielded_transfer_check(
    pool: ShieldedPoolConfig,
    accumulator: Accumulator,
    proof_ok: bool,
    nullifier: Digest,
    new_commitment: Digest,
) -> Result<(), WrapError> {
    if !pool.is_initialized {
        Err(WrapError::PoolNotInitialized)
    } else if !proof_ok {
        Err(WrapError::ProofNotVerified)
    } else if accumulator.spec_contains(
        PoolAddress { tag: AddressTag::Nullifier, digest: nullifier },
    ) {
        Err(WrapError::NullifierAlreadySpent)
    } else if accumulator.spec_contains(
        PoolAddress { tag: AddressTag::Commitment, digest: new_commitment },
    ) {
        Err(WrapError::NullifierAlreadySpent)
    } else {
        Ok(())
    }
}

/// A shielded transfer: the external verifier must accept the caller's
/// opaque proof, and then one nullifier address — marking an input note
/// spent — and one commitment address — the output note — are inserted
/// into the accumulator atomically. No funds move on the base ledger; the
/// value moves entirely inside the hidden note set, and reusing a
/// nullifier fails the whole call and leaves the accumulator as it was.
pub fn shielded_transfer(
    pool: &ShieldedPoolConfig,
    accumulator: &mut Accumulator,
    proof_ok: bool,
    nullifier: Digest,
    new_commitment: Digest,
) -> (r: Result<(), WrapError>)
    ensures
        r == shielded_transfer_check(*pool, *old(accumulator), proof_ok, nullifier, new_commitment),
        r is Err ==> *final(accumulator) == *old(accumulator),
        r is Ok ==> final(accumulator).entries@ == old(accumulator).entries@.push(
            PoolAddress { tag: AddressTag::Nullifier, digest: nullifier },
        ).push(PoolAddress { tag: AddressTag::Commitment, digest: new_commitment }),
{
    if !pool.is_initialized {
        return Err(WrapError::PoolNotInitialized);
    }
    if !proof_ok {
        return Err(WrapError::ProofNotVerified);
    }
    let nullifier_address = PoolAddress { tag: AddressTag::Nullifier, digest: nullifier };
    let commitment_address = PoolAddress { tag: AddressTag::Commitment, digest: new_commitment };
    if accumulator.contains(nullifier_address) {
        return Err(WrapError::NullifierAlreadySpent);
    }
    if accumulator.contains(commitment_address) {
        return Err(WrapError::NullifierAlreadySpent);
    }
    let inserted_nullifier = accumulator.insert(nullifier_address);
    match inserted_nullifier {
        Ok(()) => (),
        Err(e) => { return Err(e) },
    }
    let inserted_commitment = accumulator.insert(commitment_address);
    match inserted_commitment {
        Ok(()) => (),
        Err(e) => { return Err(e) },
    }
    Ok(())
}

/// Which result `wrap_and_commit` returns.
pub open spec fn wrap_and_commit_check(
    vault: Vault,
    vault_key: Pubkey,
    spl_token_mint_key: Pubkey,
    inco_token_mint: IncoMint,
    inco_token_mint_key: Pubkey,
    user: Pubkey,
    user_spl: TokenAccount,
    vault_spl: TokenAccount,
    vault_spl_key: Pubkey,
    user_inco: IncoAccount,
    ciphertext: Ciphertext,
    amount: u64,
    pool: ShieldedPoolConfig,
    accumulator: Accumulator,
    commitment: Digest,
) -> Result<(), WrapError> {
    if !vault.is_initialized {
        Err(WrapError::VaultNotInitialized)
    } else if !pool.is_initialized {
        Err(WrapError::PoolNotInitialized)
    } else if accumulator.spec_contains(
        PoolAddress { tag: AddressTag::Commitment, digest: commitment },
    ) {
        Err(WrapError::NullifierAlreadySpent)
    } else {
        wrap_token_check(
            vault,
            vault_key,
            spl_token_mint_key,
            inco_token_mint,
            inco_token_mint_key,
            user,
            user_spl,
            vault_spl,
            vault_spl_key,
            user_inco,
            ciphertext,
            amount,
        )
    }
}

/// `wrap_token` fused with the registration of a spendable shielded note:
/// moves the public amount into escrow, mints the sealed amount
/// confidentially, and inserts the note's commitment address into the
/// accumulator — one atomic step, so an observer cannot separate the mint
/// from the note registration. On any error nothing at all changes.
pub fn wrap_and_commit(
    eng: &mut CipherEngine,
    vault: &Vault,
    vault_key: Pubkey,
    spl_token_mint_key: Pubkey,
    inco_token_mint: &mut IncoMint,
    inco_token_mint_key: Pubkey,
    user: Pubkey,
    user_spl: &mut TokenAccount,
    vault_spl: &mut TokenAccount,
    vault_spl_key: Pubkey,
    user_inco: &mut IncoAccount,
    ciphertext: &Ciphertext,
    input_type: u8,
    amount: u64,
    pool: &ShieldedPoolConfig,
    accumulator: &mut Accumulator,
    commitment: Digest,
) -> (r: Result<(), WrapError>)
    requires
        old(inco_token_mint).wf(*old(eng)),
        old(user_inco).wf(*old(eng)),
    ensures
        r == wrap_and_commit_check(
            *vault,
            vault_key,
            spl_token_mint_key,
            *old(inco_token_mint),
            inco_token_mint_key,
            user,
            *old(user_spl),
            *old(vault_spl),
            vault_spl_key,
            *old(user_inco),
            *ciphertext,
            amount,
            *pool,
            *old(accumulator),
            commitment,
        ),
        final(eng).extends(*old(eng)),
        final(inco_token_mint).wf(*final(eng)),
        final(user_inco).wf(*final(eng)),
        r is Err ==> *final(user_spl) == *old(user_spl) && *final(vault_spl) == *old(vault_spl)
            && *final(inco_token_mint) == *old(inco_token_mint) && *final(user_inco) == *old(
            user_inco,
        ) && *final(accumulator) == *old(accumulator) && *final(eng) == *old(eng),
        r is Ok ==> {
            &&& *final(user_spl) == (TokenAccount {
                amount: (old(user_spl).amount - amount) as u64,
                ..*old(user_spl)
            })
            &&& *final(vault_spl) == (TokenAccount {
                amount: (old(vault_spl).amount + amount) as u64,
                ..*old(vault_spl)
            })
            &&& final(eng).value_of(final(inco_token_mint).supply) == wrap_add(
                old(eng).value_of(old(inco_token_mint).supply),
                ciphertext.value,
            )
            &&& final(eng).value_of(final(user_inco).amount) == wrap_add(
                old(eng).value_of(old(user_inco).amount),
                ciphertext.value,
            )
            &&& *final(inco_token_mint) == with_supply(
                *old(inco_token_mint),
                final(inco_token_mint).supply,
            )
            &&& *final(user_inco) == with_amount(*old(user_inco), final(user_inco).amount)
            &&& final(accumulator).entries@ == old(accumulator).entries@.push(
                PoolAddress { tag: AddressTag::Commitment, digest: commitment },
            )
        },
{
    if !vault.is_initialized {
        return Err(WrapError::VaultNotInitialized);
    }
    if !pool.is_initialized {
        return Err(WrapError::PoolNotInitialized);
    }
    let commitment_address = PoolAddress { tag: AddressTag::Commitment, digest: commitment };
    if accumulator.contains(commitment_address) {
        return Err(WrapError::NullifierAlreadySpent);
    }
    let wrapped = wrap_token(
        eng,
        vault,
        vault_key,
        spl_token_mint_key,
        inco_token_mint,
        inco_token_mint_key,
        user,
        user_spl,
        vault_spl,
        vault_spl_key,
        user_inco,
        ciphertext,
        input_type,
        amount,
    );
    match wrapped {
        Ok(()) => (),
        Err(e) => { return Err(e) },
    }
    let inserted = accumulator.insert(commitment_address);
    match inserted {
        Ok(()) => (),
        Err(e) => { return Err(e) },
    }
    Ok(())
}

/// Which result `unwrap_from_note` returns; `proof_ok` is the external
/// verifier's verdict on the note-ownership proof.
pub open spec fn unwrap_from_note_check(
    vault: Vault,
    spl_token_mint_key: Pubkey,
    inco_token_mint: IncoMint,
    inco_token_mint_key: Pubkey,
    user: Pubkey,
    user_inco: IncoAccount,
    vault_spl: TokenAccount,
    vault_spl_key: Pubkey,
    recipient_spl: TokenAccount,
    ciphertext: Ciphertext,
    plaintext_amount: u64,
    pool: ShieldedPoolConfig,
    accumulator: Accumulator,
    proof_ok: bool,
    nullifier: Digest,
) -> Result<(), WrapError> {
    if !vault.is_initialized {
        Err(WrapError::VaultNotInitialized)
    } else if !pool.is_initialized {
        Err(WrapError::PoolNotInitialized)
    } else if vault.spl_token_mint != spl_token_mint_key {
        Err(WrapError::InvalidMint)
    } else if vault.inco_token_mint != inco_token_mint_key {
        Err(WrapError::InvalidIncoMint)
    } else if pool.spl_token_mint != spl_token_mint_key {
        Err(WrapError::InvalidMint)
    } else if pool.inco_token_mint != inco_token_mint_key {
        Err(WrapError::InvalidIncoMint)
    } else if vault_spl_key != vault.vault_token_account {
        Err(WrapError::Token(CustomError::OwnerMismatch))
    } else if !proof_ok {
        Err(WrapError::ProofNotVerified)
    } else if accumulator.spec_contains(
        PoolAddress { tag: AddressTag::Nullifier, digest: nullifier },
    ) {
        Err(WrapError::NullifierAlreadySpent)
    } else {
        match crate::token::burn_check(
            user_inco,
            inco_token_mint,
            inco_token_mint_key,
            user,
            ciphertext,
        ) {
            Err(e) => Err(WrapError::Token(e)),
            Ok(()) => match crate::wrap::plain_transfer_check(
                vault_spl,
                recipient_spl,
                plaintext_amount,
            ) {
                Err(e) => Err(WrapError::Token(e)),
                Ok(()) => Ok(()),
            },
        }
    }
}

/// Redeems a shielded note back to plaintext: the external verifier must
/// accept the note-ownership proof, the note's nullifier address is
/// inserted — spending the note forever — the sealed amount burns from the
/// user's confidential balance by clamped subtraction, and the vault
/// releases the public amount to the receiving plaintext account (the
/// user's own, or a designated recipient's). One atomic step: on any
/// error, including a reused nullifier, nothing at all changes.
pub fn unwrap_from_note(
    eng: &mut CipherEngine,
    vault: &Vault,
    spl_token_mint_key: Pubkey,
    inco_token_mint: &mut IncoMint,
    inco_token_mint_key: Pubkey,
    user: Pubkey,
    user_inco: &mut IncoAccount,
    vault_spl: &mut TokenAccount,
    vault_spl_key: Pubkey,
    recipient_spl: &mut TokenAccount,
    ciphertext: &Ciphertext,
    input_type: u8,
    plaintext_amount: u64,
    pool: &ShieldedPoolConfig,
    accumulator: &mut Accumulator,
    proof_ok: bool,
    nullifier: Digest,
) -> (r: Result<(), WrapError>)
    requires
        old(inco_token_mint).wf(*old(eng)),
        old(user_inco).wf(*old(eng)),
    ensures
        r == unwrap_from_note_check(
            *vault,
            spl_token_mint_key,
            *old(inco_token_mint),
            inco_token_mint_key,
            user,
            *old(user_inco),
            *old(vault_spl),
            vault_spl_key,
            *old(recipient_spl),
            *ciphertext,
            plaintext_amount,
            *pool,
            *old(accumulator),
            proof_ok,
            nullifier,
        ),
        final(eng).extends(*old(eng)),
        final(inco_token_mint).wf(*final(eng)),
        final(user_inco).wf(*final(eng)),
        r is Err ==> *final(user_inco) == *old(user_inco) && *final(vault_spl) == *old(vault_spl)
            && *final(recipient_spl) == *old(recipient_spl) && *final(inco_token_mint) == *old(
            inco_token_mint,
        ) && *final(accumulator) == *old(accumulator) && *final(eng) == *old(eng),
        r is Ok ==> {
            let applied = clamped(old(eng).value_of(old(user_inco).amount), ciphertext.value);
            &&& final(eng).value_of(final(user_inco).amount) == old(eng).value_of(
                old(user_inco).amount,
            ) - applied
            &&& final(eng).value_of(final(inco_token_mint).supply) == wrap_sub(
                old(eng).value_of(old(inco_token_mint).supply),
                applied,
            )
            &&& *final(user_inco) == with_amount(*old(user_inco), final(user_inco).amount)
            &&& *final(inco_token_mint) == with_supply(
                *old(inco_token_mint),
                final(inco_token_mint).supply,
            )
            &&& *final(vault_spl) == (TokenAccount {
                amount: (old(vault_spl).amount - plaintext_amount) as u64,
                ..*old(vault_spl)
            })
            &&& *final(recipient_spl) == (TokenAccount {
                amount: (old(recipient_spl).amount + plaintext_amount) as u64,
                ..*old(recipient_spl)
            })
            &&& final(accumulator).entries@ == old(accumulator).entries@.push(
                PoolAddress { tag: AddressTag::Nullifier, digest: nullifier },
            )
        },
{
    if !vault.is_initialized {
        return Err(WrapError::VaultNotInitialized);
    }
    if !pool.is_initialized {
        return Err(WrapError::PoolNotInitialized);
    }
    if vault.spl_token_mint != spl_token_mint_key {
        return Err(WrapError::InvalidMint);
    }
    if vault.inco_token_mint != inco_token_mint_key {
        return Err(WrapError::InvalidIncoMint);
    }
    if pool.spl_token_mint != spl_token_mint_key {
        return Err(WrapError::InvalidMint);
    }
    if pool.inco_token_mint != inco_token_mint_key {
        return Err(WrapError::InvalidIncoMint);
    }
    if vault_spl_key != vault.vault_token_account {
        return Err(WrapError::Token(CustomError::OwnerMismatch));
    }
    if !proof_ok {
        return Err(WrapError::ProofNotVerified);
    }
    let nullifier_address = PoolAddress { tag: AddressTag::Nullifier, digest: nullifier };
    if accumulator.contains(nullifier_address) {
        return Err(WrapError::NullifierAlreadySpent);
    }
    match crate::token::burn_precheck(
        user_inco,
        inco_token_mint,
        inco_token_mint_key,
        user,
        ciphertext,
    ) {
        Err(e) => { return Err(WrapError::Token(e)) },
        Ok(()) => (),
    }
    match crate::wrap::plain_transfer_precheck(vault_spl, recipient_spl, plaintext_amount) {
        Err(e) => { return Err(WrapError::Token(e)) },
        Ok(()) => (),
    }
    let inserted = accumulator.insert(nullifier_address);
    match inserted {
        Ok(()) => (),
        Err(e) => { return Err(e) },
    }
    let burned = crate::token::burn(
        eng,
        user_inco,
        inco_token_mint,
        inco_token_mint_key,
        user,
        ciphertext,
        input_type,
    );
    match burned {
        Ok(()) => (),
        Err(e) => { return Err(WrapError::Token(e)) },
    }
    let released = crate::wrap::plain_transfer(vault_spl, recipient_spl, plaintext_amount);
    match released {
        Ok(()) => (),
        Err(e) => { return Err(WrapError::Token(e)) },
    }
    Ok(())
}

/// Double-spend prevention: a shielded transfer was admitted for
/// `nullifier`, so by its contract the nullifier's address stands in the
/// accumulator from then on — `second_accumulator` is any later state that
/// still holds it. A second shielded transfer bringing the same nullifier,
/// whatever new commitment and however valid its proof, is refused with
/// `NullifierAlreadySpent`; by the contract's error case it leaves the
/// accumulator — and with it the first insertion — intact.
pub proof fn lemma_double_spend_rejected(
    pool: ShieldedPoolConfig,
    accumulator: Accumulator,
    nullifier: Digest,
    new_commitment: Digest,
    second_pool: ShieldedPoolConfig,
    second_accumulator: Accumulator,
    second_commitment: Digest,
)
    requires
        shielded_transfer_check(pool, accumulator, true, nullifier, new_commitment) is Ok,
        second_pool.is_initialized,
        second_accumulator.spec_contains(
            PoolAddress { tag: AddressTag::Nullifier, digest: nullifier },
        ),
    ensures
        shielded_transfer_check(second_pool, second_accumulator, true, nullifier, second_commitment)
            == Err::<(), WrapError>(WrapError::NullifierAlreadySpent),
{
}

} // verus!
