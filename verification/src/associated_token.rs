use vstd::prelude::*;

use crate::cipher::{CipherEngine, Handle};
use crate::errors::IncoAssociatedTokenError;
use crate::token::{AccountState, IncoAccount, IncoMint};
use crate::types::Pubkey;

verus! {

/// The account a creation call leaves behind: bound to the mint, owned by
/// the wallet, with the given encrypted-zero balance and delegated-amount
/// handles.
pub open spec fn created_account(
    mint_key: Pubkey,
    wallet: Pubkey,
    amount: Handle,
    delegated_amount: Handle,
) -> IncoAccount {
    IncoAccount {
        mint: mint_key,
        owner: wallet,
        amount,
        delegate: None,
        state: AccountState::Initialized,
        is_native: None,
        delegated_amount,
        close_authority: None,
    }
}

/// Which result `create` returns.
pub open spec fn create_check(account: IncoAccount, mint: IncoMint) -> Result<
    (),
    IncoAssociatedTokenError,
> {
    if !mint.is_initialized {
        Err(IncoAssociatedTokenError::UninitializedMint)
    } else if account.state != AccountState::Uninitialized {
        Err(IncoAssociatedTokenError::AlreadyInitialized)
    } else {
        Ok(())
    }
}

/// Creates the wallet's associated account for `mint_key`: fails if the
/// account record is already in use, else seeds encrypted zeroes.
pub fn create(
    eng: &mut CipherEngine,
    associated_token: &mut IncoAccount,
    mint: &IncoMint,
    mint_key: Pubkey,
    wallet: Pubkey,
) -> (r: Result<(), IncoAssociatedTokenError>)
    ensures
        r == create_check(*old(associated_token), *mint),
        final(eng).extends(*old(eng)),
        r is Err ==> *final(associated_token) == *old(associated_token) && *final(eng) == *old(eng),
        r is Ok ==> {
            &&& final(associated_token).wf(*final(eng))
            &&& final(eng).value_of(final(associated_token).amount) == 0
            &&& final(eng).value_of(final(associated_token).delegated_amount) == 0
            &&& *final(associated_token) == created_account(
                mint_key,
                wallet,
                final(associated_token).amount,
                final(associated_token).delegated_amount,
            )
        },
{
    if !mint.is_initialized {
        return Err(IncoAssociatedTokenError::UninitializedMint);
    }
    if !(associated_token.state == AccountState::Uninitialized) {
        return Err(IncoAssociatedTokenError::AlreadyInitialized);
    }
    let zero_amount = eng.as_handle(0);
    let zero_delegated = eng.as_handle(0);
    associated_token.mint = mint_key;
    associated_token.owner = wallet;
    associated_token.amount = zero_amount;
    associated_token.delegate = None;
    associated_token.state = AccountState::Initialized;
    associated_token.is_native = None;
    associated_token.delegated_amount = zero_delegated;
    associated_token.close_authority = None;
    Ok(())
}

/// Which result `create_idempotent` returns: it only ever fails on an
/// uninitialized mint.
pub open spec fn create_idempotent_check(account: IncoAccount, mint: IncoMint) -> Result<
    (),
    IncoAssociatedTokenError,
> {
    if !mint.is_initialized {
        Err(IncoAssociatedTokenError::UninitializedMint)
    } else {
        Ok(())
    }
}

/// As `create`, but a second call on an already-initialized account is a
/// successful no-op: nothing in the account or the service changes.
pub fn create_idempotent(
    eng: &mut CipherEngine,
    associated_token: &mut IncoAccount,
    mint: &IncoMint,
    mint_key: Pubkey,
    wallet: Pubkey,
) -> (r: Result<(), IncoAssociatedTokenError>)
    ensures
        r == create_idempotent_check(*old(associated_token), *mint),
        final(eng).extends(*old(eng)),
        r is Err ==> *final(associated_token) == *old(associated_token) && *final(eng) == *old(eng),
        r is Ok && old(associated_token).state == AccountState::Initialized
            ==> *final(associated_token) == *old(associated_token) && *final(eng) == *old(eng),
        r is Ok && old(associated_token).state != AccountState::Initialized ==> {
            &&& final(associated_token).wf(*final(eng))
            &&& final(eng).value_of(final(associated_token).amount) == 0
            &&& final(eng).value_of(final(associated_token).delegated_amount) == 0
            &&& *final(associated_token) == created_account(
                mint_key,
                wallet,
                final(associated_token).amount,
                final(associated_token).delegated_amount,
            )
        },
{
    if !mint.is_initialized {
        return Err(IncoAssociatedTokenError::UninitializedMint);
    }
    if associated_token.state == AccountState::Initialized {
        return Ok(());
    }
    let zero_amount = eng.as_handle(0);
    let zero_delegated = eng.as_handle(0);
    associated_token.mint = mint_key;
    associated_token.owner = wallet;
    associated_token.amount = zero_amount;
    associated_token.delegate = None;
    associated_token.state = AccountState::Initialized;
    associated_token.is_native = None;
    associated_token.delegated_amount = zero_delegated;
    associated_token.close_authority = None;
    Ok(())
}

/// Idempotent initialization agrees with plain creation on untouched
/// accounts: for an uninitialized account both calls admit the same inputs,
/// and their contracts install the same `created_account` state. On an
/// already-initialized account only the idempotent call succeeds, and its
/// contract pins the account and the service unchanged.
pub proof fn lemma_create_idempotent_matches_create(account: IncoAccount, mint: IncoMint)
    requires
        account.state == AccountState::Uninitialized,
    ensures
        create_idempotent_check(account, mint) == create_check(account, mint),
{
}

} // verus!
