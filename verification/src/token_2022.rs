use vstd::prelude::*;

use crate::cipher::{wrap_add, wrap_sub, CipherEngine};
use crate::errors::CustomError;
use crate::token::{
    approve, burn, clamped, close_account, close_account_check, initialize_account,
    initialize_account_check, mint_to, revoke, revoke_check, transfer, with_amount, with_supply,
    AccountState, IncoAccount, IncoMint,
};
use crate::types::{Ciphertext, Pubkey};

verus! {

/// Which result `transfer_checked` returns: as `transfer`, but both
/// accounts must belong to the named mint and the caller-asserted decimals
/// must match it.
pub open spec fn transfer_checked_check(
    source: IncoAccount,
    destination: IncoAccount,
    mint: IncoMint,
    mint_key: Pubkey,
    source_key: Pubkey,
    destination_key: Pubkey,
    authority: Pubkey,
    ciphertext: Ciphertext,
    decimals: u8,
) -> Result<(), CustomError> {
    if source.state == AccountState::Uninitialized {
        Err(CustomError::UninitializedState)
    } else if source.state == AccountState::Frozen {
        Err(CustomError::AccountFrozen)
    } else if !mint.is_initialized {
        Err(CustomError::UninitializedState)
    } else if destination.state == AccountState::Uninitialized {
        Err(CustomError::UninitializedState)
    } else if destination.state == AccountState::Frozen {
        Err(CustomError::AccountFrozen)
    } else if source.mint != mint_key {
        Err(CustomError::MintMismatch)
    } else if destination.mint != mint_key {
        Err(CustomError::MintMismatch)
    } else if mint.decimals != decimals {
        Err(CustomError::MintDecimalsMismatch)
    } else if source_key == destination_key {
        Ok(())
    } else if !source.spec_authorized(authority) {
        Err(CustomError::OwnerMismatch)
    } else if !ciphertext.spec_valid() {
        Err(CustomError::InvalidInstruction)
    } else {
        Ok(())
    }
}

/// `transfer`, with the mint named explicitly so its decimals can be
/// checked against the caller's expectation before any funds move.
pub fn transfer_checked(
    eng: &mut CipherEngine,
    source: &mut IncoAccount,
    destination: &mut IncoAccount,
    mint: &IncoMint,
    mint_key: Pubkey,
    source_key: Pubkey,
    destination_key: Pubkey,
    authority: Pubkey,
    ciphertext: &Ciphertext,
    input_type: u8,
    decimals: u8,
) -> (r: Result<(), CustomError>)
    requires
        old(source).wf(*old(eng)),
        old(destination).wf(*old(eng)),
    ensures
        r == transfer_checked_check(
            *old(source),
            *old(destination),
            *mint,
            mint_key,
            source_key,
            destination_key,
            authority,
            *ciphertext,
            decimals,
        ),
        final(eng).extends(*old(eng)),
        final(source).wf(*final(eng)),
        final(destination).wf(*final(eng)),
        r is Err ==> *final(source) == *old(source) && *final(destination) == *old(destination)
            && *final(eng) == *old(eng),
        r is Ok && source_key == destination_key ==> *final(source) == *old(source)
            && *final(destination) == *old(destination) && *final(eng) == *old(eng),
        r is Ok && source_key != destination_key ==> {
            let applied = clamped(old(eng).value_of(old(source).amount), ciphertext.value);
            &&& final(eng).value_of(final(source).amount) == old(eng).value_of(old(source).amount)
                - applied
            &&& final(eng).value_of(final(destination).amount) == wrap_add(
                old(eng).value_of(old(destination).amount),
                applied,
            )
            &&& *final(source) == with_amount(*old(source), final(source).amount)
            &&& *final(destination) == with_amount(*old(destination), final(destination).amount)
        },
{
    if source.state == AccountState::Uninitialized {
        return Err(CustomError::UninitializedState);
    }
    if source.state == AccountState::Frozen {
        return Err(CustomError::AccountFrozen);
    }
    if !mint.is_initialized {
        return Err(CustomError::UninitializedState);
    }
    if destination.state == AccountState::Uninitialized {
        return Err(CustomError::UninitializedState);
    }
    if destination.state == AccountState::Frozen {
        return Err(CustomError::AccountFrozen);
    }
    if source.mint != mint_key {
        return Err(CustomError::MintMismatch);
    }
    if destination.mint != mint_key {
        return Err(CustomError::MintMismatch);
    }
    if mint.decimals != decimals {
        return Err(CustomError::MintDecimalsMismatch);
    }
    transfer(eng, source, destination, source_key, destination_key, authority, ciphertext,
        input_type)
}

/// Which result `mint_to_checked` returns.
pub open spec fn mint_to_checked_check(
    mint: IncoMint,
    mint_key: Pubkey,
    account: IncoAccount,
    authority: Pubkey,
    ciphertext: Ciphertext,
    decimals: u8,
) -> Result<(), CustomError> {
    if !mint.is_initialized {
        Err(CustomError::UninitializedState)
    } else if account.state == AccountState::Uninitialized {
        Err(CustomError::UninitializedState)
    } else if account.state == AccountState::Frozen {
        Err(CustomError::AccountFrozen)
    } else if account.mint != mint_key {
        Err(CustomError::MintMismatch)
    } else if mint.decimals != decimals {
        Err(CustomError::MintDecimalsMismatch)
    } else {
        match mint.mint_authority {
            None => Err(CustomError::FixedSupply),
            Some(auth) => if auth != authority {
                Err(CustomError::OwnerMismatch)
            } else if !ciphertext.spec_valid() {
                Err(CustomError::InvalidInstruction)
            } else {
                Ok(())
            },
        }
    }
}

/// `mint_to`, with the caller's decimals expectation checked first.
pub fn mint_to_checked(
    eng: &mut CipherEngine,
    mint: &mut IncoMint,
    mint_key: Pubkey,
    account: &mut IncoAccount,
    authority: Pubkey,
    ciphertext: &Ciphertext,
    input_type: u8,
    decimals: u8,
) -> (r: Result<(), CustomError>)
    requires
        old(mint).wf(*old(eng)),
        old(account).wf(*old(eng)),
    ensures
        r == mint_to_checked_check(
            *old(mint),
            mint_key,
            *old(account),
            authority,
            *ciphertext,
            decimals,
        ),
        final(eng).extends(*old(eng)),
        final(mint).wf(*final(eng)),
        final(account).wf(*final(eng)),
        r is Err ==> *final(mint) == *old(mint) && *final(account) == *old(account) && *final(eng)
            == *old(eng),
        r is Ok ==> {
            let amt = ciphertext.value;
            &&& final(eng).value_of(final(mint).supply) == wrap_add(
                old(eng).value_of(old(mint).supply),
                amt,
            )
            &&& final(eng).value_of(final(account).amount) == wrap_add(
                old(eng).value_of(old(account).amount),
                amt,
            )
            &&& *final(mint) == with_supply(*old(mint), final(mint).supply)
            &&& *final(account) == with_amount(*old(account), final(account).amount)
        },
{
    if !mint.is_initialized {
        return Err(CustomError::UninitializedState);
    }
    if account.state == AccountState::Uninitialized {
        return Err(CustomError::UninitializedState);
    }
    if account.state == AccountState::Frozen {
        return Err(CustomError::AccountFrozen);
    }
    if account.mint != mint_key {
        return Err(CustomError::MintMismatch);
    }
    if mint.decimals != decimals {
        return Err(CustomError::MintDecimalsMismatch);
    }
    mint_to(eng, mint, mint_key, account, authority, ciphertext, input_type)
}

/// Which result `burn_checked` returns.
pub open spec fn burn_checked_check(
    account: IncoAccount,
    mint: IncoMint,
    mint_key: Pubkey,
    authority: Pubkey,
    ciphertext: Ciphertext,
    decimals: u8,
) -> Result<(), CustomError> {
    if account.state == AccountState::Uninitialized {
        Err(CustomError::UninitializedState)
    } else if account.state == AccountState::Frozen {
        Err(CustomError::AccountFrozen)
    } else if account.mint != mint_key {
        Err(CustomError::MintMismatch)
    } else if !mint.is_initialized {
        Err(CustomError::UninitializedState)
    } else if mint.decimals != decimals {
        Err(CustomError::MintDecimalsMismatch)
    } else if !account.spec_authorized(authority) {
        Err(CustomError::OwnerMismatch)
    } else if !ciphertext.spec_valid() {
        Err(CustomError::InvalidInstruction)
    } else {
        Ok(())
    }
}

/// `burn`, with the caller's decimals expectation checked first.
pub fn burn_checked(
    eng: &mut CipherEngine,
    account: &mut IncoAccount,
    mint: &mut IncoMint,
    mint_key: Pubkey,
    authority: Pubkey,
    ciphertext: &Ciphertext,
    input_type: u8,
    decimals: u8,
) -> (r: Result<(), CustomError>)
    requires
        old(account).wf(*old(eng)),
        old(mint).wf(*old(eng)),
    ensures
        r == burn_checked_check(
            *old(account),
            *old(mint),
            mint_key,
            authority,
            *ciphertext,
            decimals,
        ),
        final(eng).extends(*old(eng)),
        final(account).wf(*final(eng)),
        final(mint).wf(*final(eng)),
        r is Err ==> *final(account) == *old(account) && *final(mint) == *old(mint) && *final(eng)
            == *old(eng),
        r is Ok ==> {
            let applied = clamped(old(eng).value_of(old(account).amount), ciphertext.value);
            &&& final(eng).value_of(final(account).amount) == old(eng).value_of(old(account).amount)
                - applied
            &&& final(eng).value_of(final(mint).supply) == wrap_sub(
                old(eng).value_of(old(mint).supply),
                applied,
            )
            &&& *final(account) == with_amount(*old(account), final(account).amount)
            &&& *final(mint) == with_supply(*old(mint), final(mint).supply)
        },
{
    if account.state == AccountState::Uninitialized {
        return Err(CustomError::UninitializedState);
    }
    if account.state == AccountState::Frozen {
        return Err(CustomError::AccountFrozen);
    }
    if account.mint != mint_key {
        return Err(CustomError::MintMismatch);
    }
    if !mint.is_initialized {
        return Err(CustomError::UninitializedState);
    }
    if mint.decimals != decimals {
        return Err(CustomError::MintDecimalsMismatch);
    }
    burn(eng, account, mint, mint_key, authority, ciphertext, input_type)
}

/// Which result `approve_checked` returns.
pub open spec fn approve_checked_check(
    source: IncoAccount,
    mint: IncoMint,
    mint_key: Pubkey,
    owner: Pubkey,
    ciphertext: Ciphertext,
    decimals: u8,
) -> Result<(), CustomError> {
    if source.state == AccountState::Uninitialized {
        Err(CustomError::UninitializedState)
    } else if source.state == AccountState::Frozen {
        Err(CustomError::AccountFrozen)
    } else if !mint.is_initialized {
        Err(CustomError::UninitializedState)
    } else if source.mint != mint_key {
        Err(CustomError::MintMismatch)
    } else if mint.decimals != decimals {
        Err(CustomError::MintDecimalsMismatch)
    } else if source.owner != owner {
        Err(CustomError::OwnerMismatch)
    } else if !ciphertext.spec_valid() {
        Err(CustomError::InvalidInstruction)
    } else {
        Ok(())
    }
}

/// `approve`, with the source bound to the named mint and the decimals
/// checked.
pub fn approve_checked(
    eng: &mut CipherEngine,
    source: &mut IncoAccount,
    mint: &IncoMint,
    mint_key: Pubkey,
    delegate: Pubkey,
    owner: Pubkey,
    ciphertext: &Ciphertext,
    input_type: u8,
    decimals: u8,
) -> (r: Result<(), CustomError>)
    requires
        old(source).wf(*old(eng)),
    ensures
        r == approve_checked_check(*old(source), *mint, mint_key, owner, *ciphertext, decimals),
        final(eng).extends(*old(eng)),
        final(source).wf(*final(eng)),
        r is Err ==> *final(source) == *old(source) && *final(eng) == *old(eng),
        r is Ok ==> {
            &&& final(eng).value_of(final(source).delegated_amount) == ciphertext.value
            &&& *final(source) == (IncoAccount {
                delegate: Some(delegate),
                delegated_amount: final(source).delegated_amount,
                ..*old(source)
            })
        },
{
    if source.state == AccountState::Uninitialized {
        return Err(CustomError::UninitializedState);
    }
    if source.state == AccountState::Frozen {
        return Err(CustomError::AccountFrozen);
    }
    if !mint.is_initialized {
        return Err(CustomError::UninitializedState);
    }
    if source.mint != mint_key {
        return Err(CustomError::MintMismatch);
    }
    if mint.decimals != decimals {
        return Err(CustomError::MintDecimalsMismatch);
    }
    approve(eng, source, delegate, owner, ciphertext, input_type)
}

/// `initialize_account`, with the created account owned by the calling
/// authority itself.
pub fn initialize_account3(
    eng: &mut CipherEngine,
    account: &mut IncoAccount,
    mint: &IncoMint,
    mint_key: Pubkey,
    authority: Pubkey,
) -> (r: Result<(), CustomError>)
    ensures
        r == initialize_account_check(*old(account), *mint),
        final(eng).extends(*old(eng)),
        r is Err ==> *final(account) == *old(account) && *final(eng) == *old(eng),
        r is Ok ==> {
            &&& final(account).wf(*final(eng))
            &&& final(eng).value_of(final(account).amount) == 0
            &&& final(eng).value_of(final(account).delegated_amount) == 0
            &&& *final(account) == (IncoAccount {
                mint: mint_key,
                owner: authority,
                amount: final(account).amount,
                delegate: None,
                state: AccountState::Initialized,
                is_native: None,
                delegated_amount: final(account).delegated_amount,
                close_authority: None,
            })
        },
{
    initialize_account(eng, account, mint, mint_key, authority)
}

/// `revoke`, under the calling authority.
pub fn revoke_2022(eng: &mut CipherEngine, source: &mut IncoAccount, authority: Pubkey) -> (r:
    Result<(), CustomError>)
    requires
        old(source).wf(*old(eng)),
    ensures
        r == revoke_check(*old(source), authority),
        final(eng).extends(*old(eng)),
        final(source).wf(*final(eng)),
        r is Err ==> *final(source) == *old(source) && *final(eng) == *old(eng),
        r is Ok ==> {
            &&& final(eng).value_of(final(source).delegated_amount) == 0
            &&& *final(source) == (IncoAccount {
                delegate: None,
                delegated_amount: final(source).delegated_amount,
                ..*old(source)
            })
        },
{
    revoke(eng, source, authority)
}

/// `close_account`, under the calling authority.
pub fn close_account_2022(
    account: &IncoAccount,
    authority: Pubkey,
    account_lamports: u64,
    destination_lamports: u64,
) -> (r: Result<u64, CustomError>)
    ensures
        r == close_account_check(*account, authority, account_lamports, destination_lamports),
{
    close_account(account, authority, account_lamports, destination_lamports)
}

} // verus!
