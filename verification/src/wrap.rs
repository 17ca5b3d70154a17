use vstd::prelude::*;

use crate::cipher::{wrap_add, wrap_sub, CipherEngine};
use crate::errors::{CustomError, WrapError};
use crate::token::{burn, burn_check, burn_precheck, clamped, mint_to, mint_to_check,
    mint_to_precheck, with_amount, with_supply, IncoAccount, IncoMint};
use crate::types::{Ciphertext, Pubkey};

verus! {

/// A plaintext-asset token account on the value-transfer ledger — the
/// clear side of the bridge. Held at the host token program's interface:
/// a balance that moves by exact, checked arithmetic.
#[derive(Clone, Copy, Debug)]
pub struct TokenAccount {
    pub mint: Pubkey,
    pub owner: Pubkey,
    pub amount: u64,
}

/// Escrow vault bridging one plaintext mint to one confidential mint. The
/// vault's derived authority owns the plaintext escrow account and acts as
/// the confidential mint's authority.
#[derive(Clone, Copy, Debug)]
pub struct Vault {
    pub authority: Pubkey,
    pub spl_token_mint: Pubkey,
    pub inco_token_mint: Pubkey,
    pub vault_token_account: Pubkey,
    pub is_initialized: bool,
}

/// Which result a plaintext transfer returns: both accounts on one mint,
/// the source covering the amount, the destination not overflowing.
pub open spec fn plain_transfer_check(
    source: TokenAccount,
    destination: TokenAccount,
    amount: u64,
) -> Result<(), CustomError> {
    if source.mint != destination.mint {
        Err(CustomError::MintMismatch)
    } else if source.amount < amount {
        Err(CustomError::InsufficientFunds)
    } else if destination.amount + amount > u64::MAX {
        Err(CustomError::Overflow)
    } else {
        Ok(())
    }
}

/// The plaintext leg of the bridge, at the host token program's interface:
/// moves an exact public amount, failing closed on insufficient funds or
/// overflow, with no change on failure.
pub fn plain_transfer(
    source: &mut TokenAccount,
    destination: &mut TokenAccount,
    amount: u64,
) -> (r: Result<(), CustomError>)
    ensures
        r == plain_transfer_check(*old(source), *old(destination), amount),
        r is Err ==> *final(source) == *old(source) && *final(destination) == *old(destination),
        r is Ok ==> {
            &&& *final(source) == (TokenAccount {
                amount: (old(source).amount - amount) as u64,
                ..*old(source)
            })
            &&& *final(destination) == (TokenAccount {
                amount: (old(destination).amount + amount) as u64,
                ..*old(destination)
            })
        },
{
    if source.mint != destination.mint {
        return Err(CustomError::MintMismatch);
    }
    if source.amount < amount {
        return Err(CustomError::InsufficientFunds);
    }
    let summed = match destination.amount.checked_add(amount) {
        Some(total) => total,
        None => { return Err(CustomError::Overflow) },
    };
    source.amount = source.amount - amount;
    destination.amount = summed;
    Ok(())
}

/// Evaluates `plain_transfer`'s checks without moving anything.
pub fn plain_transfer_precheck(
    source: &TokenAccount,
    destination: &TokenAccount,
    amount: u64,
) -> (r: Result<(), CustomError>)
    ensures
        r == plain_transfer_check(*source, *destination, amount),
{
    if source.mint != destination.mint {
        return Err(CustomError::MintMismatch);
    }
    if source.amount < amount {
        return Err(CustomError::InsufficientFunds);
    }
    if destination.amount > u64::MAX - amount {
        return Err(CustomError::Overflow);
    }
    Ok(())
}

/// Which result `initialize_vault` returns. Topology violations surface as
/// ledger errors through the `Token` channel.
pub open spec fn initialize_vault_check(
    vault: Vault,
    vault_key: Pubkey,
    spl_token_mint_key: Pubkey,
    vault_token_account: TokenAccount,
) -> Result<(), WrapError> {
    if vault.is_initialized {
        Err(WrapError::Token(CustomError::AlreadyInUse))
    } else if vault_token_account.mint != spl_token_mint_key {
        Err(WrapError::InvalidMint)
    } else if vault_token_account.owner != vault_key {
        Err(WrapError::Token(CustomError::OwnerMismatch))
    } else {
        Ok(())
    }
}

/// Binds a vault to one (plaintext mint, confidential mint) pair and to its
/// plaintext escrow account, which the vault record itself must own.
pub fn initialize_vault(
    vault: &mut Vault,
    vault_key: Pubkey,
    authority: Pubkey,
    spl_token_mint_key: Pubkey,
    inco_token_mint_key: Pubkey,
    vault_token_account: &TokenAccount,
    vault_token_account_key: Pubkey,
) -> (r: Result<(), WrapError>)
    ensures
        r == initialize_vault_check(*old(vault), vault_key, spl_token_mint_key,
            *vault_token_account),
        r is Err ==> *final(vault) == *old(vault),
        r is Ok ==> *final(vault) == (Vault {
            authority,
            spl_token_mint: spl_token_mint_key,
            inco_token_mint: inco_token_mint_key,
            vault_token_account: vault_token_account_key,
            is_initialized: true,
        }),
{
    if vault.is_initialized {
        return Err(WrapError::Token(CustomError::AlreadyInUse));
    }
    if vault_token_account.mint != spl_token_mint_key {
        return Err(WrapError::InvalidMint);
    }
    if vault_token_account.owner != vault_key {
        return Err(WrapError::Token(CustomError::OwnerMismatch));
    }
    vault.authority = authority;
    vault.spl_token_mint = spl_token_mint_key;
    vault.inco_token_mint = inco_token_mint_key;
    vault.vault_token_account = vault_token_account_key;
    vault.is_initialized = true;
    Ok(())
}

/// Which result `wrap_token` returns.
pub open spec fn wrap_token_check(
    vault: Vault,
    vault_key: Pubkey,
    spl_token_mint_key: Pubkey,
    inco_token_mint: IncoMint,
    inco_token_mint_key: Pubkey,
    user: Pubkey,
    user_spl: TokenAccount,
    vault_spl: TokenAccount,
    vault_spl_key: Pubkey,
    user_inco: IncoAccount,
    ciphertext: Ciphertext,
    amount: u64,
) -> Result<(), WrapError> {
    if !vault.is_initialized {
        Err(WrapError::VaultNotInitialized)
    } else if vault.spl_token_mint != spl_token_mint_key {
        Err(WrapError::InvalidMint)
    } else if vault.inco_token_mint != inco_token_mint_key {
        Err(WrapError::InvalidIncoMint)
    } else if user_spl.mint != spl_token_mint_key {
        Err(WrapError::InvalidMint)
    } else if user_spl.owner != user {
        Err(WrapError::Token(CustomError::OwnerMismatch))
    } else if vault_spl_key != vault.vault_token_account {
        Err(WrapError::Token(CustomError::OwnerMismatch))
    } else if user_inco.mint != inco_token_mint_key {
        Err(WrapError::InvalidIncoMint)
    } else if user_inco.owner != user {
        Err(WrapError::Token(CustomError::OwnerMismatch))
    } else {
        match plain_transfer_check(user_spl, vault_spl, amount) {
            Err(e) => Err(WrapError::Token(e)),
            Ok(()) => match mint_to_check(
                inco_token_mint,
                inco_token_mint_key,
                user_inco,
                vault_key,
                ciphertext,
            ) {
                Err(e) => Err(WrapError::Token(e)),
                Ok(()) => Ok(()),
            },
        }
    }
}

/// Wraps plaintext into confidential form: moves the public amount from
/// the user's plaintext account into the vault's escrow, then mints the
/// sealed ciphertext amount to the user's confidential account under the
/// vault's signature — the vault record is the confidential mint's
/// authority. Atomic: on any error nothing moves.
pub fn wrap_token(
    eng: &mut CipherEngine,
    vault: &Vault,
    vault_key: Pubkey,
    spl_token_mint_key: Pubkey,
    inco_token_mint: &mut IncoMint,
    inco_token_mint_key: Pubkey,
    user: Pubkey,
    user_spl: &mut TokenAccount,
    vault_spl: &mut TokenAccount,
    vault_spl_key: Pubkey,
    user_inco: &mut IncoAccount,
    ciphertext: &Ciphertext,
    input_type: u8,
    amount: u64,
) -> (r: Result<(), WrapError>)
    requires
        old(inco_token_mint).wf(*old(eng)),
        old(user_inco).wf(*old(eng)),
    ensures
        r == wrap_token_check(
            *vault,
            vault_key,
            spl_token_mint_key,
            *old(inco_token_mint),
            inco_token_mint_key,
            user,
            *old(user_spl),
            *old(vault_spl),
            vault_spl_key,
            *old(user_inco),
            *ciphertext,
            amount,
        ),
        final(eng).extends(*old(eng)),
        final(inco_token_mint).wf(*final(eng)),
        final(user_inco).wf(*final(eng)),
        r is Err ==> *final(user_spl) == *old(user_spl) && *final(vault_spl) == *old(vault_spl)
            && *final(inco_token_mint) == *old(inco_token_mint) && *final(user_inco) == *old(
            user_inco,
        ) && *final(eng) == *old(eng),
        r is Ok ==> {
            &&& *final(user_spl) == (TokenAccount {
                amount: (old(user_spl).amount - amount) as u64,
                ..*old(user_spl)
            })
            &&& *final(vault_spl) == (TokenAccount {
                amount: (old(vault_spl).amount + amount) as u64,
                ..*old(vault_spl)
            })
            &&& final(eng).value_of(final(inco_token_mint).supply) == wrap_add(
                old(eng).value_of(old(inco_token_mint).supply),
                ciphertext.value,
            )
            &&& final(eng).value_of(final(user_inco).amount) == wrap_add(
                old(eng).value_of(old(user_inco).amount),
                ciphertext.value,
            )
            &&& *final(inco_token_mint) == with_supply(
                *old(inco_token_mint),
                final(inco_token_mint).supply,
            )
            &&& *final(user_inco) == with_amount(*old(user_inco), final(user_inco).amount)
        },
{
    if !vault.is_initialized {
        return Err(WrapError::VaultNotInitialized);
    }
    if vault.spl_token_mint != spl_token_mint_key {
        return Err(WrapError::InvalidMint);
    }
    if vault.inco_token_mint != inco_token_mint_key {
        return Err(WrapError::InvalidIncoMint);
    }
    if user_spl.mint != spl_token_mint_key {
        return Err(WrapError::InvalidMint);
    }
    if user_spl.owner != user {
        return Err(WrapError::Token(CustomError::OwnerMismatch));
    }
    if vault_spl_key != vault.vault_token_account {
        return Err(WrapError::Token(CustomError::OwnerMismatch));
    }
    if user_inco.mint != inco_token_mint_key {
        return Err(WrapError::InvalidIncoMint);
    }
    if user_inco.owner != user {
        return Err(WrapError::Token(CustomError::OwnerMismatch));
    }
    match plain_transfer_precheck(user_spl, vault_spl, amount) {
        Err(e) => { return Err(WrapError::Token(e)) },
        Ok(()) => (),
    }
    match mint_to_precheck(inco_token_mint, inco_token_mint_key, user_inco, vault_key, ciphertext) {
        Err(e) => { return Err(WrapError::Token(e)) },
        Ok(()) => (),
    }
    let moved = plain_transfer(user_spl, vault_spl, amount);
    match moved {
        Ok(()) => (),
        Err(e) => { return Err(WrapError::Token(e)) },
    }
    let minted = mint_to(
        eng,
        inco_token_mint,
        inco_token_mint_key,
        user_inco,
        vault_key,
        ciphertext,
        input_type,
    );
    match minted {
        Ok(()) => (),
        Err(e) => { return Err(WrapError::Token(e)) },
    }
    Ok(())
}

/// Which result `unwrap_token` returns.
pub open spec fn unwrap_token_check(
    vault: Vault,
    spl_token_mint_key: Pubkey,
    inco_token_mint: IncoMint,
    inco_token_mint_key: Pubkey,
    user: Pubkey,
    user_spl: TokenAccount,
    vault_spl: TokenAccount,
    vault_spl_key: Pubkey,
    user_inco: IncoAccount,
    ciphertext: Ciphertext,
    plaintext_amount: u64,
) -> Result<(), WrapError> {
    if !vault.is_initialized {
        Err(WrapError::VaultNotInitialized)
    } else if vault.spl_token_mint != spl_token_mint_key {
        Err(WrapError::InvalidMint)
    } else if vault.inco_token_mint != inco_token_mint_key {
        Err(WrapError::InvalidIncoMint)
    } else if user_spl.mint != spl_token_mint_key {
        Err(WrapError::InvalidMint)
    } else if user_spl.owner != user {
        Err(WrapError::Token(CustomError::OwnerMismatch))
    } else if vault_spl_key != vault.vault_token_account {
        Err(WrapError::Token(CustomError::OwnerMismatch))
    } else if user_inco.mint != inco_token_mint_key {
        Err(WrapError::InvalidIncoMint)
    } else if user_inco.owner != user {
        Err(WrapError::Token(CustomError::OwnerMismatch))
    } else {
        match burn_check(user_inco, inco_token_mint, inco_token_mint_key, user, ciphertext) {
            Err(e) => Err(WrapError::Token(e)),
            Ok(()) => match plain_transfer_check(vault_spl, user_spl, plaintext_amount) {
                Err(e) => Err(WrapError::Token(e)),
                Ok(()) => Ok(()),
            },
        }
    }
}

/// Unwraps confidential funds back to plaintext: burns the sealed amount
/// from the user's confidential account — by clamped subtraction, so at
/// most the held balance burns — and releases the public amount from the
/// vault's escrow to the user. Atomic: on any error nothing moves.
pub fn unwrap_token(
    eng: &mut CipherEngine,
    vault: &Vault,
    spl_token_mint_key: Pubkey,
    inco_token_mint: &mut IncoMint,
    inco_token_mint_key: Pubkey,
    user: Pubkey,
    user_spl: &mut TokenAccount,
    vault_spl: &mut TokenAccount,
    vault_spl_key: Pubkey,
    user_inco: &mut IncoAccount,
    ciphertext: &Ciphertext,
    input_type: u8,
    plaintext_amount: u64,
) -> (r: Result<(), WrapError>)
    requires
        old(inco_token_mint).wf(*old(eng)),
        old(user_inco).wf(*old(eng)),
    ensures
        r == unwrap_token_check(
            *vault,
            spl_token_mint_key,
            *old(inco_token_mint),
            inco_token_mint_key,
            user,
            *old(user_spl),
            *old(vault_spl),
            vault_spl_key,
            *old(user_inco),
            *ciphertext,
            plaintext_amount,
        ),
        final(eng).extends(*old(eng)),
        final(inco_token_mint).wf(*final(eng)),
        final(user_inco).wf(*final(eng)),
        r is Err ==> *final(user_spl) == *old(user_spl) && *final(vault_spl) == *old(vault_spl)
            && *final(inco_token_mint) == *old(inco_token_mint) && *final(user_inco) == *old(
            user_inco,
        ) && *final(eng) == *old(eng),
        r is Ok ==> {
            let applied = clamped(old(eng).value_of(old(user_inco).amount), ciphertext.value);
            &&& final(eng).value_of(final(user_inco).amount) == old(eng).value_of(
                old(user_inco).amount,
            ) - applied
            &&& final(eng).value_of(final(inco_token_mint).supply) == wrap_sub(
                old(eng).value_of(old(inco_token_mint).supply),
                applied,
            )
            &&& *final(user_inco) == with_amount(*old(user_inco), final(user_inco).amount)
            &&& *final(inco_token_mint) == with_supply(
                *old(inco_token_mint),
                final(inco_token_mint).supply,
            )
            &&& *final(vault_spl) == (TokenAccount {
                amount: (old(vault_spl).amount - plaintext_amount) as u64,
                ..*old(vault_spl)
            })
            &&& *final(user_spl) == (TokenAccount {
                amount: (old(user_spl).amount + plaintext_amount) as u64,
                ..*old(user_spl)
            })
        },
{
    if !vault.is_initialized {
        return Err(WrapError::VaultNotInitialized);
    }
    if vault.spl_token_mint != spl_token_mint_key {
        return Err(WrapError::InvalidMint);
    }
    if vault.inco_token_mint != inco_token_mint_key {
        return Err(WrapError::InvalidIncoMint);
    }
    if user_spl.mint != spl_token_mint_key {
        return Err(WrapError::InvalidMint);
    }
    if user_spl.owner != user {
        return Err(WrapError::Token(CustomError::OwnerMismatch));
    }
    if vault_spl_key != vault.vault_token_account {
        return Err(WrapError::Token(CustomError::OwnerMismatch));
    }
    if user_inco.mint != inco_token_mint_key {
        return Err(WrapError::InvalidIncoMint);
    }
    if user_inco.owner != user {
        return Err(WrapError::Token(CustomError::OwnerMismatch));
    }
    match burn_precheck(user_inco, inco_token_mint, inco_token_mint_key, user, ciphertext) {
        Err(e) => { return Err(WrapError::Token(e)) },
        Ok(()) => (),
    }
    match plain_transfer_precheck(vault_spl, user_spl, plaintext_amount) {
        Err(e) => { return Err(WrapError::Token(e)) },
        Ok(()) => (),
    }
    let burned = burn(eng, user_inco, inco_token_mint, inco_token_mint_key, user, ciphertext,
        input_type);
    match burned {
        Ok(()) => (),
        Err(e) => { return Err(WrapError::Token(e)) },
    }
    let released = plain_transfer(vault_spl, user_spl, plaintext_amount);
    match released {
        Ok(()) => (),
        Err(e) => { return Err(WrapError::Token(e)) },
    }
    Ok(())
}

/// Which result `grant_allowance` returns.
pub open spec fn grant_allowance_check(
    inco_token_mint_key: Pubkey,
    user_inco: IncoAccount,
    user: Pubkey,
) -> Result<(), WrapError> {
    if user_inco.mint != inco_token_mint_key {
        Err(WrapError::InvalidIncoMint)
    } else if user_inco.owner != user {
        Err(WrapError::Token(CustomError::OwnerMismatch))
    } else {
        Ok(())
    }
}

/// Grants the user decryption access to their own balance handle — the
/// call a user makes after a wrap, unwrap or transfer to regain the
/// ability to read their updated balance off-system.
pub fn grant_allowance(
    eng: &mut CipherEngine,
    inco_token_mint_key: Pubkey,
    user_inco: &IncoAccount,
    user: Pubkey,
) -> (r: Result<(), WrapError>)
    requires
        old(eng).holds(user_inco.amount),
    ensures
        r == grant_allowance_check(inco_token_mint_key, *user_inco, user),
        final(eng).extends(*old(eng)),
        final(eng).values@ == old(eng).values@,
        final(eng).bools@ == old(eng).bools@,
        r is Err ==> *final(eng) == *old(eng),
        r is Ok ==> final(eng).granted(user_inco.amount, user),
{
    if user_inco.mint != inco_token_mint_key {
        return Err(WrapError::InvalidIncoMint);
    }
    if user_inco.owner != user {
        return Err(WrapError::Token(CustomError::OwnerMismatch));
    }
    eng.grant_decrypt(user_inco.amount, user);
    Ok(())
}

} // verus!
