use vstd::prelude::*;

use crate::cipher::{wrap_add, wrap_sub, CipherEngine, Handle};
use crate::errors::CustomError;
use crate::types::{Ciphertext, Pubkey};

verus! {

/// Lifecycle state of a token account.
#[derive(Clone, Copy, PartialEq, Eq, Structural, Debug)]
pub enum AccountState {
    Uninitialized,
    Initialized,
    Frozen,
}

/// A token mint: total supply is an encrypted handle; the authorities are
/// tagged optionals, never sentinel identities.
#[derive(Clone, Copy, Debug)]
pub struct IncoMint {
    pub mint_authority: Option<Pubkey>,
    pub supply: Handle,
    pub decimals: u8,
    pub is_initialized: bool,
    pub freeze_authority: Option<Pubkey>,
}

/// A token account: the balance and the delegated amount are encrypted
/// handles; everything else is plain and checked in the clear.
#[derive(Clone, Copy, Debug)]
pub struct IncoAccount {
    pub mint: Pubkey,
    pub owner: Pubkey,
    pub amount: Handle,
    pub delegate: Option<Pubkey>,
    pub state: AccountState,
    pub is_native: Option<u64>,
    pub delegated_amount: Handle,
    pub close_authority: Option<Pubkey>,
}

impl IncoMint {
    /// An initialized mint's supply handle is live in the service.
    pub open spec fn wf(self, eng: CipherEngine) -> bool {
        self.is_initialized ==> eng.holds(self.supply)
    }
}

impl IncoAccount {
    /// An account past creation keeps live handles in the service.
    pub open spec fn wf(self, eng: CipherEngine) -> bool {
        self.state != AccountState::Uninitialized ==> eng.holds(self.amount) && eng.holds(
            self.delegated_amount,
        )
    }

    /// `who` may move this account's funds: the owner, or the delegate.
    pub open spec fn spec_authorized(self, who: Pubkey) -> bool {
        self.owner == who || self.delegate == Some(who)
    }
}

/// The amount a clamped subtraction actually applies: the full request when
/// the balance covers it, zero otherwise. The comparison happens encrypted;
/// no caller learns which branch was taken.
pub open spec fn clamped(balance: u128, requested: u128) -> u128 {
    if requested <= balance {
        requested
    } else {
        0
    }
}

/// The account with only its balance handle replaced.
pub open spec fn with_amount(a: IncoAccount, h: Handle) -> IncoAccount {
    IncoAccount { amount: h, ..a }
}

/// The mint with only its supply handle replaced.
pub open spec fn with_supply(m: IncoMint, h: Handle) -> IncoMint {
    IncoMint { supply: h, ..m }
}

/// Which result `initialize_mint` returns, by the precedence the checks run
/// in.
pub open spec fn initialize_mint_check(mint: IncoMint) -> Result<(), CustomError> {
    if mint.is_initialized {
        Err(CustomError::AlreadyInUse)
    } else {
        Ok(())
    }
}

/// Fails if the mint record is already in use; otherwise seeds an encrypted
/// zero supply and installs the authorities.
pub fn initialize_mint(
    eng: &mut CipherEngine,
    mint: &mut IncoMint,
    decimals: u8,
    mint_authority: Pubkey,
    freeze_authority: Option<Pubkey>,
) -> (r: Result<(), CustomError>)
    requires
        old(mint).wf(*old(eng)),
    ensures
        r == initialize_mint_check(*old(mint)),
        final(eng).extends(*old(eng)),
        final(mint).wf(*final(eng)),
        r is Err ==> *final(mint) == *old(mint) && *final(eng) == *old(eng),
        r is Ok ==> {
            &&& final(eng).value_of(final(mint).supply) == 0
            &&& *final(mint) == (IncoMint {
                mint_authority: Some(mint_authority),
                supply: final(mint).supply,
                decimals,
                is_initialized: true,
                freeze_authority,
            })
        },
{
    if mint.is_initialized {
        return Err(CustomError::AlreadyInUse);
    }
    let zero_supply = eng.as_handle(0);
    mint.mint_authority = Some(mint_authority);
    mint.supply = zero_supply;
    mint.decimals = decimals;
    mint.is_initialized = true;
    mint.freeze_authority = freeze_authority;
    Ok(())
}

/// Which result `initialize_account` returns.
pub open spec fn initialize_account_check(account: IncoAccount, mint: IncoMint) -> Result<
    (),
    CustomError,
> {
    if !mint.is_initialized {
        Err(CustomError::UninitializedState)
    } else if account.state != AccountState::Uninitialized {
        Err(CustomError::AlreadyInUse)
    } else {
        Ok(())
    }
}

/// Fails unless the mint is initialized and the account untouched; seeds
/// encrypted zero balance and delegated amount and binds the account to its
/// mint and owner.
pub fn initialize_account(
    eng: &mut CipherEngine,
    account: &mut IncoAccount,
    mint: &IncoMint,
    mint_key: Pubkey,
    owner: Pubkey,
) -> (r: Result<(), CustomError>)
    ensures
        r == initialize_account_check(*old(account), *mint),
        final(eng).extends(*old(eng)),
        r is Err ==> *final(account) == *old(account) && *final(eng) == *old(eng),
        r is Ok ==> {
            &&& final(account).wf(*final(eng))
            &&& final(eng).value_of(final(account).amount) == 0
            &&& final(eng).value_of(final(account).delegated_amount) == 0
            &&& *final(account) == (IncoAccount {
                mint: mint_key,
                owner,
                amount: final(account).amount,
                delegate: None,
                state: AccountState::Initialized,
                is_native: None,
                delegated_amount: final(account).delegated_amount,
                close_authority: None,
            })
        },
{
    if !mint.is_initialized {
        return Err(CustomError::UninitializedState);
    }
    if !(account.state == AccountState::Uninitialized) {
        return Err(CustomError::AlreadyInUse);
    }
    let zero_amount = eng.as_handle(0);
    let zero_delegated = eng.as_handle(0);
    account.mint = mint_key;
    account.owner = owner;
    account.amount = zero_amount;
    account.delegate = None;
    account.state = AccountState::Initialized;
    account.is_native = None;
    account.delegated_amount = zero_delegated;
    account.close_authority = None;
    Ok(())
}

/// Which result `mint_to` returns. A frozen account refuses minting with
/// `AccountFrozen`; an absent mint authority means the supply is fixed.
pub open spec fn mint_to_check(
    mint: IncoMint,
    mint_key: Pubkey,
    account: IncoAccount,
    authority: Pubkey,
    ciphertext: Ciphertext,
) -> Result<(), CustomError> {
    if !mint.is_initialized {
        Err(CustomError::UninitializedState)
    } else if account.state == AccountState::Uninitialized {
        Err(CustomError::UninitializedState)
    } else if account.state == AccountState::Frozen {
        Err(CustomError::AccountFrozen)
    } else if account.mint != mint_key {
        Err(CustomError::MintMismatch)
    } else {
        match mint.mint_authority {
            None => Err(CustomError::FixedSupply),
            Some(auth) => if auth != authority {
                Err(CustomError::OwnerMismatch)
            } else if !ciphertext.spec_valid() {
                Err(CustomError::InvalidInstruction)
            } else {
                Ok(())
            },
        }
    }
}

/// Ingests the ciphertext and adds the sealed amount to both the mint's
/// supply and the account's balance. Only the mint authority may call.
pub fn mint_to(
    eng: &mut CipherEngine,
    mint: &mut IncoMint,
    mint_key: Pubkey,
    account: &mut IncoAccount,
    authority: Pubkey,
    ciphertext: &Ciphertext,
    input_type: u8,
) -> (r: Result<(), CustomError>)
    requires
        old(mint).wf(*old(eng)),
        old(account).wf(*old(eng)),
    ensures
        r == mint_to_check(*old(mint), mint_key, *old(account), authority, *ciphertext),
        final(eng).extends(*old(eng)),
        final(mint).wf(*final(eng)),
        final(account).wf(*final(eng)),
        r is Err ==> *final(mint) == *old(mint) && *final(account) == *old(account) && *final(eng)
            == *old(eng),
        r is Ok ==> {
            let amt = ciphertext.value;
            &&& final(eng).value_of(final(mint).supply) == wrap_add(
                old(eng).value_of(old(mint).supply),
                amt,
            )
            &&& final(eng).value_of(final(account).amount) == wrap_add(
                old(eng).value_of(old(account).amount),
                amt,
            )
            &&& *final(mint) == with_supply(*old(mint), final(mint).supply)
            &&& *final(account) == with_amount(*old(account), final(account).amount)
        },
{
    if !mint.is_initialized {
        return Err(CustomError::UninitializedState);
    }
    if account.state == AccountState::Uninitialized {
        return Err(CustomError::UninitializedState);
    }
    if account.state == AccountState::Frozen {
        return Err(CustomError::AccountFrozen);
    }
    if account.mint != mint_key {
        return Err(CustomError::MintMismatch);
    }
    let mint_authority = match mint.mint_authority {
        Some(auth) => auth,
        None => { return Err(CustomError::FixedSupply) },
    };
    if mint_authority != authority {
        return Err(CustomError::OwnerMismatch);
    }
    let amount = match eng.new_handle(ciphertext, input_type) {
        Ok(h) => h,
        Err(_) => { return Err(CustomError::InvalidInstruction) },
    };
    let new_supply = eng.e_add(mint.supply, amount, 0);
    mint.supply = new_supply;
    let new_balance = eng.e_add(account.amount, amount, 0);
    account.amount = new_balance;
    Ok(())
}

/// Evaluates `mint_to`'s admission checks without minting: a caller that
/// chains a mint behind other fund movements can establish up front that
/// the mint will go through, keeping the chain all-or-nothing.
pub fn mint_to_precheck(
    mint: &IncoMint,
    mint_key: Pubkey,
    account: &IncoAccount,
    authority: Pubkey,
    ciphertext: &Ciphertext,
) -> (r: Result<(), CustomError>)
    ensures
        r == mint_to_check(*mint, mint_key, *account, authority, *ciphertext),
{
    if !mint.is_initialized {
        return Err(CustomError::UninitializedState);
    }
    if account.state == AccountState::Uninitialized {
        return Err(CustomError::UninitializedState);
    }
    if account.state == AccountState::Frozen {
        return Err(CustomError::AccountFrozen);
    }
    if account.mint != mint_key {
        return Err(CustomError::MintMismatch);
    }
    let mint_authority = match mint.mint_authority {
        Some(auth) => auth,
        None => { return Err(CustomError::FixedSupply) },
    };
    if mint_authority != authority {
        return Err(CustomError::OwnerMismatch);
    }
    if !ciphertext.is_valid() {
        return Err(CustomError::InvalidInstruction);
    }
    Ok(())
}

/// Which result `transfer` returns. Frozen refuses with `AccountFrozen`;
/// the caller must be the source's owner or its delegate; a self-transfer
/// short-circuits successfully before any service call.
pub open spec fn transfer_check(
    source: IncoAccount,
    destination: IncoAccount,
    source_key: Pubkey,
    destination_key: Pubkey,
    authority: Pubkey,
    ciphertext: Ciphertext,
) -> Result<(), CustomError> {
    if source.state == AccountState::Uninitialized {
        Err(CustomError::UninitializedState)
    } else if source.state == AccountState::Frozen {
        Err(CustomError::AccountFrozen)
    } else if destination.state == AccountState::Uninitialized {
        Err(CustomError::UninitializedState)
    } else if destination.state == AccountState::Frozen {
        Err(CustomError::AccountFrozen)
    } else if source.mint != destination.mint {
        Err(CustomError::MintMismatch)
    } else if source_key == destination_key {
        Ok(())
    } else if !source.spec_authorized(authority) {
        Err(CustomError::OwnerMismatch)
    } else if !ciphertext.spec_valid() {
        Err(CustomError::InvalidInstruction)
    } else {
        Ok(())
    }
}

/// Moves the sealed amount from `source` to `destination` by clamped
/// subtraction: the service compares, selects the request or zero, and
/// applies it, so the source balance can never go negative and no caller
/// learns whether the request was covered.
pub fn transfer(
    eng: &mut CipherEngine,
    source: &mut IncoAccount,
    destination: &mut IncoAccount,
    source_key: Pubkey,
    destination_key: Pubkey,
    authority: Pubkey,
    ciphertext: &Ciphertext,
    input_type: u8,
) -> (r: Result<(), CustomError>)
    requires
        old(source).wf(*old(eng)),
        old(destination).wf(*old(eng)),
    ensures
        r == transfer_check(
            *old(source),
            *old(destination),
            source_key,
            destination_key,
            authority,
            *ciphertext,
        ),
        final(eng).extends(*old(eng)),
        final(source).wf(*final(eng)),
        final(destination).wf(*final(eng)),
        r is Err ==> *final(source) == *old(source) && *final(destination) == *old(destination)
            && *final(eng) == *old(eng),
        r is Ok && source_key == destination_key ==> *final(source) == *old(source)
            && *final(destination) == *old(destination) && *final(eng) == *old(eng),
        r is Ok && source_key != destination_key ==> {
            let applied = clamped(old(eng).value_of(old(source).amount), ciphertext.value);
            &&& final(eng).value_of(final(source).amount) == old(eng).value_of(old(source).amount)
                - applied
            &&& final(eng).value_of(final(destination).amount) == wrap_add(
                old(eng).value_of(old(destination).amount),
                applied,
            )
            &&& *final(source) == with_amount(*old(source), final(source).amount)
            &&& *final(destination) == with_amount(*old(destination), final(destination).amount)
        },
{
    if source.state == AccountState::Uninitialized {
        return Err(CustomError::UninitializedState);
    }
    if source.state == AccountState::Frozen {
        return Err(CustomError::AccountFrozen);
    }
    if destination.state == AccountState::Uninitialized {
        return Err(CustomError::UninitializedState);
    }
    if destination.state == AccountState::Frozen {
        return Err(CustomError::AccountFrozen);
    }
    if source.mint != destination.mint {
        return Err(CustomError::MintMismatch);
    }
    if source_key == destination_key {
        return Ok(());
    }
    let authorized = if source.owner == authority {
        true
    } else {
        match source.delegate {
            Some(delegate) => delegate == authority,
            None => false,
        }
    };
    if !authorized {
        return Err(CustomError::OwnerMismatch);
    }
    let amount = match eng.new_handle(ciphertext, input_type) {
        Ok(h) => h,
        Err(_) => { return Err(CustomError::InvalidInstruction) },
    };
    let has_sufficient = eng.e_ge(source.amount, amount, 0);
    let zero_value = eng.as_handle(0);
    let transfer_amount = eng.e_select(has_sufficient, amount, zero_value, 0);
    let new_source_balance = eng.e_sub(source.amount, transfer_amount, 0);
    source.amount = new_source_balance;
    let new_dest_balance = eng.e_add(destination.amount, transfer_amount, 0);
    destination.amount = new_dest_balance;
    Ok(())
}

/// Evaluates `transfer`'s admission checks without moving anything: every
/// input `transfer` rejects is visible in the plain fields, so a caller
/// about to chain several transfers can establish up front that each leg
/// will go through, keeping the whole chain all-or-nothing.
pub fn transfer_precheck(
    source: &IncoAccount,
    destination: &IncoAccount,
    source_key: Pubkey,
    destination_key: Pubkey,
    authority: Pubkey,
    ciphertext: &Ciphertext,
) -> (r: Result<(), CustomError>)
    ensures
        r == transfer_check(
            *source,
            *destination,
            source_key,
            destination_key,
            authority,
            *ciphertext,
        ),
{
    if source.state == AccountState::Uninitialized {
        return Err(CustomError::UninitializedState);
    }
    if source.state == AccountState::Frozen {
        return Err(CustomError::AccountFrozen);
    }
    if destination.state == AccountState::Uninitialized {
        return Err(CustomError::UninitializedState);
    }
    if destination.state == AccountState::Frozen {
        return Err(CustomError::AccountFrozen);
    }
    if source.mint != destination.mint {
        return Err(CustomError::MintMismatch);
    }
    if source_key == destination_key {
        return Ok(());
    }
    let authorized = if source.owner == authority {
        true
    } else {
        match source.delegate {
            Some(delegate) => delegate == authority,
            None => false,
        }
    };
    if !authorized {
        return Err(CustomError::OwnerMismatch);
    }
    if !ciphertext.is_valid() {
        return Err(CustomError::InvalidInstruction);
    }
    Ok(())
}

/// Which result `approve` returns.
pub open spec fn approve_check(source: IncoAccount, owner: Pubkey, ciphertext: Ciphertext) -> Result<
    (),
    CustomError,
> {
    if source.state == AccountState::Uninitialized {
        Err(CustomError::UninitializedState)
    } else if source.state == AccountState::Frozen {
        Err(CustomError::AccountFrozen)
    } else if source.owner != owner {
        Err(CustomError::OwnerMismatch)
    } else if !ciphertext.spec_valid() {
        Err(CustomError::InvalidInstruction)
    } else {
        Ok(())
    }
}

/// Records `delegate` with a sealed allowance amount. The delegate check on
/// later transfers is by identity; the recorded amount is a decryption
/// target for the delegate, not a balance that spends down.
pub fn approve(
    eng: &mut CipherEngine,
    source: &mut IncoAccount,
    delegate: Pubkey,
    owner: Pubkey,
    ciphertext: &Ciphertext,
    input_type: u8,
) -> (r: Result<(), CustomError>)
    requires
        old(source).wf(*old(eng)),
    ensures
        r == approve_check(*old(source), owner, *ciphertext),
        final(eng).extends(*old(eng)),
        final(source).wf(*final(eng)),
        r is Err ==> *final(source) == *old(source) && *final(eng) == *old(eng),
        r is Ok ==> {
            &&& final(eng).value_of(final(source).delegated_amount) == ciphertext.value
            &&& *final(source) == (IncoAccount {
                delegate: Some(delegate),
                delegated_amount: final(source).delegated_amount,
                ..*old(source)
            })
        },
{
    if source.state == AccountState::Uninitialized {
        return Err(CustomError::UninitializedState);
    }
    if source.state == AccountState::Frozen {
        return Err(CustomError::AccountFrozen);
    }
    if source.owner != owner {
        return Err(CustomError::OwnerMismatch);
    }
    let amount = match eng.new_handle(ciphertext, input_type) {
        Ok(h) => h,
        Err(_) => { return Err(CustomError::InvalidInstruction) },
    };
    source.delegate = Some(delegate);
    source.delegated_amount = amount;
    Ok(())
}

/// Which result `revoke` returns.
pub open spec fn revoke_check(source: IncoAccount, owner: Pubkey) -> Result<(), CustomError> {
    if source.state != AccountState::Initialized {
        Err(CustomError::UninitializedState)
    } else if source.owner != owner {
        Err(CustomError::OwnerMismatch)
    } else {
        Ok(())
    }
}

/// Clears the delegate and reseeds the delegated amount with encrypted zero.
pub fn revoke(eng: &mut CipherEngine, source: &mut IncoAccount, owner: Pubkey) -> (r: Result<
    (),
    CustomError,
>)
    requires
        old(source).wf(*old(eng)),
    ensures
        r == revoke_check(*old(source), owner),
        final(eng).extends(*old(eng)),
        final(source).wf(*final(eng)),
        r is Err ==> *final(source) == *old(source) && *final(eng) == *old(eng),
        r is Ok ==> {
            &&& final(eng).value_of(final(source).delegated_amount) == 0
            &&& *final(source) == (IncoAccount {
                delegate: None,
                delegated_amount: final(source).delegated_amount,
                ..*old(source)
            })
        },
{
    if !(source.state == AccountState::Initialized) {
        return Err(CustomError::UninitializedState);
    }
    if source.owner != owner {
        return Err(CustomError::OwnerMismatch);
    }
    let zero_delegated = eng.as_handle(0);
    source.delegate = None;
    source.delegated_amount = zero_delegated;
    Ok(())
}

/// Which result `burn` returns.
pub open spec fn burn_check(
    account: IncoAccount,
    mint: IncoMint,
    mint_key: Pubkey,
    authority: Pubkey,
    ciphertext: Ciphertext,
) -> Result<(), CustomError> {
    if account.state == AccountState::Uninitialized {
        Err(CustomError::UninitializedState)
    } else if account.state == AccountState::Frozen {
        Err(CustomError::AccountFrozen)
    } else if account.mint != mint_key {
        Err(CustomError::MintMismatch)
    } else if !mint.is_initialized {
        Err(CustomError::UninitializedState)
    } else if !account.spec_authorized(authority) {
        Err(CustomError::OwnerMismatch)
    } else if !ciphertext.spec_valid() {
        Err(CustomError::InvalidInstruction)
    } else {
        Ok(())
    }
}

/// Burns by the same clamped subtraction as `transfer`, against both the
/// account's balance and the mint's supply: at most the held balance is
/// burned, and the supply moves by exactly the amount the balance moved.
pub fn burn(
    eng: &mut CipherEngine,
    account: &mut IncoAccount,
    mint: &mut IncoMint,
    mint_key: Pubkey,
    authority: Pubkey,
    ciphertext: &Ciphertext,
    input_type: u8,
) -> (r: Result<(), CustomError>)
    requires
        old(account).wf(*old(eng)),
        old(mint).wf(*old(eng)),
    ensures
        r == burn_check(*old(account), *old(mint), mint_key, authority, *ciphertext),
        final(eng).extends(*old(eng)),
        final(account).wf(*final(eng)),
        final(mint).wf(*final(eng)),
        r is Err ==> *final(account) == *old(account) && *final(mint) == *old(mint) && *final(eng)
            == *old(eng),
        r is Ok ==> {
            let applied = clamped(old(eng).value_of(old(account).amount), ciphertext.value);
            &&& final(eng).value_of(final(account).amount) == old(eng).value_of(old(account).amount)
                - applied
            &&& final(eng).value_of(final(mint).supply) == wrap_sub(
                old(eng).value_of(old(mint).supply),
                applied,
            )
            &&& *final(account) == with_amount(*old(account), final(account).amount)
            &&& *final(mint) == with_supply(*old(mint), final(mint).supply)
        },
{
    if account.state == AccountState::Uninitialized {
        return Err(CustomError::UninitializedState);
    }
    if account.state == AccountState::Frozen {
        return Err(CustomError::AccountFrozen);
    }
    if account.mint != mint_key {
        return Err(CustomError::MintMismatch);
    }
    if !mint.is_initialized {
        return Err(CustomError::UninitializedState);
    }
    let authorized = if account.owner == authority {
        true
    } else {
        match account.delegate {
            Some(delegate) => delegate == authority,
            None => false,
        }
    };
    if !authorized {
        return Err(CustomError::OwnerMismatch);
    }
    let amount = match eng.new_handle(ciphertext, input_type) {
        Ok(h) => h,
        Err(_) => { return Err(CustomError::InvalidInstruction) },
    };
    let has_sufficient = eng.e_ge(account.amount, amount, 0);
    let zero_value = eng.as_handle(0);
    let burn_amount = eng.e_select(has_sufficient, amount, zero_value, 0);
    let new_balance = eng.e_sub(account.amount, burn_amount, 0);
    account.amount = new_balance;
    let new_supply = eng.e_sub(mint.supply, burn_amount, 0);
    mint.supply = new_supply;
    Ok(())
}

/// Evaluates `burn`'s admission checks without burning, for callers that
/// chain a burn with other fund movements all-or-nothing.
pub fn burn_precheck(
    account: &IncoAccount,
    mint: &IncoMint,
    mint_key: Pubkey,
    authority: Pubkey,
    ciphertext: &Ciphertext,
) -> (r: Result<(), CustomError>)
    ensures
        r == burn_check(*account, *mint, mint_key, authority, *ciphertext),
{
    if account.state == AccountState::Uninitialized {
        return Err(CustomError::UninitializedState);
    }
    if account.state == AccountState::Frozen {
        return Err(CustomError::AccountFrozen);
    }
    if account.mint != mint_key {
        return Err(CustomError::MintMismatch);
    }
    if !mint.is_initialized {
        return Err(CustomError::UninitializedState);
    }
    let authorized = if account.owner == authority {
        true
    } else {
        match account.delegate {
            Some(delegate) => delegate == authority,
            None => false,
        }
    };
    if !authorized {
        return Err(CustomError::OwnerMismatch);
    }
    if !ciphertext.is_valid() {
        return Err(CustomError::InvalidInstruction);
    }
    Ok(())
}

/// Which result `freeze_account` returns.
pub open spec fn freeze_account_check(
    account: IncoAccount,
    mint: IncoMint,
    mint_key: Pubkey,
    authority: Pubkey,
) -> Result<(), CustomError> {
    if account.state != AccountState::Initialized {
        Err(CustomError::UninitializedState)
    } else if account.mint != mint_key {
        Err(CustomError::MintMismatch)
    } else if !mint.is_initialized {
        Err(CustomError::UninitializedState)
    } else {
        match mint.freeze_authority {
            None => Err(CustomError::MintCannotFreeze),
            Some(auth) => if auth != authority {
                Err(CustomError::OwnerMismatch)
            } else {
                Ok(())
            },
        }
    }
}

/// Freezes an initialized account; only the mint's freeze authority may,
/// and a mint without one cannot freeze at all.
pub fn freeze_account(
    account: &mut IncoAccount,
    mint: &IncoMint,
    mint_key: Pubkey,
    authority: Pubkey,
) -> (r: Result<(), CustomError>)
    ensures
        r == freeze_account_check(*old(account), *mint, mint_key, authority),
        r is Err ==> *final(account) == *old(account),
        r is Ok ==> *final(account) == (IncoAccount {
            state: AccountState::Frozen,
            ..*old(account)
        }),
{
    if !(account.state == AccountState::Initialized) {
        return Err(CustomError::UninitializedState);
    }
    if account.mint != mint_key {
        return Err(CustomError::MintMismatch);
    }
    if !mint.is_initialized {
        return Err(CustomError::UninitializedState);
    }
    let freeze_authority = match mint.freeze_authority {
        Some(auth) => auth,
        None => { return Err(CustomError::MintCannotFreeze) },
    };
    if freeze_authority != authority {
        return Err(CustomError::OwnerMismatch);
    }
    account.state = AccountState::Frozen;
    Ok(())
}

/// Which result `thaw_account` returns.
pub open spec fn thaw_account_check(
    account: IncoAccount,
    mint: IncoMint,
    mint_key: Pubkey,
    authority: Pubkey,
) -> Result<(), CustomError> {
    if account.state != AccountState::Frozen {
        Err(CustomError::InvalidState)
    } else if account.mint != mint_key {
        Err(CustomError::MintMismatch)
    } else if !mint.is_initialized {
        Err(CustomError::UninitializedState)
    } else {
        match mint.freeze_authority {
            None => Err(CustomError::MintCannotFreeze),
            Some(auth) => if auth != authority {
                Err(CustomError::OwnerMismatch)
            } else {
                Ok(())
            },
        }
    }
}

/// Thaws a frozen account back to `Initialized`; freeze-authority gated.
pub fn thaw_account(
    account: &mut IncoAccount,
    mint: &IncoMint,
    mint_key: Pubkey,
    authority: Pubkey,
) -> (r: Result<(), CustomError>)
    ensures
        r == thaw_account_check(*old(account), *mint, mint_key, authority),
        r is Err ==> *final(account) == *old(account),
        r is Ok ==> *final(account) == (IncoAccount {
            state: AccountState::Initialized,
            ..*old(account)
        }),
{
    if !(account.state == AccountState::Frozen) {
        return Err(CustomError::InvalidState);
    }
    if account.mint != mint_key {
        return Err(CustomError::MintMismatch);
    }
    if !mint.is_initialized {
        return Err(CustomError::UninitializedState);
    }
    let freeze_authority = match mint.freeze_authority {
        Some(auth) => auth,
        None => { return Err(CustomError::MintCannotFreeze) },
    };
    if freeze_authority != authority {
        return Err(CustomError::OwnerMismatch);
    }
    account.state = AccountState::Initialized;
    Ok(())
}

/// Which result `close_account` returns.
pub open spec fn close_account_check(
    account: IncoAccount,
    authority: Pubkey,
    account_lamports: u64,
    destination_lamports: u64,
) -> Result<u64, CustomError> {
    if account.state != AccountState::Initialized {
        Err(CustomError::UninitializedState)
    } else if !(account.owner == authority || account.close_authority == Some(authority)) {
        Err(CustomError::OwnerMismatch)
    } else if account_lamports + destination_lamports > u64::MAX {
        Err(CustomError::Overflow)
    } else {
        Ok((account_lamports + destination_lamports) as u64)
    }
}

/// Sweeps the account's storage deposit to the destination, returning the
/// destination's new lamport balance; the closed account's balance drops to
/// zero on the host ledger. The caller must be the owner or the close
/// authority. The encrypted balance handle is not required to be zero:
/// closing forfeits access to whatever it still seals.
pub fn close_account(
    account: &IncoAccount,
    authority: Pubkey,
    account_lamports: u64,
    destination_lamports: u64,
) -> (r: Result<u64, CustomError>)
    ensures
        r == close_account_check(*account, authority, account_lamports, destination_lamports),
{
    if !(account.state == AccountState::Initialized) {
        return Err(CustomError::UninitializedState);
    }
    let is_owner = account.owner == authority;
    let is_close_authority = match account.close_authority {
        Some(close_auth) => close_auth == authority,
        None => false,
    };
    if !(is_owner || is_close_authority) {
        return Err(CustomError::OwnerMismatch);
    }
    match destination_lamports.checked_add(account_lamports) {
        Some(total) => Ok(total),
        None => Err(CustomError::Overflow),
    }
}

/// Which result `set_mint_authority` returns.
pub open spec fn set_mint_authority_check(mint: IncoMint, current_authority: Pubkey) -> Result<
    (),
    CustomError,
> {
    if !mint.is_initialized {
        Err(CustomError::UninitializedState)
    } else {
        match mint.mint_authority {
            None => Err(CustomError::FixedSupply),
            Some(auth) => if auth != current_authority {
                Err(CustomError::OwnerMismatch)
            } else {
                Ok(())
            },
        }
    }
}

/// Rotates or clears the mint authority; a mint whose authority is already
/// absent has a fixed supply forever.
pub fn set_mint_authority(
    mint: &mut IncoMint,
    current_authority: Pubkey,
    new_authority: Option<Pubkey>,
) -> (r: Result<(), CustomError>)
    ensures
        r == set_mint_authority_check(*old(mint), current_authority),
        r is Err ==> *final(mint) == *old(mint),
        r is Ok ==> *final(mint) == (IncoMint { mint_authority: new_authority, ..*old(mint) }),
{
    if !mint.is_initialized {
        return Err(CustomError::UninitializedState);
    }
    let current = match mint.mint_authority {
        Some(auth) => auth,
        None => { return Err(CustomError::FixedSupply) },
    };
    if current != current_authority {
        return Err(CustomError::OwnerMismatch);
    }
    mint.mint_authority = new_authority;
    Ok(())
}

/// Which result `set_freeze_authority` returns.
pub open spec fn set_freeze_authority_check(mint: IncoMint, current_authority: Pubkey) -> Result<
    (),
    CustomError,
> {
    if !mint.is_initialized {
        Err(CustomError::UninitializedState)
    } else {
        match mint.freeze_authority {
            None => Err(CustomError::MintCannotFreeze),
            Some(auth) => if auth != current_authority {
                Err(CustomError::OwnerMismatch)
            } else {
                Ok(())
            },
        }
    }
}

/// Rotates or clears the freeze authority; a mint that cannot freeze stays
/// that way.
pub fn set_freeze_authority(
    mint: &mut IncoMint,
    current_authority: Pubkey,
    new_authority: Option<Pubkey>,
) -> (r: Result<(), CustomError>)
    ensures
        r == set_freeze_authority_check(*old(mint), current_authority),
        r is Err ==> *final(mint) == *old(mint),
        r is Ok ==> *final(mint) == (IncoMint { freeze_authority: new_authority, ..*old(mint) }),
{
    if !mint.is_initialized {
        return Err(CustomError::UninitializedState);
    }
    let current = match mint.freeze_authority {
        Some(auth) => auth,
        None => { return Err(CustomError::MintCannotFreeze) },
    };
    if current != current_authority {
        return Err(CustomError::OwnerMismatch);
    }
    mint.freeze_authority = new_authority;
    Ok(())
}

/// Which result `set_account_owner` returns.
pub open spec fn set_account_owner_check(account: IncoAccount, current_owner: Pubkey) -> Result<
    (),
    CustomError,
> {
    if account.state != AccountState::Initialized {
        Err(CustomError::UninitializedState)
    } else if account.owner != current_owner {
        Err(CustomError::OwnerMismatch)
    } else {
        Ok(())
    }
}

/// Hands the account to a new owner; only the current owner may.
pub fn set_account_owner(account: &mut IncoAccount, current_owner: Pubkey, new_owner: Pubkey) -> (r:
    Result<(), CustomError>)
    ensures
        r == set_account_owner_check(*old(account), current_owner),
        r is Err ==> *final(account) == *old(account),
        r is Ok ==> *final(account) == (IncoAccount { owner: new_owner, ..*old(account) }),
{
    if !(account.state == AccountState::Initialized) {
        return Err(CustomError::UninitializedState);
    }
    if account.owner != current_owner {
        return Err(CustomError::OwnerMismatch);
    }
    account.owner = new_owner;
    Ok(())
}

/// Which result `set_close_authority` returns.
pub open spec fn set_close_authority_check(account: IncoAccount, owner: Pubkey) -> Result<
    (),
    CustomError,
> {
    if account.state != AccountState::Initialized {
        Err(CustomError::UninitializedState)
    } else if account.owner != owner {
        Err(CustomError::OwnerMismatch)
    } else {
        Ok(())
    }
}

/// Sets or clears who may close the account besides the owner.
pub fn set_close_authority(
    account: &mut IncoAccount,
    owner: Pubkey,
    new_authority: Option<Pubkey>,
) -> (r: Result<(), CustomError>)
    ensures
        r == set_close_authority_check(*old(account), owner),
        r is Err ==> *final(account) == *old(account),
        r is Ok ==> *final(account) == (IncoAccount {
            close_authority: new_authority,
            ..*old(account)
        }),
{
    if !(account.state == AccountState::Initialized) {
        return Err(CustomError::UninitializedState);
    }
    if account.owner != owner {
        return Err(CustomError::OwnerMismatch);
    }
    account.close_authority = new_authority;
    Ok(())
}

/// Non-negativity of clamped subtraction: whatever is requested, the amount
/// applied never exceeds the balance it is taken from, so the balance left
/// after any transfer, burn or match fill is an exact difference, at least
/// zero and at most the old balance. Chained over any sequence of calls,
/// a source balance can never go negative.
pub proof fn lemma_clamped_spend_in_range(balance: u128, requested: u128)
    ensures
        clamped(balance, requested) <= balance,
        0 <= balance - clamped(balance, requested),
        balance - clamped(balance, requested) <= balance,
        wrap_sub(balance, clamped(balance, requested)) == balance - clamped(balance, requested),
{
}

/// The balance left after a sequence of clamped spends — the spec-level
/// fold of what `transfer` and `burn` do to a source balance, one sealed
/// request after another.
pub open spec fn balance_after_spends(balance: u128, requests: Seq<u128>) -> u128
    decreases requests.len(),
{
    if requests.len() == 0 {
        balance
    } else {
        balance_after_spends(
            (balance - clamped(balance, requests[0])) as u128,
            requests.drop_first(),
        )
    }
}

/// Non-negativity over whole histories: under any sequence of clamped
/// spends — transfers out, burns, match fills — a balance never exceeds
/// where it started and never drops below zero; no sequence of requests,
/// however large, can drive it negative.
pub proof fn lemma_non_negative_over_sequence(balance: u128, requests: Seq<u128>)
    ensures
        0 <= balance_after_spends(balance, requests),
        balance_after_spends(balance, requests) <= balance,
    decreases requests.len(),
{
    if requests.len() > 0 {
        lemma_non_negative_over_sequence(
            (balance - clamped(balance, requests[0])) as u128,
            requests.drop_first(),
        );
    }
}

/// Conservation across a transfer: the source's loss is the destination's
/// gain, so the sum of the two balances is unchanged — provided the
/// destination's side does not wrap past 2^128, which the hypothesis rules
/// out. (With 2^128 - 1 already at the destination and a covered request of
/// 1, the modular sum wraps and the plain sum is not preserved.)
pub proof fn lemma_transfer_conserves(
    source_balance: u128,
    destination_balance: u128,
    requested: u128,
)
    requires
        destination_balance + clamped(source_balance, requested) <= u128::MAX,
    ensures
        (source_balance - clamped(source_balance, requested)) + wrap_add(
            destination_balance,
            clamped(source_balance, requested),
        ) == source_balance + destination_balance,
{
}

/// Conservation across a burn: the supply moves by exactly the delta the
/// account's balance moved — provided the supply covers the applied amount,
/// as it does in every state reached by mint and burn alone.
pub proof fn lemma_burn_deltas_match(balance: u128, supply: u128, requested: u128)
    requires
        clamped(balance, requested) <= supply,
    ensures
        wrap_sub(supply, clamped(balance, requested)) == supply - clamped(balance, requested),
        supply - wrap_sub(supply, clamped(balance, requested)) == balance - (balance - clamped(
            balance,
            requested,
        )),
{
}

/// Conservation across a mint: supply and balance grow by the same sealed
/// amount — provided neither side wraps past 2^128.
pub proof fn lemma_mint_deltas_match(balance: u128, supply: u128, amount: u128)
    requires
        supply + amount <= u128::MAX,
        balance + amount <= u128::MAX,
    ensures
        wrap_add(supply, amount) - supply == wrap_add(balance, amount) - balance,
        wrap_add(supply, amount) - supply == amount,
{
}

} // verus!
