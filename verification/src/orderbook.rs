use vstd::prelude::*;

use crate::cipher::{wrap_add, CipherEngine, Handle};
use crate::errors::OrderbookError;
use crate::token::{clamped, transfer, transfer_check, transfer_precheck, with_amount, IncoAccount,
    IncoMint};
use crate::types::{Ciphertext, Pubkey};

verus! {

/// Side of an order: a bid escrows quote funds, an ask escrows base funds.
#[derive(Clone, Copy, PartialEq, Eq, Structural, Debug)]
pub enum Side {
    Bid,
    Ask,
}

/// The side a wire byte encodes; callers are rejected earlier for bytes
/// above 1.
pub open spec fn spec_side(side: u8) -> Side {
    if side == 0 {
        Side::Bid
    } else {
        Side::Ask
    }
}

/// Global engine state: the admin doubles as the designated matcher; the
/// vault topology is pinned at initialization and every fund-moving call
/// re-checks accounts against it in the clear.
#[derive(Clone, Copy, Debug)]
pub struct OrderbookState {
    pub admin: Pubkey,
    pub order_seq: u64,
    pub require_attestation: bool,
    pub inco_base_mint: Pubkey,
    pub inco_quote_mint: Pubkey,
    pub inco_vault_authority: Pubkey,
    pub inco_base_vault: Pubkey,
    pub inco_quote_vault: Pubkey,
}

/// A resting order. The remaining size is an encrypted handle that only
/// ever decreases by clamped subtraction after placement; price and side
/// are immutable once placed. The claim fields are stamped at fill time and
/// spent by `maker_claim_filled_order` exactly once.
#[derive(Debug)]
pub struct Order {
    pub owner: Pubkey,
    pub side: Side,
    pub is_open: bool,
    pub is_filled: bool,
    pub is_claimed: bool,
    pub claim_input_type: u8,
    pub claim_plaintext_amount: u64,
    pub claim_ciphertext: Ciphertext,
    pub price: u64,
    pub seq: u64,
    pub remaining_handle: Handle,
}

impl Order {
    /// An open order keeps a live remaining-size handle in the service.
    pub open spec fn wf(self, eng: CipherEngine) -> bool {
        self.is_open ==> eng.holds(self.remaining_handle)
    }
}

impl Default for Order {
    /// A blank order record: closed, unfilled, unclaimed, with an empty
    /// claim ciphertext and a null handle.
    fn default() -> (r: Order)
        ensures
            r.owner == (Pubkey { id: 0 }),
            r.side == Side::Bid,
            !r.is_open,
            !r.is_filled,
            !r.is_claimed,
            r.claim_input_type == 0,
            r.claim_plaintext_amount == 0,
            r.claim_ciphertext.bytes@.len() == 0,
            r.claim_ciphertext.value == 0,
            r.price == 0,
            r.seq == 0,
            r.remaining_handle == (Handle { idx: 0 }),
    {
        Order {
            owner: Pubkey { id: 0 },
            side: Side::Bid,
            is_open: false,
            is_filled: false,
            is_claimed: false,
            claim_input_type: 0,
            claim_plaintext_amount: 0,
            claim_ciphertext: Ciphertext { bytes: Vec::new(), value: 0 },
            price: 0,
            seq: 0,
            remaining_handle: Handle { idx: 0 },
        }
    }
}

/// Registration of a trader's two ledger accounts with the engine.
#[derive(Clone, Copy, Debug)]
pub struct DepositAccount {
    pub user: Pubkey,
    pub base_inco_account: Pubkey,
    pub quote_inco_account: Pubkey,
}

/// The next order sequence number; the counter wraps rather than failing.
pub open spec fn seq_next(seq: u64) -> u64 {
    if seq == u64::MAX {
        0
    } else {
        (seq + 1) as u64
    }
}

/// Which error a plain-field account check yields: the owner is checked
/// before the mint, as on every fund-moving path.
pub open spec fn account_check(
    account: IncoAccount,
    expected_owner: Pubkey,
    expected_mint: Pubkey,
) -> Result<(), OrderbookError> {
    if account.owner != expected_owner {
        Err(OrderbookError::InvalidIncoAccountOwner)
    } else if account.mint != expected_mint {
        Err(OrderbookError::InvalidIncoAccountMint)
    } else {
        Ok(())
    }
}

/// Checks an account's plain owner and mint fields against the identities
/// the engine expects on this hop. The encrypted amount stays hidden; the
/// account topology is validated in the clear on every hop.
pub fn ensure_inco_account(
    account: &IncoAccount,
    expected_owner: Pubkey,
    expected_mint: Pubkey,
) -> (r: Result<(), OrderbookError>)
    ensures
        r == account_check(*account, expected_owner, expected_mint),
{
    if account.owner != expected_owner {
        return Err(OrderbookError::InvalidIncoAccountOwner);
    }
    if account.mint != expected_mint {
        return Err(OrderbookError::InvalidIncoAccountMint);
    }
    Ok(())
}

/// Which result `initialize` returns.
pub open spec fn initialize_check(
    base_mint: IncoMint,
    quote_mint: IncoMint,
    base_vault: IncoAccount,
    quote_vault: IncoAccount,
    base_mint_key: Pubkey,
    quote_mint_key: Pubkey,
    vault_authority: Pubkey,
) -> Result<(), OrderbookError> {
    if !base_mint.is_initialized || !quote_mint.is_initialized {
        Err(OrderbookError::InvalidIncoMintData)
    } else if base_vault.mint != base_mint_key {
        Err(OrderbookError::InvalidIncoAccountMint)
    } else if quote_vault.mint != quote_mint_key {
        Err(OrderbookError::InvalidIncoAccountMint)
    } else if base_vault.owner != vault_authority {
        Err(OrderbookError::InvalidIncoAccountOwner)
    } else if quote_vault.owner != vault_authority {
        Err(OrderbookError::InvalidIncoAccountOwner)
    } else {
        Ok(())
    }
}

/// Binds the engine to its two mints, its vault pair and the vault
/// authority, after checking in the clear that both mints are live and both
/// vaults belong to the authority and the right mint. Seeds the sequence
/// counter at zero.
pub fn initialize(
    state: &mut OrderbookState,
    admin: Pubkey,
    require_attestation: bool,
    base_mint: &IncoMint,
    quote_mint: &IncoMint,
    base_mint_key: Pubkey,
    quote_mint_key: Pubkey,
    vault_authority: Pubkey,
    base_vault: &IncoAccount,
    quote_vault: &IncoAccount,
    base_vault_key: Pubkey,
    quote_vault_key: Pubkey,
) -> (r: Result<(), OrderbookError>)
    ensures
        r == initialize_check(
            *base_mint,
            *quote_mint,
            *base_vault,
            *quote_vault,
            base_mint_key,
            quote_mint_key,
            vault_authority,
        ),
        r is Err ==> *final(state) == *old(state),
        r is Ok ==> *final(state) == (OrderbookState {
            admin,
            order_seq: 0,
            require_attestation,
            inco_base_mint: base_mint_key,
            inco_quote_mint: quote_mint_key,
            inco_vault_authority: vault_authority,
            inco_base_vault: base_vault_key,
            inco_quote_vault: quote_vault_key,
        }),
{
    if !base_mint.is_initialized || !quote_mint.is_initialized {
        return Err(OrderbookError::InvalidIncoMintData);
    }
    if base_vault.mint != base_mint_key {
        return Err(OrderbookError::InvalidIncoAccountMint);
    }
    if quote_vault.mint != quote_mint_key {
        return Err(OrderbookError::InvalidIncoAccountMint);
    }
    if base_vault.owner != vault_authority {
        return Err(OrderbookError::InvalidIncoAccountOwner);
    }
    if quote_vault.owner != vault_authority {
        return Err(OrderbookError::InvalidIncoAccountOwner);
    }
    state.admin = admin;
    state.order_seq = 0;
    state.require_attestation = require_attestation;
    state.inco_base_mint = base_mint_key;
    state.inco_quote_mint = quote_mint_key;
    state.inco_vault_authority = vault_authority;
    state.inco_base_vault = base_vault_key;
    state.inco_quote_vault = quote_vault_key;
    Ok(())
}

/// Which result `initialize_deposit` returns.
pub open spec fn initialize_deposit_check(
    state: OrderbookState,
    user: Pubkey,
    base_account: IncoAccount,
    quote_account: IncoAccount,
) -> Result<(), OrderbookError> {
    if base_account.owner != user {
        Err(OrderbookError::InvalidIncoAccountOwner)
    } else if quote_account.owner != user {
        Err(OrderbookError::InvalidIncoAccountOwner)
    } else if base_account.mint != state.inco_base_mint {
        Err(OrderbookError::InvalidIncoAccountMint)
    } else if quote_account.mint != state.inco_quote_mint {
        Err(OrderbookError::InvalidIncoAccountMint)
    } else {
        Ok(())
    }
}

/// Registers a trader's base and quote ledger accounts after checking they
/// belong to the trader and to the engine's mints.
pub fn initialize_deposit(
    state: &OrderbookState,
    user: Pubkey,
    base_account: &IncoAccount,
    quote_account: &IncoAccount,
    base_account_key: Pubkey,
    quote_account_key: Pubkey,
) -> (r: Result<DepositAccount, OrderbookError>)
    ensures
        r is Ok == (initialize_deposit_check(*state, user, *base_account, *quote_account) is Ok),
        r matches Err(e) ==> Err::<(), OrderbookError>(e) == initialize_deposit_check(
            *state,
            user,
            *base_account,
            *quote_account,
        ),
        r matches Ok(deposit) ==> deposit == (DepositAccount {
            user,
            base_inco_account: base_account_key,
            quote_inco_account: quote_account_key,
        }),
{
    if base_account.owner != user {
        return Err(OrderbookError::InvalidIncoAccountOwner);
    }
    if quote_account.owner != user {
        return Err(OrderbookError::InvalidIncoAccountOwner);
    }
    if base_account.mint != state.inco_base_mint {
        return Err(OrderbookError::InvalidIncoAccountMint);
    }
    if quote_account.mint != state.inco_quote_mint {
        return Err(OrderbookError::InvalidIncoAccountMint);
    }
    Ok(DepositAccount { user, base_inco_account: base_account_key, quote_inco_account: quote_account_key })
}

/// Which result `place_order` returns.
pub open spec fn place_order_check(
    state: OrderbookState,
    trader: Pubkey,
    side: u8,
    size_ciphertext: Ciphertext,
    escrow_ciphertext: Ciphertext,
    trader_base: IncoAccount,
    trader_base_key: Pubkey,
    trader_quote: IncoAccount,
    trader_quote_key: Pubkey,
    base_vault: IncoAccount,
    quote_vault: IncoAccount,
) -> Result<(), OrderbookError> {
    if side >= 2 {
        Err(OrderbookError::InvalidSide)
    } else if !escrow_ciphertext.spec_valid() {
        Err(OrderbookError::InvalidEscrowCiphertext)
    } else if !size_ciphertext.spec_valid() {
        Err(OrderbookError::InvalidEscrowCiphertext)
    } else if side == 0 {
        match account_check(trader_quote, trader, state.inco_quote_mint) {
            Err(e) => Err(e),
            Ok(()) => match account_check(
                quote_vault,
                state.inco_vault_authority,
                state.inco_quote_mint,
            ) {
                Err(e) => Err(e),
                Ok(()) => match transfer_check(
                    trader_quote,
                    quote_vault,
                    trader_quote_key,
                    state.inco_quote_vault,
                    trader,
                    escrow_ciphertext,
                ) {
                    Err(e) => Err(OrderbookError::Token(e)),
                    Ok(()) => Ok(()),
                },
            },
        }
    } else {
        match account_check(trader_base, trader, state.inco_base_mint) {
            Err(e) => Err(e),
            Ok(()) => match account_check(
                base_vault,
                state.inco_vault_authority,
                state.inco_base_mint,
            ) {
                Err(e) => Err(e),
                Ok(()) => match transfer_check(
                    trader_base,
                    base_vault,
                    trader_base_key,
                    state.inco_base_vault,
                    trader,
                    escrow_ciphertext,
                ) {
                    Err(e) => Err(OrderbookError::Token(e)),
                    Ok(()) => Ok(()),
                },
            },
        }
    }
}

/// Places an order: ingests the sealed size into the order's remaining
/// handle, escrows the sealed escrow amount from the trader into the
/// side-appropriate vault by a ledger transfer, stamps the current sequence
/// number, and advances the global counter. A bid escrows quote funds; an
/// ask escrows base funds.
pub fn place_order(
    eng: &mut CipherEngine,
    state: &mut OrderbookState,
    trader: Pubkey,
    side: u8,
    price: u64,
    size_ciphertext: &Ciphertext,
    input_type: u8,
    escrow_ciphertext: &Ciphertext,
    escrow_input_type: u8,
    trader_base: &mut IncoAccount,
    trader_base_key: Pubkey,
    trader_quote: &mut IncoAccount,
    trader_quote_key: Pubkey,
    base_vault: &mut IncoAccount,
    quote_vault: &mut IncoAccount,
) -> (r: Result<Order, OrderbookError>)
    requires
        old(trader_base).wf(*old(eng)),
        old(trader_quote).wf(*old(eng)),
        old(base_vault).wf(*old(eng)),
        old(quote_vault).wf(*old(eng)),
    ensures
        r is Ok == (place_order_check(
            *old(state),
            trader,
            side,
            *size_ciphertext,
            *escrow_ciphertext,
            *old(trader_base),
            trader_base_key,
            *old(trader_quote),
            trader_quote_key,
            *old(base_vault),
            *old(quote_vault),
        ) is Ok),
        r matches Err(e) ==> Err::<(), OrderbookError>(e) == place_order_check(
            *old(state),
            trader,
            side,
            *size_ciphertext,
            *escrow_ciphertext,
            *old(trader_base),
            trader_base_key,
            *old(trader_quote),
            trader_quote_key,
            *old(base_vault),
            *old(quote_vault),
        ),
        final(eng).extends(*old(eng)),
        final(trader_base).wf(*final(eng)),
        final(trader_quote).wf(*final(eng)),
        final(base_vault).wf(*final(eng)),
        final(quote_vault).wf(*final(eng)),
        r is Err ==> *final(state) == *old(state) && *final(trader_base) == *old(trader_base)
            && *final(trader_quote) == *old(trader_quote) && *final(base_vault) == *old(base_vault)
            && *final(quote_vault) == *old(quote_vault),
        r matches Ok(order) ==> {
            &&& order.owner == trader
            &&& order.side == spec_side(side)
            &&& order.is_open
            &&& !order.is_filled
            &&& !order.is_claimed
            &&& order.claim_input_type == 0
            &&& order.claim_plaintext_amount == 0
            &&& order.claim_ciphertext.bytes@.len() == 0
            &&& order.price == price
            &&& order.seq == old(state).order_seq
            &&& order.wf(*final(eng))
            &&& final(eng).value_of(order.remaining_handle) == size_ciphertext.value
            &&& *final(state) == (OrderbookState {
                order_seq: seq_next(old(state).order_seq),
                ..*old(state)
            })
        },
        r is Ok && side == 0 ==> {
            &&& *final(trader_base) == *old(trader_base)
            &&& *final(base_vault) == *old(base_vault)
            &&& (trader_quote_key != old(state).inco_quote_vault ==> {
                let applied = clamped(
                    old(eng).value_of(old(trader_quote).amount),
                    escrow_ciphertext.value,
                );
                &&& final(eng).value_of(final(trader_quote).amount) == old(eng).value_of(
                    old(trader_quote).amount,
                ) - applied
                &&& final(eng).value_of(final(quote_vault).amount) == wrap_add(
                    old(eng).value_of(old(quote_vault).amount),
                    applied,
                )
                &&& *final(trader_quote) == with_amount(
                    *old(trader_quote),
                    final(trader_quote).amount,
                )
                &&& *final(quote_vault) == with_amount(*old(quote_vault), final(quote_vault).amount)
            })
            &&& (trader_quote_key == old(state).inco_quote_vault ==> *final(trader_quote) == *old(
                trader_quote,
            ) && *final(quote_vault) == *old(quote_vault))
        },
        r is Ok && side == 1 ==> {
            &&& *final(trader_quote) == *old(trader_quote)
            &&& *final(quote_vault) == *old(quote_vault)
            &&& (trader_base_key != old(state).inco_base_vault ==> {
                let applied = clamped(
                    old(eng).value_of(old(trader_base).amount),
                    escrow_ciphertext.value,
                );
                &&& final(eng).value_of(final(trader_base).amount) == old(eng).value_of(
                    old(trader_base).amount,
                ) - applied
                &&& final(eng).value_of(final(base_vault).amount) == wrap_add(
                    old(eng).value_of(old(base_vault).amount),
                    applied,
                )
                &&& *final(trader_base) == with_amount(*old(trader_base), final(trader_base).amount)
                &&& *final(base_vault) == with_amount(*old(base_vault), final(base_vault).amount)
            })
            &&& (trader_base_key == old(state).inco_base_vault ==> *final(trader_base) == *old(
                trader_base,
            ) && *final(base_vault) == *old(base_vault))
        },
{
    if side >= 2 {
        return Err(OrderbookError::InvalidSide);
    }
    if !escrow_ciphertext.is_valid() {
        return Err(OrderbookError::InvalidEscrowCiphertext);
    }
    if !size_ciphertext.is_valid() {
        return Err(OrderbookError::InvalidEscrowCiphertext);
    }
    if side == 0 {
        match ensure_inco_account(trader_quote, trader, state.inco_quote_mint) {
            Err(e) => { return Err(e) },
            Ok(()) => (),
        }
        match ensure_inco_account(quote_vault, state.inco_vault_authority, state.inco_quote_mint) {
            Err(e) => { return Err(e) },
            Ok(()) => (),
        }
        match transfer_precheck(
            trader_quote,
            quote_vault,
            trader_quote_key,
            state.inco_quote_vault,
            trader,
            escrow_ciphertext,
        ) {
            Err(e) => { return Err(OrderbookError::Token(e)) },
            Ok(()) => (),
        }
    } else {
        match ensure_inco_account(trader_base, trader, state.inco_base_mint) {
            Err(e) => { return Err(e) },
            Ok(()) => (),
        }
        match ensure_inco_account(base_vault, state.inco_vault_authority, state.inco_base_mint) {
            Err(e) => { return Err(e) },
            Ok(()) => (),
        }
        match transfer_precheck(
            trader_base,
            base_vault,
            trader_base_key,
            state.inco_base_vault,
            trader,
            escrow_ciphertext,
        ) {
            Err(e) => { return Err(OrderbookError::Token(e)) },
            Ok(()) => (),
        }
    }
    let size_handle = match eng.new_handle(size_ciphertext, input_type) {
        Ok(h) => h,
        Err(_) => { return Err(OrderbookError::InvalidEscrowCiphertext) },
    };
    let transfer_result = if side == 0 {
        transfer(
            eng,
            trader_quote,
            quote_vault,
            trader_quote_key,
            state.inco_quote_vault,
            trader,
            escrow_ciphertext,
            escrow_input_type,
        )
    } else {
        transfer(
            eng,
            trader_base,
            base_vault,
            trader_base_key,
            state.inco_base_vault,
            trader,
            escrow_ciphertext,
            escrow_input_type,
        )
    };
    match transfer_result {
        Ok(()) => (),
        Err(e) => { return Err(OrderbookError::Token(e)) },
    }
    let order = Order {
        owner: trader,
        side: if side == 0 {
            Side::Bid
        } else {
            Side::Ask
        },
        is_open: true,
        is_filled: false,
        is_claimed: false,
        claim_input_type: 0,
        claim_plaintext_amount: 0,
        claim_ciphertext: Ciphertext { bytes: Vec::new(), value: 0 },
        price,
        seq: state.order_seq,
        remaining_handle: size_handle,
    };
    state.order_seq = state.order_seq.wrapping_add(1);
    Ok(order)
}

/// Which result `cancel_order` returns.
pub open spec fn cancel_order_check(
    state: OrderbookState,
    order: Order,
    trader: Pubkey,
    remaining_ciphertext: Ciphertext,
    trader_base: IncoAccount,
    trader_base_key: Pubkey,
    trader_quote: IncoAccount,
    trader_quote_key: Pubkey,
    base_vault: IncoAccount,
    quote_vault: IncoAccount,
) -> Result<(), OrderbookError> {
    if !order.is_open {
        Err(OrderbookError::OrderClosed)
    } else if order.owner != trader {
        Err(OrderbookError::InvalidIncoAccountOwner)
    } else if !remaining_ciphertext.spec_valid() {
        Err(OrderbookError::InvalidEscrowCiphertext)
    } else if order.side == Side::Bid {
        match account_check(trader_quote, trader, state.inco_quote_mint) {
            Err(e) => Err(e),
            Ok(()) => match account_check(
                quote_vault,
                state.inco_vault_authority,
                state.inco_quote_mint,
            ) {
                Err(e) => Err(e),
                Ok(()) => match transfer_check(
                    quote_vault,
                    trader_quote,
                    state.inco_quote_vault,
                    trader_quote_key,
                    state.inco_vault_authority,
                    remaining_ciphertext,
                ) {
                    Err(e) => Err(OrderbookError::Token(e)),
                    Ok(()) => Ok(()),
                },
            },
        }
    } else {
        match account_check(trader_base, trader, state.inco_base_mint) {
            Err(e) => Err(e),
            Ok(()) => match account_check(
                base_vault,
                state.inco_vault_authority,
                state.inco_base_mint,
            ) {
                Err(e) => Err(e),
                Ok(()) => match transfer_check(
                    base_vault,
                    trader_base,
                    state.inco_base_vault,
                    trader_base_key,
                    state.inco_vault_authority,
                    remaining_ciphertext,
                ) {
                    Err(e) => Err(OrderbookError::Token(e)),
                    Ok(()) => Ok(()),
                },
            },
        }
    }
}

/// Cancels an open order: the vault of the order's side refunds the sealed
/// remaining amount to the trader under the vault authority's signature,
/// and the order closes with its remaining size reset to encrypted zero.
/// Only the order's owner may cancel; a closed order refuses.
pub fn cancel_order(
    eng: &mut CipherEngine,
    state: &OrderbookState,
    order: &mut Order,
    trader: Pubkey,
    remaining_ciphertext: &Ciphertext,
    input_type: u8,
    trader_base: &mut IncoAccount,
    trader_base_key: Pubkey,
    trader_quote: &mut IncoAccount,
    trader_quote_key: Pubkey,
    base_vault: &mut IncoAccount,
    quote_vault: &mut IncoAccount,
) -> (r: Result<(), OrderbookError>)
    requires
        old(order).wf(*old(eng)),
        old(trader_base).wf(*old(eng)),
        old(trader_quote).wf(*old(eng)),
        old(base_vault).wf(*old(eng)),
        old(quote_vault).wf(*old(eng)),
    ensures
        r == cancel_order_check(
            *state,
            *old(order),
            trader,
            *remaining_ciphertext,
            *old(trader_base),
            trader_base_key,
            *old(trader_quote),
            trader_quote_key,
            *old(base_vault),
            *old(quote_vault),
        ),
        final(eng).extends(*old(eng)),
        final(order).wf(*final(eng)),
        final(trader_base).wf(*final(eng)),
        final(trader_quote).wf(*final(eng)),
        final(base_vault).wf(*final(eng)),
        final(quote_vault).wf(*final(eng)),
        r is Err ==> *final(order) == *old(order) && *final(trader_base) == *old(trader_base)
            && *final(trader_quote) == *old(trader_quote) && *final(base_vault) == *old(base_vault)
            && *final(quote_vault) == *old(quote_vault),
        r is Ok ==> {
            &&& final(eng).value_of(final(order).remaining_handle) == 0
            &&& *final(order) == (Order {
                is_open: false,
                is_filled: false,
                remaining_handle: final(order).remaining_handle,
                ..*old(order)
            })
        },
        r is Ok && old(order).side == Side::Bid ==> {
            &&& *final(trader_base) == *old(trader_base)
            &&& *final(base_vault) == *old(base_vault)
            &&& (state.inco_quote_vault != trader_quote_key ==> {
                let applied = clamped(
                    old(eng).value_of(old(quote_vault).amount),
                    remaining_ciphertext.value,
                );
                &&& final(eng).value_of(final(quote_vault).amount) == old(eng).value_of(
                    old(quote_vault).amount,
                ) - applied
                &&& final(eng).value_of(final(trader_quote).amount) == wrap_add(
                    old(eng).value_of(old(trader_quote).amount),
                    applied,
                )
                &&& *final(quote_vault) == with_amount(*old(quote_vault), final(quote_vault).amount)
                &&& *final(trader_quote) == with_amount(
                    *old(trader_quote),
                    final(trader_quote).amount,
                )
            })
            &&& (state.inco_quote_vault == trader_quote_key ==> *final(trader_quote) == *old(
                trader_quote,
            ) && *final(quote_vault) == *old(quote_vault))
        },
        r is Ok && old(order).side == Side::Ask ==> {
            &&& *final(trader_quote) == *old(trader_quote)
            &&& *final(quote_vault) == *old(quote_vault)
            &&& (state.inco_base_vault != trader_base_key ==> {
                let applied = clamped(
                    old(eng).value_of(old(base_vault).amount),
                    remaining_ciphertext.value,
                );
                &&& final(eng).value_of(final(base_vault).amount) == old(eng).value_of(
                    old(base_vault).amount,
                ) - applied
                &&& final(eng).value_of(final(trader_base).amount) == wrap_add(
                    old(eng).value_of(old(trader_base).amount),
                    applied,
                )
                &&& *final(base_vault) == with_amount(*old(base_vault), final(base_vault).amount)
                &&& *final(trader_base) == with_amount(*old(trader_base), final(trader_base).amount)
            })
            &&& (state.inco_base_vault == trader_base_key ==> *final(trader_base) == *old(
                trader_base,
            ) && *final(base_vault) == *old(base_vault))
        },
{
    if !order.is_open {
        return Err(OrderbookError::OrderClosed);
    }
    if order.owner != trader {
        return Err(OrderbookError::InvalidIncoAccountOwner);
    }
    if !remaining_ciphertext.is_valid() {
        return Err(OrderbookError::InvalidEscrowCiphertext);
    }
    if order.side == Side::Bid {
        match ensure_inco_account(trader_quote, trader, state.inco_quote_mint) {
            Err(e) => { return Err(e) },
            Ok(()) => (),
        }
        match ensure_inco_account(quote_vault, state.inco_vault_authority, state.inco_quote_mint) {
            Err(e) => { return Err(e) },
            Ok(()) => (),
        }
        match transfer_precheck(
            quote_vault,
            trader_quote,
            state.inco_quote_vault,
            trader_quote_key,
            state.inco_vault_authority,
            remaining_ciphertext,
        ) {
            Err(e) => { return Err(OrderbookError::Token(e)) },
            Ok(()) => (),
        }
        let refund = transfer(
            eng,
            quote_vault,
            trader_quote,
            state.inco_quote_vault,
            trader_quote_key,
            state.inco_vault_authority,
            remaining_ciphertext,
            input_type,
        );
        match refund {
            Ok(()) => (),
            Err(e) => { return Err(OrderbookError::Token(e)) },
        }
    } else {
        match ensure_inco_account(trader_base, trader, state.inco_base_mint) {
            Err(e) => { return Err(e) },
            Ok(()) => (),
        }
        match ensure_inco_account(base_vault, state.inco_vault_authority, state.inco_base_mint) {
            Err(e) => { return Err(e) },
            Ok(()) => (),
        }
        match transfer_precheck(
            base_vault,
            trader_base,
            state.inco_base_vault,
            trader_base_key,
            state.inco_vault_authority,
            remaining_ciphertext,
        ) {
            Err(e) => { return Err(OrderbookError::Token(e)) },
            Ok(()) => (),
        }
        let refund = transfer(
            eng,
            base_vault,
            trader_base,
            state.inco_base_vault,
            trader_base_key,
            state.inco_vault_authority,
            remaining_ciphertext,
            input_type,
        );
        match refund {
            Ok(()) => (),
            Err(e) => { return Err(OrderbookError::Token(e)) },
        }
    }
    let zero_remaining = eng.as_handle(0);
    order.is_open = false;
    order.is_filled = false;
    order.remaining_handle = zero_remaining;
    Ok(())
}

/// Which result `close_order` returns; `remaining_val` is the plaintext the
/// service holds behind the order's remaining handle.
pub open spec fn close_order_check(
    state: OrderbookState,
    order: Order,
    owner: Pubkey,
    remaining_val: u128,
) -> Result<(), OrderbookError> {
    if !order.is_open {
        Err(OrderbookError::OrderClosed)
    } else if order.owner != owner {
        Err(OrderbookError::InvalidIncoAccountOwner)
    } else if state.require_attestation && remaining_val != 0 {
        Err(OrderbookError::RemainingNotZero)
    } else {
        Ok(())
    }
}

/// Closes an open order without moving funds. Where the engine requires
/// attestation, the proof channel must confirm the remaining size is
/// encrypted zero — a drained order — and the fill flag is recorded
/// accordingly; without attestation the order simply closes.
pub fn close_order(
    eng: &mut CipherEngine,
    state: &OrderbookState,
    order: &mut Order,
    owner: Pubkey,
) -> (r: Result<(), OrderbookError>)
    requires
        old(order).wf(*old(eng)),
    ensures
        r == close_order_check(
            *state,
            *old(order),
            owner,
            old(eng).value_of(old(order).remaining_handle),
        ),
        final(eng).extends(*old(eng)),
        final(order).wf(*final(eng)),
        r is Err ==> *final(order) == *old(order),
        r is Ok ==> *final(order) == (Order {
            is_open: false,
            is_filled: if state.require_attestation {
                true
            } else {
                old(order).is_filled
            },
            ..*old(order)
        }),
{
    if !order.is_open {
        return Err(OrderbookError::OrderClosed);
    }
    if order.owner != owner {
        return Err(OrderbookError::InvalidIncoAccountOwner);
    }
    if state.require_attestation {
        let zero = eng.as_handle(0);
        let is_zero = eng.e_eq(order.remaining_handle, zero, 0);
        if !eng.attest(is_zero) {
            return Err(OrderbookError::RemainingNotZero);
        }
        order.is_filled = true;
    }
    order.is_open = false;
    Ok(())
}

/// Which result `maker_claim_filled_order` returns.
pub open spec fn maker_claim_check(
    state: OrderbookState,
    order: Order,
    maker: Pubkey,
    maker_base: IncoAccount,
    maker_base_key: Pubkey,
    maker_quote: IncoAccount,
    maker_quote_key: Pubkey,
    base_vault: IncoAccount,
    quote_vault: IncoAccount,
) -> Result<(), OrderbookError> {
    if order.owner != maker {
        Err(OrderbookError::InvalidOrderOwner)
    } else if order.is_open {
        Err(OrderbookError::OrderStillOpen)
    } else if !order.is_filled {
        Err(OrderbookError::OrderNotFilled)
    } else if order.is_claimed {
        Err(OrderbookError::OrderAlreadyClaimed)
    } else if !order.claim_ciphertext.spec_valid() {
        Err(OrderbookError::InvalidEscrowCiphertext)
    } else if order.side == Side::Bid {
        match account_check(maker_base, maker, state.inco_base_mint) {
            Err(e) => Err(e),
            Ok(()) => match account_check(
                base_vault,
                state.inco_vault_authority,
                state.inco_base_mint,
            ) {
                Err(e) => Err(e),
                Ok(()) => match transfer_check(
                    base_vault,
                    maker_base,
                    state.inco_base_vault,
                    maker_base_key,
                    state.inco_vault_authority,
                    order.claim_ciphertext,
                ) {
                    Err(e) => Err(OrderbookError::Token(e)),
                    Ok(()) => Ok(()),
                },
            },
        }
    } else {
        match account_check(maker_quote, maker, state.inco_quote_mint) {
            Err(e) => Err(e),
            Ok(()) => match account_check(
                quote_vault,
                state.inco_vault_authority,
                state.inco_quote_mint,
            ) {
                Err(e) => Err(e),
                Ok(()) => match transfer_check(
                    quote_vault,
                    maker_quote,
                    state.inco_quote_vault,
                    maker_quote_key,
                    state.inco_vault_authority,
                    order.claim_ciphertext,
                ) {
                    Err(e) => Err(OrderbookError::Token(e)),
                    Ok(()) => Ok(()),
                },
            },
        }
    }
}

/// Releases the maker's vault-held proceeds using the claim ciphertext
/// stamped at fill time, and marks the order claimed. This is the second
/// phase of fill/claim settlement: it exists because the maker signs no
/// transaction during matching, so proceeds wait in the vault until the
/// maker collects. A claim succeeds at most once: the claimed flag refuses
/// every later attempt.
pub fn maker_claim_filled_order(
    eng: &mut CipherEngine,
    state: &OrderbookState,
    order: &mut Order,
    maker: Pubkey,
    maker_base: &mut IncoAccount,
    maker_base_key: Pubkey,
    maker_quote: &mut IncoAccount,
    maker_quote_key: Pubkey,
    base_vault: &mut IncoAccount,
    quote_vault: &mut IncoAccount,
) -> (r: Result<(), OrderbookError>)
    requires
        old(order).wf(*old(eng)),
        old(maker_base).wf(*old(eng)),
        old(maker_quote).wf(*old(eng)),
        old(base_vault).wf(*old(eng)),
        old(quote_vault).wf(*old(eng)),
    ensures
        r == maker_claim_check(
            *state,
            *old(order),
            maker,
            *old(maker_base),
            maker_base_key,
            *old(maker_quote),
            maker_quote_key,
            *old(base_vault),
            *old(quote_vault),
        ),
        final(eng).extends(*old(eng)),
        final(order).wf(*final(eng)),
        final(maker_base).wf(*final(eng)),
        final(maker_quote).wf(*final(eng)),
        final(base_vault).wf(*final(eng)),
        final(quote_vault).wf(*final(eng)),
        r is Err ==> *final(order) == *old(order) && *final(maker_base) == *old(maker_base)
            && *final(maker_quote) == *old(maker_quote) && *final(base_vault) == *old(base_vault)
            && *final(quote_vault) == *old(quote_vault) && *final(eng) == *old(eng),
        r is Ok ==> *final(order) == (Order { is_claimed: true, ..*old(order) }),
        r is Ok && old(order).side == Side::Bid ==> {
            &&& *final(maker_quote) == *old(maker_quote)
            &&& *final(quote_vault) == *old(quote_vault)
            &&& (state.inco_base_vault != maker_base_key ==> {
                let applied = clamped(
                    old(eng).value_of(old(base_vault).amount),
                    old(order).claim_ciphertext.value,
                );
                &&& final(eng).value_of(final(base_vault).amount) == old(eng).value_of(
                    old(base_vault).amount,
                ) - applied
                &&& final(eng).value_of(final(maker_base).amount) == wrap_add(
                    old(eng).value_of(old(maker_base).amount),
                    applied,
                )
                &&& *final(base_vault) == with_amount(*old(base_vault), final(base_vault).amount)
                &&& *final(maker_base) == with_amount(*old(maker_base), final(maker_base).amount)
            })
            &&& (state.inco_base_vault == maker_base_key ==> *final(maker_base) == *old(maker_base)
                && *final(base_vault) == *old(base_vault))
        },
        r is Ok && old(order).side == Side::Ask ==> {
            &&& *final(maker_base) == *old(maker_base)
            &&& *final(base_vault) == *old(base_vault)
            &&& (state.inco_quote_vault != maker_quote_key ==> {
                let applied = clamped(
                    old(eng).value_of(old(quote_vault).amount),
                    old(order).claim_ciphertext.value,
                );
                &&& final(eng).value_of(final(quote_vault).amount) == old(eng).value_of(
                    old(quote_vault).amount,
                ) - applied
                &&& final(eng).value_of(final(maker_quote).amount) == wrap_add(
                    old(eng).value_of(old(maker_quote).amount),
                    applied,
                )
                &&& *final(quote_vault) == with_amount(*old(quote_vault), final(quote_vault).amount)
                &&& *final(maker_quote) == with_amount(*old(maker_quote), final(maker_quote).amount)
            })
            &&& (state.inco_quote_vault == maker_quote_key ==> *final(maker_quote) == *old(
                maker_quote,
            ) && *final(quote_vault) == *old(quote_vault))
        },
{
    if order.owner != maker {
        return Err(OrderbookError::InvalidOrderOwner);
    }
    if order.is_open {
        return Err(OrderbookError::OrderStillOpen);
    }
    if !order.is_filled {
        return Err(OrderbookError::OrderNotFilled);
    }
    if order.is_claimed {
        return Err(OrderbookError::OrderAlreadyClaimed);
    }
    if !order.claim_ciphertext.is_valid() {
        return Err(OrderbookError::InvalidEscrowCiphertext);
    }
    if order.side == Side::Bid {
        match ensure_inco_account(maker_base, maker, state.inco_base_mint) {
            Err(e) => { return Err(e) },
            Ok(()) => (),
        }
        match ensure_inco_account(base_vault, state.inco_vault_authority, state.inco_base_mint) {
            Err(e) => { return Err(e) },
            Ok(()) => (),
        }
        match transfer_precheck(
            base_vault,
            maker_base,
            state.inco_base_vault,
            maker_base_key,
            state.inco_vault_authority,
            &order.claim_ciphertext,
        ) {
            Err(e) => { return Err(OrderbookError::Token(e)) },
            Ok(()) => (),
        }
        let payout = transfer(
            eng,
            base_vault,
            maker_base,
            state.inco_base_vault,
            maker_base_key,
            state.inco_vault_authority,
            &order.claim_ciphertext,
            order.claim_input_type,
        );
        match payout {
            Ok(()) => (),
            Err(e) => { return Err(OrderbookError::Token(e)) },
        }
    } else {
        match ensure_inco_account(maker_quote, maker, state.inco_quote_mint) {
            Err(e) => { return Err(e) },
            Ok(()) => (),
        }
        match ensure_inco_account(quote_vault, state.inco_vault_authority, state.inco_quote_mint) {
            Err(e) => { return Err(e) },
            Ok(()) => (),
        }
        match transfer_precheck(
            quote_vault,
            maker_quote,
            state.inco_quote_vault,
            maker_quote_key,
            state.inco_vault_authority,
            &order.claim_ciphertext,
        ) {
            Err(e) => { return Err(OrderbookError::Token(e)) },
            Ok(()) => (),
        }
        let payout = transfer(
            eng,
            quote_vault,
            maker_quote,
            state.inco_quote_vault,
            maker_quote_key,
            state.inco_vault_authority,
            &order.claim_ciphertext,
            order.claim_input_type,
        );
        match payout {
            Ok(()) => (),
            Err(e) => { return Err(OrderbookError::Token(e)) },
        }
    }
    order.is_claimed = true;
    Ok(())
}

/// Which result an admin-gated utility returns.
pub open spec fn admin_check(state: OrderbookState, admin: Pubkey) -> Result<(), OrderbookError> {
    if admin != state.admin {
        Err(OrderbookError::UnauthorizedMatcher)
    } else {
        Ok(())
    }
}

/// Admin-only operational reset: clears the sequence counter.
pub fn reset_state(state: &mut OrderbookState, admin: Pubkey) -> (r: Result<(), OrderbookError>)
    ensures
        r == admin_check(*old(state), admin),
        r is Err ==> *final(state) == *old(state),
        r is Ok ==> *final(state) == (OrderbookState { order_seq: 0, ..*old(state) }),
{
    if admin != state.admin {
        return Err(OrderbookError::UnauthorizedMatcher);
    }
    state.order_seq = 0;
    Ok(())
}

/// Admin-only: advances the sequence counter by one, wrapping.
pub fn bump_order_seq(state: &mut OrderbookState, admin: Pubkey) -> (r: Result<(), OrderbookError>)
    ensures
        r == admin_check(*old(state), admin),
        r is Err ==> *final(state) == *old(state),
        r is Ok ==> *final(state) == (OrderbookState {
            order_seq: seq_next(old(state).order_seq),
            ..*old(state)
        }),
{
    if admin != state.admin {
        return Err(OrderbookError::UnauthorizedMatcher);
    }
    state.order_seq = state.order_seq.wrapping_add(1);
    Ok(())
}

} // verus!
