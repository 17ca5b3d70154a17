use vstd::prelude::*;

use crate::cipher::{wrap_add, CipherEngine, Handle};
use crate::errors::OrderbookError;
use crate::orderbook::{account_check, ensure_inco_account, spec_side, Order, OrderbookState, Side};
use crate::token::{clamped, transfer, transfer_check, transfer_precheck, with_amount, IncoAccount};
use crate::types::{Ciphertext, Pubkey};

verus! {

/// Status of a submitted match: settlement consumes it exactly once.
#[derive(Clone, Copy, PartialEq, Eq, Structural, Debug)]
pub enum MatchStatus {
    Pending,
    Settled,
}

/// A match agreed off the hot path, waiting for its one settlement.
#[derive(Clone, Copy, Debug)]
pub struct MatchRecord {
    pub match_id: u64,
    pub bid_owner: Pubkey,
    pub ask_owner: Pubkey,
    pub base_amount_handle: Handle,
    pub quote_amount_handle: Handle,
    pub status: MatchStatus,
    pub validator: Pubkey,
}

/// Arguments of `submit_match`.
#[derive(Clone, Copy, Debug)]
pub struct SubmitMatchArgs {
    pub match_id: u64,
    pub bid_owner: Pubkey,
    pub ask_owner: Pubkey,
    pub base_amount_handle: Handle,
    pub quote_amount_handle: Handle,
}

/// Arguments of `settle_match`.
#[derive(Debug)]
pub struct SettleMatchArgs {
    pub match_id: u64,
    pub base_ciphertext: Ciphertext,
    pub quote_ciphertext: Ciphertext,
    pub input_type: u8,
}

/// The base amount a match actually fills: the taker's request, clamped to
/// the maker's remaining size — computed encrypted, revealing neither
/// operand.
pub open spec fn fill_amount(remaining: u128, requested: u128) -> u128 {
    if remaining >= requested {
        requested
    } else {
        remaining
    }
}

/// A fill never exceeds the maker's remaining size: the remaining handle
/// only ever decreases after placement, by an exact, non-wrapping
/// difference.
pub proof fn lemma_fill_within_remaining(remaining: u128, requested: u128)
    ensures
        fill_amount(remaining, requested) <= remaining,
        0 <= remaining - fill_amount(remaining, requested),
        remaining - fill_amount(remaining, requested) <= remaining,
{
}

/// Which result `match_order` returns; `remaining_val` is the plaintext the
/// service holds behind the maker order's remaining handle.
pub open spec fn match_order_check(
    state: OrderbookState,
    order: Order,
    matcher: Pubkey,
    taker: Pubkey,
    taker_side: u8,
    taker_price: u64,
    taker_req_base_ciphertext: Ciphertext,
    fill_base_ciphertext: Ciphertext,
    fill_quote_ciphertext: Ciphertext,
    maker_base: IncoAccount,
    maker_base_key: Pubkey,
    maker_quote: IncoAccount,
    maker_quote_key: Pubkey,
    taker_base: IncoAccount,
    taker_base_key: Pubkey,
    taker_quote: IncoAccount,
    taker_quote_key: Pubkey,
    base_vault: IncoAccount,
    quote_vault: IncoAccount,
    remaining_val: u128,
) -> Result<(), OrderbookError> {
    if matcher != state.admin {
        Err(OrderbookError::UnauthorizedMatcher)
    } else if !order.is_open {
        Err(OrderbookError::OrderClosed)
    } else if taker_side >= 2 {
        Err(OrderbookError::InvalidSide)
    } else if order.side == spec_side(taker_side) {
        Err(OrderbookError::InvalidSide)
    } else if order.price != taker_price {
        Err(OrderbookError::PriceMismatch)
    } else if !taker_req_base_ciphertext.spec_valid() || !fill_base_ciphertext.spec_valid()
        || !fill_quote_ciphertext.spec_valid() {
        Err(OrderbookError::InvalidEscrowCiphertext)
    } else if order.side == Side::Ask {
        match account_check(maker_base, order.owner, state.inco_base_mint) {
            Err(e) => Err(e),
            Ok(()) => match account_check(taker_base, taker, state.inco_base_mint) {
                Err(e) => Err(e),
                Ok(()) => match account_check(taker_quote, taker, state.inco_quote_mint) {
                    Err(e) => Err(e),
                    Ok(()) => match account_check(maker_quote, order.owner, state.inco_quote_mint) {
                        Err(e) => Err(e),
                        Ok(()) => match account_check(
                            base_vault,
                            state.inco_vault_authority,
                            state.inco_base_mint,
                        ) {
                            Err(e) => Err(e),
                            Ok(()) => match account_check(
                                quote_vault,
                                state.inco_vault_authority,
                                state.inco_quote_mint,
                            ) {
                                Err(e) => Err(e),
                                Ok(()) => match transfer_check(
                                    base_vault,
                                    taker_base,
                                    state.inco_base_vault,
                                    taker_base_key,
                                    state.inco_vault_authority,
                                    fill_base_ciphertext,
                                ) {
                                    Err(e) => Err(OrderbookError::Token(e)),
                                    Ok(()) => match transfer_check(
                                        taker_quote,
                                        maker_quote,
                                        taker_quote_key,
                                        maker_quote_key,
                                        taker,
                                        fill_quote_ciphertext,
                                    ) {
                                        Err(e) => Err(OrderbookError::Token(e)),
                                        Ok(()) => if state.require_attestation
                                            && fill_base_ciphertext.value != fill_amount(
                                            remaining_val,
                                            taker_req_base_ciphertext.value,
                                        ) {
                                            Err(OrderbookError::AttestationFailed)
                                        } else {
                                            Ok(())
                                        },
                                    },
                                },
                            },
                        },
                    },
                },
            },
        }
    } else {
        match account_check(maker_quote, order.owner, state.inco_quote_mint) {
            Err(e) => Err(e),
            Ok(()) => match account_check(taker_quote, taker, state.inco_quote_mint) {
                Err(e) => Err(e),
                Ok(()) => match account_check(taker_base, taker, state.inco_base_mint) {
                    Err(e) => Err(e),
                    Ok(()) => match account_check(maker_base, order.owner, state.inco_base_mint) {
                        Err(e) => Err(e),
                        Ok(()) => match account_check(
                            base_vault,
                            state.inco_vault_authority,
                            state.inco_base_mint,
                        ) {
                            Err(e) => Err(e),
                            Ok(()) => match account_check(
                                quote_vault,
                                state.inco_vault_authority,
                                state.inco_quote_mint,
                            ) {
                                Err(e) => Err(e),
                                Ok(()) => match transfer_check(
                                    quote_vault,
                                    taker_quote,
                                    state.inco_quote_vault,
                                    taker_quote_key,
                                    state.inco_vault_authority,
                                    fill_quote_ciphertext,
                                ) {
                                    Err(e) => Err(OrderbookError::Token(e)),
                                    Ok(()) => match transfer_check(
                                        taker_base,
                                        maker_base,
                                        taker_base_key,
                                        maker_base_key,
                                        taker,
                                        fill_base_ciphertext,
                                    ) {
                                        Err(e) => Err(OrderbookError::Token(e)),
                                        Ok(()) => if state.require_attestation
                                            && fill_base_ciphertext.value != fill_amount(
                                            remaining_val,
                                            taker_req_base_ciphertext.value,
                                        ) {
                                            Err(OrderbookError::AttestationFailed)
                                        } else {
                                            Ok(())
                                        },
                                    },
                                },
                            },
                        },
                    },
                },
            },
        }
    }
}

/// Crosses a taker against an open maker order of the opposite side at the
/// exact same price — a discrete-price crossing, no price improvement. The
/// fill is the taker's request clamped to the maker's remaining size,
/// computed encrypted; the remaining size shrinks by exactly the fill.
/// Where the engine requires attestation, the proof channel must confirm
/// that the matcher's sealed fill amount equals that clamped fill before
/// any funds move — the safety net against a matcher whose fill diverges
/// from the escrowed computation. Funds then move maker-vault to taker, and
/// taker to maker directly for the other leg; the maker's incoming
/// ciphertext is also stamped into the order's claim fields. Atomic: on any
/// error no account or order changes.
pub fn match_order(
    eng: &mut CipherEngine,
    state: &OrderbookState,
    maker_order: &mut Order,
    matcher: Pubkey,
    taker: Pubkey,
    taker_side: u8,
    taker_price: u64,
    taker_req_base_ciphertext: &Ciphertext,
    fill_base_ciphertext: Ciphertext,
    fill_quote_ciphertext: Ciphertext,
    input_type: u8,
    claim_plaintext_amount: u64,
    maker_base: &mut IncoAccount,
    maker_base_key: Pubkey,
    maker_quote: &mut IncoAccount,
    maker_quote_key: Pubkey,
    taker_base: &mut IncoAccount,
    taker_base_key: Pubkey,
    taker_quote: &mut IncoAccount,
    taker_quote_key: Pubkey,
    base_vault: &mut IncoAccount,
    quote_vault: &mut IncoAccount,
) -> (r: Result<(), OrderbookError>)
    requires
        old(maker_order).wf(*old(eng)),
        old(maker_base).wf(*old(eng)),
        old(maker_quote).wf(*old(eng)),
        old(taker_base).wf(*old(eng)),
        old(taker_quote).wf(*old(eng)),
        old(base_vault).wf(*old(eng)),
        old(quote_vault).wf(*old(eng)),
    ensures
        r == match_order_check(
            *state,
            *old(maker_order),
            matcher,
            taker,
            taker_side,
            taker_price,
            *taker_req_base_ciphertext,
            fill_base_ciphertext,
            fill_quote_ciphertext,
            *old(maker_base),
            maker_base_key,
            *old(maker_quote),
            maker_quote_key,
            *old(taker_base),
            taker_base_key,
            *old(taker_quote),
            taker_quote_key,
            *old(base_vault),
            *old(quote_vault),
            old(eng).value_of(old(maker_order).remaining_handle),
        ),
        final(eng).extends(*old(eng)),
        final(maker_order).wf(*final(eng)),
        final(maker_base).wf(*final(eng)),
        final(maker_quote).wf(*final(eng)),
        final(taker_base).wf(*final(eng)),
        final(taker_quote).wf(*final(eng)),
        final(base_vault).wf(*final(eng)),
        final(quote_vault).wf(*final(eng)),
        r is Err ==> *final(maker_order) == *old(maker_order) && *final(maker_base) == *old(
            maker_base,
        ) && *final(maker_quote) == *old(maker_quote) && *final(taker_base) == *old(taker_base)
            && *final(taker_quote) == *old(taker_quote) && *final(base_vault) == *old(base_vault)
            && *final(quote_vault) == *old(quote_vault),
        r is Ok ==> {
            let remaining_val = old(eng).value_of(old(maker_order).remaining_handle);
            let actual = fill_amount(remaining_val, taker_req_base_ciphertext.value);
            &&& final(eng).value_of(final(maker_order).remaining_handle) == remaining_val - actual
            &&& *final(maker_order) == (Order {
                is_filled: true,
                claim_input_type: input_type,
                claim_plaintext_amount,
                claim_ciphertext: final(maker_order).claim_ciphertext,
                remaining_handle: final(maker_order).remaining_handle,
                ..*old(maker_order)
            })
            &&& (old(maker_order).side == Side::Ask ==> final(maker_order).claim_ciphertext
                == fill_quote_ciphertext)
            &&& (old(maker_order).side == Side::Bid ==> final(maker_order).claim_ciphertext
                == fill_base_ciphertext)
        },
        r is Ok && state.require_attestation ==> fill_base_ciphertext.value == fill_amount(
            old(eng).value_of(old(maker_order).remaining_handle),
            taker_req_base_ciphertext.value,
        ),
        r is Ok && old(maker_order).side == Side::Ask ==> {
            &&& *final(maker_base) == *old(maker_base)
            &&& *final(quote_vault) == *old(quote_vault)
            &&& (state.inco_base_vault != taker_base_key ==> {
                let applied = clamped(
                    old(eng).value_of(old(base_vault).amount),
                    fill_base_ciphertext.value,
                );
                &&& final(eng).value_of(final(base_vault).amount) == old(eng).value_of(
                    old(base_vault).amount,
                ) - applied
                &&& final(eng).value_of(final(taker_base).amount) == wrap_add(
                    old(eng).value_of(old(taker_base).amount),
                    applied,
                )
                &&& *final(base_vault) == with_amount(*old(base_vault), final(base_vault).amount)
                &&& *final(taker_base) == with_amount(*old(taker_base), final(taker_base).amount)
            })
            &&& (state.inco_base_vault == taker_base_key ==> *final(base_vault) == *old(base_vault)
                && *final(taker_base) == *old(taker_base))
            &&& (taker_quote_key != maker_quote_key ==> {
                let applied = clamped(
                    old(eng).value_of(old(taker_quote).amount),
                    fill_quote_ciphertext.value,
                );
                &&& final(eng).value_of(final(taker_quote).amount) == old(eng).value_of(
                    old(taker_quote).amount,
                ) - applied
                &&& final(eng).value_of(final(maker_quote).amount) == wrap_add(
                    old(eng).value_of(old(maker_quote).amount),
                    applied,
                )
                &&& *final(taker_quote) == with_amount(*old(taker_quote), final(taker_quote).amount)
                &&& *final(maker_quote) == with_amount(*old(maker_quote), final(maker_quote).amount)
            })
            &&& (taker_quote_key == maker_quote_key ==> *final(taker_quote) == *old(taker_quote)
                && *final(maker_quote) == *old(maker_quote))
        },
        r is Ok && old(maker_order).side == Side::Bid ==> {
            &&& *final(maker_quote) == *old(maker_quote)
            &&& *final(base_vault) == *old(base_vault)
            &&& (state.inco_quote_vault != taker_quote_key ==> {
                let applied = clamped(
                    old(eng).value_of(old(quote_vault).amount),
                    fill_quote_ciphertext.value,
                );
                &&& final(eng).value_of(final(quote_vault).amount) == old(eng).value_of(
                    old(quote_vault).amount,
                ) - applied
                &&& final(eng).value_of(final(taker_quote).amount) == wrap_add(
                    old(eng).value_of(old(taker_quote).amount),
                    applied,
                )
                &&& *final(quote_vault) == with_amount(*old(quote_vault), final(quote_vault).amount)
                &&& *final(taker_quote) == with_amount(*old(taker_quote), final(taker_quote).amount)
            })
            &&& (state.inco_quote_vault == taker_quote_key ==> *final(quote_vault) == *old(
                quote_vault,
            ) && *final(taker_quote) == *old(taker_quote))
            &&& (taker_base_key != maker_base_key ==> {
                let applied = clamped(
                    old(eng).value_of(old(taker_base).amount),
                    fill_base_ciphertext.value,
                );
                &&& final(eng).value_of(final(taker_base).amount) == old(eng).value_of(
                    old(taker_base).amount,
                ) - applied
                &&& final(eng).value_of(final(maker_base).amount) == wrap_add(
                    old(eng).value_of(old(maker_base).amount),
                    applied,
                )
                &&& *final(taker_base) == with_amount(*old(taker_base), final(taker_base).amount)
                &&& *final(maker_base) == with_amount(*old(maker_base), final(maker_base).amount)
            })
            &&& (taker_base_key == maker_base_key ==> *final(taker_base) == *old(taker_base)
                && *final(maker_base) == *old(maker_base))
        },
{
    if matcher != state.admin {
        return Err(OrderbookError::UnauthorizedMatcher);
    }
    if !maker_order.is_open {
        return Err(OrderbookError::OrderClosed);
    }
    if taker_side >= 2 {
        return Err(OrderbookError::InvalidSide);
    }
    let taker_side_enum = if taker_side == 0 {
        Side::Bid
    } else {
        Side::Ask
    };
    if maker_order.side == taker_side_enum {
        return Err(OrderbookError::InvalidSide);
    }
    if maker_order.price != taker_price {
        return Err(OrderbookError::PriceMismatch);
    }
    if !taker_req_base_ciphertext.is_valid() || !fill_base_ciphertext.is_valid()
        || !fill_quote_ciphertext.is_valid() {
        return Err(OrderbookError::InvalidEscrowCiphertext);
    }
    if maker_order.side == Side::Ask {
        match ensure_inco_account(maker_base, maker_order.owner, state.inco_base_mint) {
            Err(e) => { return Err(e) },
            Ok(()) => (),
        }
        match ensure_inco_account(taker_base, taker, state.inco_base_mint) {
            Err(e) => { return Err(e) },
            Ok(()) => (),
        }
        match ensure_inco_account(taker_quote, taker, state.inco_quote_mint) {
            Err(e) => { return Err(e) },
            Ok(()) => (),
        }
        match ensure_inco_account(maker_quote, maker_order.owner, state.inco_quote_mint) {
            Err(e) => { return Err(e) },
            Ok(()) => (),
        }
        match ensure_inco_account(base_vault, state.inco_vault_authority, state.inco_base_mint) {
            Err(e) => { return Err(e) },
            Ok(()) => (),
        }
        match ensure_inco_account(quote_vault, state.inco_vault_authority, state.inco_quote_mint) {
            Err(e) => { return Err(e) },
            Ok(()) => (),
        }
        match transfer_precheck(
            base_vault,
            taker_base,
            state.inco_base_vault,
            taker_base_key,
            state.inco_vault_authority,
            &fill_base_ciphertext,
        ) {
            Err(e) => { return Err(OrderbookError::Token(e)) },
            Ok(()) => (),
        }
        match transfer_precheck(
            taker_quote,
            maker_quote,
            taker_quote_key,
            maker_quote_key,
            taker,
            &fill_quote_ciphertext,
        ) {
            Err(e) => { return Err(OrderbookError::Token(e)) },
            Ok(()) => (),
        }
    } else {
        match ensure_inco_account(maker_quote, maker_order.owner, state.inco_quote_mint) {
            Err(e) => { return Err(e) },
            Ok(()) => (),
        }
        match ensure_inco_account(taker_quote, taker, state.inco_quote_mint) {
            Err(e) => { return Err(e) },
            Ok(()) => (),
        }
        match ensure_inco_account(taker_base, taker, state.inco_base_mint) {
            Err(e) => { return Err(e) },
            Ok(()) => (),
        }
        match ensure_inco_account(maker_base, maker_order.owner, state.inco_base_mint) {
            Err(e) => { return Err(e) },
            Ok(()) => (),
        }
        match ensure_inco_account(base_vault, state.inco_vault_authority, state.inco_base_mint) {
            Err(e) => { return Err(e) },
            Ok(()) => (),
        }
        match ensure_inco_account(quote_vault, state.inco_vault_authority, state.inco_quote_mint) {
            Err(e) => { return Err(e) },
            Ok(()) => (),
        }
        match transfer_precheck(
            quote_vault,
            taker_quote,
            state.inco_quote_vault,
            taker_quote_key,
            state.inco_vault_authority,
            &fill_quote_ciphertext,
        ) {
            Err(e) => { return Err(OrderbookError::Token(e)) },
            Ok(()) => (),
        }
        match transfer_precheck(
            taker_base,
            maker_base,
            taker_base_key,
            maker_base_key,
            taker,
            &fill_base_ciphertext,
        ) {
            Err(e) => { return Err(OrderbookError::Token(e)) },
            Ok(()) => (),
        }
    }
    let req_base = match eng.new_handle(taker_req_base_ciphertext, input_type) {
        Ok(h) => h,
        Err(_) => { return Err(OrderbookError::InvalidEscrowCiphertext) },
    };
    let has_sufficient = eng.e_ge(maker_order.remaining_handle, req_base, 0);
    let actual_base = eng.e_select(has_sufficient, req_base, maker_order.remaining_handle, 0);
    let remaining = eng.e_sub(maker_order.remaining_handle, actual_base, 0);
    let fill_base_handle = match eng.new_handle(&fill_base_ciphertext, input_type) {
        Ok(h) => h,
        Err(_) => { return Err(OrderbookError::InvalidEscrowCiphertext) },
    };
    if state.require_attestation {
        let matches_actual = eng.e_eq(actual_base, fill_base_handle, 0);
        if !eng.attest(matches_actual) {
            return Err(OrderbookError::AttestationFailed);
        }
    }
    if maker_order.side == Side::Ask {
        let leg_vault = transfer(
            eng,
            base_vault,
            taker_base,
            state.inco_base_vault,
            taker_base_key,
            state.inco_vault_authority,
            &fill_base_ciphertext,
            input_type,
        );
        match leg_vault {
            Ok(()) => (),
            Err(e) => { return Err(OrderbookError::Token(e)) },
        }
        let leg_direct = transfer(
            eng,
            taker_quote,
            maker_quote,
            taker_quote_key,
            maker_quote_key,
            taker,
            &fill_quote_ciphertext,
            input_type,
        );
        match leg_direct {
            Ok(()) => (),
            Err(e) => { return Err(OrderbookError::Token(e)) },
        }
        maker_order.claim_ciphertext = fill_quote_ciphertext;
    } else {
        let leg_vault = transfer(
            eng,
            quote_vault,
            taker_quote,
            state.inco_quote_vault,
            taker_quote_key,
            state.inco_vault_authority,
            &fill_quote_ciphertext,
            input_type,
        );
        match leg_vault {
            Ok(()) => (),
            Err(e) => { return Err(OrderbookError::Token(e)) },
        }
        let leg_direct = transfer(
            eng,
            taker_base,
            maker_base,
            taker_base_key,
            maker_base_key,
            taker,
            &fill_base_ciphertext,
            input_type,
        );
        match leg_direct {
            Ok(()) => (),
            Err(e) => { return Err(OrderbookError::Token(e)) },
        }
        maker_order.claim_ciphertext = fill_base_ciphertext;
    }
    maker_order.remaining_handle = remaining;
    maker_order.is_filled = true;
    maker_order.claim_input_type = input_type;
    maker_order.claim_plaintext_amount = claim_plaintext_amount;
    Ok(())
}

/// Which result `submit_match` returns.
pub open spec fn submit_match_check(args: SubmitMatchArgs) -> Result<(), OrderbookError> {
    if args.bid_owner == args.ask_owner {
        Err(OrderbookError::CounterpartyMismatch)
    } else {
        Ok(())
    }
}

/// First phase of batch settlement: records an agreed match, stamped by the
/// validator that vouched for it, as `Pending`. Self-matches are refused.
/// No funds move here; the record waits for its one `settle_match`.
pub fn submit_match(args: SubmitMatchArgs, validator: Pubkey) -> (r: Result<
    MatchRecord,
    OrderbookError,
>)
    ensures
        r is Ok == (submit_match_check(args) is Ok),
        r matches Err(e) ==> Err::<(), OrderbookError>(e) == submit_match_check(args),
        r matches Ok(record) ==> record == (MatchRecord {
            match_id: args.match_id,
            bid_owner: args.bid_owner,
            ask_owner: args.ask_owner,
            base_amount_handle: args.base_amount_handle,
            quote_amount_handle: args.quote_amount_handle,
            status: MatchStatus::Pending,
            validator,
        }),
{
    if args.bid_owner == args.ask_owner {
        return Err(OrderbookError::CounterpartyMismatch);
    }
    Ok(
        MatchRecord {
            match_id: args.match_id,
            bid_owner: args.bid_owner,
            ask_owner: args.ask_owner,
            base_amount_handle: args.base_amount_handle,
            quote_amount_handle: args.quote_amount_handle,
            status: MatchStatus::Pending,
            validator,
        },
    )
}

/// Which result `settle_match` returns.
pub open spec fn settle_match_check(
    state: OrderbookState,
    record: MatchRecord,
    args: SettleMatchArgs,
    bid_owner_base: IncoAccount,
    bid_owner_base_key: Pubkey,
    ask_owner_quote: IncoAccount,
    ask_owner_quote_key: Pubkey,
    base_vault: IncoAccount,
    quote_vault: IncoAccount,
) -> Result<(), OrderbookError> {
    if record.status != MatchStatus::Pending {
        Err(OrderbookError::MatchAlreadySettled)
    } else if args.base_ciphertext.bytes@.len() == 0 || args.quote_ciphertext.bytes@.len() == 0 {
        Err(OrderbookError::InvalidEscrowCiphertext)
    } else {
        match account_check(bid_owner_base, record.bid_owner, state.inco_base_mint) {
            Err(e) => Err(e),
            Ok(()) => match account_check(ask_owner_quote, record.ask_owner, state.inco_quote_mint) {
                Err(e) => Err(e),
                Ok(()) => match account_check(
                    base_vault,
                    state.inco_vault_authority,
                    state.inco_base_mint,
                ) {
                    Err(e) => Err(e),
                    Ok(()) => match account_check(
                        quote_vault,
                        state.inco_vault_authority,
                        state.inco_quote_mint,
                    ) {
                        Err(e) => Err(e),
                        Ok(()) => match transfer_check(
                            base_vault,
                            bid_owner_base,
                            state.inco_base_vault,
                            bid_owner_base_key,
                            state.inco_vault_authority,
                            args.base_ciphertext,
                        ) {
                            Err(e) => Err(OrderbookError::Token(e)),
                            Ok(()) => match transfer_check(
                                quote_vault,
                                ask_owner_quote,
                                state.inco_quote_vault,
                                ask_owner_quote_key,
                                state.inco_vault_authority,
                                args.quote_ciphertext,
                            ) {
                                Err(e) => Err(OrderbookError::Token(e)),
                                Ok(()) => Ok(()),
                            },
                        },
                    },
                },
            },
        }
    }
}

/// Second phase of batch settlement: pays the bid owner base funds and the
/// ask owner quote funds out of the vaults, under the vault authority, and
/// flips the record to `Settled`. Gated on the record still being
/// `Pending`, so money moves at most once per match. Atomic: on any error
/// the record and every account stay as they were.
pub fn settle_match(
    eng: &mut CipherEngine,
    state: &OrderbookState,
    record: &mut MatchRecord,
    args: &SettleMatchArgs,
    bid_owner_base: &mut IncoAccount,
    bid_owner_base_key: Pubkey,
    ask_owner_quote: &mut IncoAccount,
    ask_owner_quote_key: Pubkey,
    base_vault: &mut IncoAccount,
    quote_vault: &mut IncoAccount,
) -> (r: Result<(), OrderbookError>)
    requires
        old(bid_owner_base).wf(*old(eng)),
        old(ask_owner_quote).wf(*old(eng)),
        old(base_vault).wf(*old(eng)),
        old(quote_vault).wf(*old(eng)),
    ensures
        r == settle_match_check(
            *state,
            *old(record),
            *args,
            *old(bid_owner_base),
            bid_owner_base_key,
            *old(ask_owner_quote),
            ask_owner_quote_key,
            *old(base_vault),
            *old(quote_vault),
        ),
        final(eng).extends(*old(eng)),
        final(bid_owner_base).wf(*final(eng)),
        final(ask_owner_quote).wf(*final(eng)),
        final(base_vault).wf(*final(eng)),
        final(quote_vault).wf(*final(eng)),
        r is Err ==> *final(record) == *old(record) && *final(bid_owner_base) == *old(
            bid_owner_base,
        ) && *final(ask_owner_quote) == *old(ask_owner_quote) && *final(base_vault) == *old(
            base_vault,
        ) && *final(quote_vault) == *old(quote_vault) && *final(eng) == *old(eng),
        r is Ok ==> {
            &&& *final(record) == (MatchRecord { status: MatchStatus::Settled, ..*old(record) })
            &&& (state.inco_base_vault != bid_owner_base_key ==> {
                let applied = clamped(
                    old(eng).value_of(old(base_vault).amount),
                    args.base_ciphertext.value,
                );
                &&& final(eng).value_of(final(base_vault).amount) == old(eng).value_of(
                    old(base_vault).amount,
                ) - applied
                &&& final(eng).value_of(final(bid_owner_base).amount) == wrap_add(
                    old(eng).value_of(old(bid_owner_base).amount),
                    applied,
                )
                &&& *final(base_vault) == with_amount(*old(base_vault), final(base_vault).amount)
                &&& *final(bid_owner_base) == with_amount(
                    *old(bid_owner_base),
                    final(bid_owner_base).amount,
                )
            })
            &&& (state.inco_base_vault == bid_owner_base_key ==> *final(base_vault) == *old(
                base_vault,
            ) && *final(bid_owner_base) == *old(bid_owner_base))
            &&& (state.inco_quote_vault != ask_owner_quote_key ==> {
                let applied = clamped(
                    old(eng).value_of(old(quote_vault).amount),
                    args.quote_ciphertext.value,
                );
                &&& final(eng).value_of(final(quote_vault).amount) == old(eng).value_of(
                    old(quote_vault).amount,
                ) - applied
                &&& final(eng).value_of(final(ask_owner_quote).amount) == wrap_add(
                    old(eng).value_of(old(ask_owner_quote).amount),
                    applied,
                )
                &&& *final(quote_vault) == with_amount(*old(quote_vault), final(quote_vault).amount)
                &&& *final(ask_owner_quote) == with_amount(
                    *old(ask_owner_quote),
                    final(ask_owner_quote).amount,
                )
            })
            &&& (state.inco_quote_vault == ask_owner_quote_key ==> *final(quote_vault) == *old(
                quote_vault,
            ) && *final(ask_owner_quote) == *old(ask_owner_quote))
        },
{
    if !(record.status == MatchStatus::Pending) {
        return Err(OrderbookError::MatchAlreadySettled);
    }
    if args.base_ciphertext.bytes.len() == 0 || args.quote_ciphertext.bytes.len() == 0 {
        return Err(OrderbookError::InvalidEscrowCiphertext);
    }
    match ensure_inco_account(bid_owner_base, record.bid_owner, state.inco_base_mint) {
        Err(e) => { return Err(e) },
        Ok(()) => (),
    }
    match ensure_inco_account(ask_owner_quote, record.ask_owner, state.inco_quote_mint) {
        Err(e) => { return Err(e) },
        Ok(()) => (),
    }
    match ensure_inco_account(base_vault, state.inco_vault_authority, state.inco_base_mint) {
        Err(e) => { return Err(e) },
        Ok(()) => (),
    }
    match ensure_inco_account(quote_vault, state.inco_vault_authority, state.inco_quote_mint) {
        Err(e) => { return Err(e) },
        Ok(()) => (),
    }
    match transfer_precheck(
        base_vault,
        bid_owner_base,
        state.inco_base_vault,
        bid_owner_base_key,
        state.inco_vault_authority,
        &args.base_ciphertext,
    ) {
        Err(e) => { return Err(OrderbookError::Token(e)) },
        Ok(()) => (),
    }
    match transfer_precheck(
        quote_vault,
        ask_owner_quote,
        state.inco_quote_vault,
        ask_owner_quote_key,
        state.inco_vault_authority,
        &args.quote_ciphertext,
    ) {
        Err(e) => { return Err(OrderbookError::Token(e)) },
        Ok(()) => (),
    }
    let base_leg = transfer(
        eng,
        base_vault,
        bid_owner_base,
        state.inco_base_vault,
        bid_owner_base_key,
        state.inco_vault_authority,
        &args.base_ciphertext,
        args.input_type,
    );
    match base_leg {
        Ok(()) => (),
        Err(e) => { return Err(OrderbookError::Token(e)) },
    }
    let quote_leg = transfer(
        eng,
        quote_vault,
        ask_owner_quote,
        state.inco_quote_vault,
        ask_owner_quote_key,
        state.inco_vault_authority,
        &args.quote_ciphertext,
        args.input_type,
    );
    match quote_leg {
        Ok(()) => (),
        Err(e) => { return Err(OrderbookError::Token(e)) },
    }
    record.status = MatchStatus::Settled;
    Ok(())
}

/// Two-phase settlement settles exactly once: when a `settle_match` is
/// admitted — so, by its contract, it flips the record to `Settled` — any
/// later `settle_match` on that record is refused with
/// `MatchAlreadySettled`, whatever ciphertexts and accounts it brings, and
/// by the contract's error case it changes nothing.
pub proof fn lemma_settle_match_exactly_once(
    state: OrderbookState,
    record: MatchRecord,
    args: SettleMatchArgs,
    bid_owner_base: IncoAccount,
    bid_owner_base_key: Pubkey,
    ask_owner_quote: IncoAccount,
    ask_owner_quote_key: Pubkey,
    base_vault: IncoAccount,
    quote_vault: IncoAccount,
    second_state: OrderbookState,
    second_args: SettleMatchArgs,
    second_bid_owner_base: IncoAccount,
    second_bid_owner_base_key: Pubkey,
    second_ask_owner_quote: IncoAccount,
    second_ask_owner_quote_key: Pubkey,
    second_base_vault: IncoAccount,
    second_quote_vault: IncoAccount,
)
    requires
        settle_match_check(
            state,
            record,
            args,
            bid_owner_base,
            bid_owner_base_key,
            ask_owner_quote,
            ask_owner_quote_key,
            base_vault,
            quote_vault,
        ) is Ok,
    ensures
        settle_match_check(
            second_state,
            MatchRecord { status: MatchStatus::Settled, ..record },
            second_args,
            second_bid_owner_base,
            second_bid_owner_base_key,
            second_ask_owner_quote,
            second_ask_owner_quote_key,
            second_base_vault,
            second_quote_vault,
        ) == Err::<(), OrderbookError>(OrderbookError::MatchAlreadySettled),
{
}

} // verus!
