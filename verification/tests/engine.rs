use zivo::cipher::CipherEngine;
use zivo::errors::{CustomError, OrderbookError};
use zivo::matching::{
    match_order, settle_match, submit_match, MatchStatus, SettleMatchArgs, SubmitMatchArgs,
};
use zivo::orderbook::{
    bump_order_seq, cancel_order, close_order, initialize, initialize_deposit,
    maker_claim_filled_order, place_order, reset_state, Order, OrderbookState, Side,
};
use zivo::token::{
    initialize_account, initialize_mint, mint_to, AccountState, IncoAccount, IncoMint,
};
use zivo::types::{Ciphertext, Pubkey};

fn pk(id: u128) -> Pubkey {
    Pubkey { id }
}

fn ct(value: u128) -> Ciphertext {
    Ciphertext {
        bytes: vec![0x5A; 16],
        value,
    }
}

const BASE_MINT: Pubkey = Pubkey { id: 1 };
const QUOTE_MINT: Pubkey = Pubkey { id: 2 };
const VAULT_AUTHORITY: Pubkey = Pubkey { id: 3 };
const BASE_VAULT_KEY: Pubkey = Pubkey { id: 4 };
const QUOTE_VAULT_KEY: Pubkey = Pubkey { id: 5 };
const ADMIN: Pubkey = Pubkey { id: 6 };
const MAKER: Pubkey = Pubkey { id: 7 };
const TAKER: Pubkey = Pubkey { id: 8 };
const MAKER_BASE_KEY: Pubkey = Pubkey { id: 9 };
const MAKER_QUOTE_KEY: Pubkey = Pubkey { id: 10 };
const TAKER_BASE_KEY: Pubkey = Pubkey { id: 11 };
const TAKER_QUOTE_KEY: Pubkey = Pubkey { id: 12 };
const MINT_AUTHORITY: Pubkey = Pubkey { id: 100 };

struct Fixture {
    eng: CipherEngine,
    state: OrderbookState,
    maker_base: IncoAccount,
    maker_quote: IncoAccount,
    taker_base: IncoAccount,
    taker_quote: IncoAccount,
    base_vault: IncoAccount,
    quote_vault: IncoAccount,
}

fn blank_account() -> IncoAccount {
    IncoAccount {
        mint: pk(0),
        owner: pk(0),
        amount: zivo::cipher::Handle { idx: 0 },
        delegate: None,
        state: AccountState::Uninitialized,
        is_native: None,
        delegated_amount: zivo::cipher::Handle { idx: 0 },
        close_authority: None,
    }
}

fn blank_mint() -> IncoMint {
    IncoMint {
        mint_authority: None,
        supply: zivo::cipher::Handle { idx: 0 },
        decimals: 0,
        is_initialized: false,
        freeze_authority: None,
    }
}

fn account(
    eng: &mut CipherEngine,
    mint: &mut IncoMint,
    mint_key: Pubkey,
    owner: Pubkey,
    balance: u128,
) -> IncoAccount {
    let mut a = blank_account();
    initialize_account(eng, &mut a, mint, mint_key, owner).unwrap();
    if balance > 0 {
        mint_to(eng, mint, mint_key, &mut a, MINT_AUTHORITY, &ct(balance), 0).unwrap();
    }
    a
}

fn setup(require_attestation: bool) -> Fixture {
    let mut eng = CipherEngine::new();
    let mut base_mint = blank_mint();
    initialize_mint(&mut eng, &mut base_mint, 6, MINT_AUTHORITY, None).unwrap();
    let mut quote_mint = blank_mint();
    initialize_mint(&mut eng, &mut quote_mint, 6, MINT_AUTHORITY, None).unwrap();
    let maker_base = account(&mut eng, &mut base_mint, BASE_MINT, MAKER, 1_000);
    let maker_quote = account(&mut eng, &mut quote_mint, QUOTE_MINT, MAKER, 10_000);
    let taker_base = account(&mut eng, &mut base_mint, BASE_MINT, TAKER, 1_000);
    let taker_quote = account(&mut eng, &mut quote_mint, QUOTE_MINT, TAKER, 10_000);
    let base_vault = account(&mut eng, &mut base_mint, BASE_MINT, VAULT_AUTHORITY, 0);
    let quote_vault = account(&mut eng, &mut quote_mint, QUOTE_MINT, VAULT_AUTHORITY, 0);
    let mut state = OrderbookState {
        admin: pk(0),
        order_seq: 77,
        require_attestation: false,
        inco_base_mint: pk(0),
        inco_quote_mint: pk(0),
        inco_vault_authority: pk(0),
        inco_base_vault: pk(0),
        inco_quote_vault: pk(0),
    };
    initialize(
        &mut state,
        ADMIN,
        require_attestation,
        &base_mint,
        &quote_mint,
        BASE_MINT,
        QUOTE_MINT,
        VAULT_AUTHORITY,
        &base_vault,
        &quote_vault,
        BASE_VAULT_KEY,
        QUOTE_VAULT_KEY,
    )
    .unwrap();
    Fixture { eng, state, maker_base, maker_quote, taker_base, taker_quote, base_vault,
        quote_vault }
}

fn place_bid(fx: &mut Fixture, price: u64, size: u128, escrow: u128) -> Order {
    place_order(
        &mut fx.eng,
        &mut fx.state,
        MAKER,
        0,
        price,
        &ct(size),
        0,
        &ct(escrow),
        0,
        &mut fx.maker_base,
        MAKER_BASE_KEY,
        &mut fx.maker_quote,
        MAKER_QUOTE_KEY,
        &mut fx.base_vault,
        &mut fx.quote_vault,
    )
    .unwrap()
}

#[test]
fn initialize_rejects_uninitialized_mints() {
    let fx = setup(false);
    let mut state = fx.state;
    let r = initialize(
        &mut state,
        ADMIN,
        false,
        &blank_mint(),
        &blank_mint(),
        BASE_MINT,
        QUOTE_MINT,
        VAULT_AUTHORITY,
        &fx.base_vault,
        &fx.quote_vault,
        BASE_VAULT_KEY,
        QUOTE_VAULT_KEY,
    );
    assert_eq!(r, Err(OrderbookError::InvalidIncoMintData));
}

#[test]
fn initialize_deposit_registers_and_checks_ownership() {
    let fx = setup(false);
    let deposit = initialize_deposit(
        &fx.state,
        MAKER,
        &fx.maker_base,
        &fx.maker_quote,
        MAKER_BASE_KEY,
        MAKER_QUOTE_KEY,
    )
    .unwrap();
    assert_eq!(deposit.user, MAKER);
    assert_eq!(deposit.base_inco_account, MAKER_BASE_KEY);
    assert_eq!(deposit.quote_inco_account, MAKER_QUOTE_KEY);
    assert_eq!(
        initialize_deposit(
            &fx.state,
            TAKER,
            &fx.maker_base,
            &fx.maker_quote,
            MAKER_BASE_KEY,
            MAKER_QUOTE_KEY
        )
        .unwrap_err(),
        OrderbookError::InvalidIncoAccountOwner
    );
}

#[test]
fn place_order_escrows_and_stamps_sequence() {
    let mut fx = setup(false);
    let order = place_bid(&mut fx, 100, 5, 500);
    assert_eq!(order.owner, MAKER);
    assert_eq!(order.side, Side::Bid);
    assert!(order.is_open);
    assert_eq!(order.price, 100);
    assert_eq!(order.seq, 0);
    assert_eq!(fx.state.order_seq, 1);
    assert_eq!(fx.eng.decrypt(order.remaining_handle), 5);
    assert_eq!(fx.eng.decrypt(fx.maker_quote.amount), 9_500);
    assert_eq!(fx.eng.decrypt(fx.quote_vault.amount), 500);
    assert_eq!(fx.eng.decrypt(fx.maker_base.amount), 1_000);
}

#[test]
fn place_order_rejects_bad_side_and_bad_ciphertext() {
    let mut fx = setup(false);
    let r = place_order(
        &mut fx.eng,
        &mut fx.state,
        MAKER,
        2,
        100,
        &ct(5),
        0,
        &ct(500),
        0,
        &mut fx.maker_base,
        MAKER_BASE_KEY,
        &mut fx.maker_quote,
        MAKER_QUOTE_KEY,
        &mut fx.base_vault,
        &mut fx.quote_vault,
    );
    assert!(matches!(r, Err(OrderbookError::InvalidSide)));
    let empty = Ciphertext { bytes: Vec::new(), value: 500 };
    let r = place_order(
        &mut fx.eng,
        &mut fx.state,
        MAKER,
        0,
        100,
        &ct(5),
        0,
        &empty,
        0,
        &mut fx.maker_base,
        MAKER_BASE_KEY,
        &mut fx.maker_quote,
        MAKER_QUOTE_KEY,
        &mut fx.base_vault,
        &mut fx.quote_vault,
    );
    assert!(matches!(r, Err(OrderbookError::InvalidEscrowCiphertext)));
    assert_eq!(fx.state.order_seq, 0);
}

#[test]
fn cancel_order_refunds_and_closes() {
    let mut fx = setup(false);
    // An ask escrows base funds.
    let mut order = place_order(
        &mut fx.eng,
        &mut fx.state,
        MAKER,
        1,
        100,
        &ct(5),
        0,
        &ct(5),
        0,
        &mut fx.maker_base,
        MAKER_BASE_KEY,
        &mut fx.maker_quote,
        MAKER_QUOTE_KEY,
        &mut fx.base_vault,
        &mut fx.quote_vault,
    )
    .unwrap();
    assert_eq!(fx.eng.decrypt(fx.base_vault.amount), 5);
    assert_eq!(
        cancel_order(
            &mut fx.eng,
            &fx.state,
            &mut order,
            TAKER,
            &ct(5),
            0,
            &mut fx.maker_base,
            MAKER_BASE_KEY,
            &mut fx.maker_quote,
            MAKER_QUOTE_KEY,
            &mut fx.base_vault,
            &mut fx.quote_vault,
        ),
        Err(OrderbookError::InvalidIncoAccountOwner)
    );
    cancel_order(
        &mut fx.eng,
        &fx.state,
        &mut order,
        MAKER,
        &ct(5),
        0,
        &mut fx.maker_base,
        MAKER_BASE_KEY,
        &mut fx.maker_quote,
        MAKER_QUOTE_KEY,
        &mut fx.base_vault,
        &mut fx.quote_vault,
    )
    .unwrap();
    assert!(!order.is_open);
    assert_eq!(fx.eng.decrypt(order.remaining_handle), 0);
    assert_eq!(fx.eng.decrypt(fx.base_vault.amount), 0);
    assert_eq!(fx.eng.decrypt(fx.maker_base.amount), 1_000);
    // A closed order refuses a second cancel.
    let r = cancel_order(
        &mut fx.eng,
        &fx.state,
        &mut order,
        MAKER,
        &ct(5),
        0,
        &mut fx.maker_base,
        MAKER_BASE_KEY,
        &mut fx.maker_quote,
        MAKER_QUOTE_KEY,
        &mut fx.base_vault,
        &mut fx.quote_vault,
    );
    assert_eq!(r, Err(OrderbookError::OrderClosed));
}

fn match_against(fx: &mut Fixture, order: &mut Order, requested: u128, fill_base: u128,
    fill_quote: u128, claim_plaintext: u64) -> Result<(), OrderbookError> {
    match_order(
        &mut fx.eng,
        &fx.state,
        order,
        ADMIN,
        TAKER,
        1,
        100,
        &ct(requested),
        ct(fill_base),
        ct(fill_quote),
        0,
        claim_plaintext,
        &mut fx.maker_base,
        MAKER_BASE_KEY,
        &mut fx.maker_quote,
        MAKER_QUOTE_KEY,
        &mut fx.taker_base,
        TAKER_BASE_KEY,
        &mut fx.taker_quote,
        TAKER_QUOTE_KEY,
        &mut fx.base_vault,
        &mut fx.quote_vault,
    )
}

#[test]
fn order_lifecycle_partial_fill_and_single_claim() {
    let mut fx = setup(false);
    // Maker bids for 5 base at price 100, escrowing 500 quote.
    let mut order = place_bid(&mut fx, 100, 5, 500);
    // The matcher crosses an ask for 3 of the 5.
    match_against(&mut fx, &mut order, 3, 3, 300, 300).unwrap();
    assert_eq!(fx.eng.decrypt(order.remaining_handle), 2);
    assert!(order.is_filled);
    assert!(order.is_open);
    // The taker sold 3 base for 300 quote out of the maker's escrow.
    assert_eq!(fx.eng.decrypt(fx.quote_vault.amount), 200);
    assert_eq!(fx.eng.decrypt(fx.taker_quote.amount), 10_300);
    assert_eq!(fx.eng.decrypt(fx.taker_base.amount), 997);
    assert_eq!(fx.eng.decrypt(fx.maker_base.amount), 1_003);
    close_order(&mut fx.eng, &fx.state, &mut order, MAKER).unwrap();
    assert!(!order.is_open);
    assert!(order.is_filled);
    // The maker claims exactly once.
    maker_claim_filled_order(
        &mut fx.eng,
        &fx.state,
        &mut order,
        MAKER,
        &mut fx.maker_base,
        MAKER_BASE_KEY,
        &mut fx.maker_quote,
        MAKER_QUOTE_KEY,
        &mut fx.base_vault,
        &mut fx.quote_vault,
    )
    .unwrap();
    assert!(order.is_claimed);
    let second = maker_claim_filled_order(
        &mut fx.eng,
        &fx.state,
        &mut order,
        MAKER,
        &mut fx.maker_base,
        MAKER_BASE_KEY,
        &mut fx.maker_quote,
        MAKER_QUOTE_KEY,
        &mut fx.base_vault,
        &mut fx.quote_vault,
    );
    assert_eq!(second, Err(OrderbookError::OrderAlreadyClaimed));
}

#[test]
fn match_order_admission_checks() {
    let mut fx = setup(false);
    let mut order = place_bid(&mut fx, 100, 5, 500);
    let r = match_order(
        &mut fx.eng,
        &fx.state,
        &mut order,
        TAKER,
        TAKER,
        1,
        100,
        &ct(3),
        ct(3),
        ct(300),
        0,
        0,
        &mut fx.maker_base,
        MAKER_BASE_KEY,
        &mut fx.maker_quote,
        MAKER_QUOTE_KEY,
        &mut fx.taker_base,
        TAKER_BASE_KEY,
        &mut fx.taker_quote,
        TAKER_QUOTE_KEY,
        &mut fx.base_vault,
        &mut fx.quote_vault,
    );
    assert_eq!(r, Err(OrderbookError::UnauthorizedMatcher));
    // Same side as the resting order.
    let r = match_order(
        &mut fx.eng,
        &fx.state,
        &mut order,
        ADMIN,
        TAKER,
        0,
        100,
        &ct(3),
        ct(3),
        ct(300),
        0,
        0,
        &mut fx.maker_base,
        MAKER_BASE_KEY,
        &mut fx.maker_quote,
        MAKER_QUOTE_KEY,
        &mut fx.taker_base,
        TAKER_BASE_KEY,
        &mut fx.taker_quote,
        TAKER_QUOTE_KEY,
        &mut fx.base_vault,
        &mut fx.quote_vault,
    );
    assert_eq!(r, Err(OrderbookError::InvalidSide));
    // Exact price match required: no price improvement.
    let r = match_order(
        &mut fx.eng,
        &fx.state,
        &mut order,
        ADMIN,
        TAKER,
        1,
        101,
        &ct(3),
        ct(3),
        ct(300),
        0,
        0,
        &mut fx.maker_base,
        MAKER_BASE_KEY,
        &mut fx.maker_quote,
        MAKER_QUOTE_KEY,
        &mut fx.taker_base,
        TAKER_BASE_KEY,
        &mut fx.taker_quote,
        TAKER_QUOTE_KEY,
        &mut fx.base_vault,
        &mut fx.quote_vault,
    );
    assert_eq!(r, Err(OrderbookError::PriceMismatch));
    assert_eq!(fx.eng.decrypt(order.remaining_handle), 5);
    // A closed order refuses matching.
    close_order(&mut fx.eng, &fx.state, &mut order, MAKER).unwrap();
    let r = match_against(&mut fx, &mut order, 3, 3, 300, 0);
    assert_eq!(r, Err(OrderbookError::OrderClosed));
}

#[test]
fn match_request_above_remaining_fills_the_remainder() {
    let mut fx = setup(false);
    let mut order = place_bid(&mut fx, 100, 5, 500);
    // The taker asks for 9; only 5 rest, so exactly 5 fill.
    match_against(&mut fx, &mut order, 9, 5, 500, 0).unwrap();
    assert_eq!(fx.eng.decrypt(order.remaining_handle), 0);
}

#[test]
fn attestation_pins_the_fill_to_the_clamped_amount() {
    let mut fx = setup(true);
    let mut order = place_bid(&mut fx, 100, 5, 500);
    // The matcher claims a fill of 4, but the clamped fill is 3.
    let r = match_against(&mut fx, &mut order, 3, 4, 300, 0);
    assert_eq!(r, Err(OrderbookError::AttestationFailed));
    assert_eq!(fx.eng.decrypt(order.remaining_handle), 5);
    assert!(!order.is_filled);
    // The honest fill passes the attestation.
    match_against(&mut fx, &mut order, 3, 3, 300, 0).unwrap();
    assert_eq!(fx.eng.decrypt(order.remaining_handle), 2);
}

#[test]
fn close_with_attestation_requires_a_drained_order() {
    let mut fx = setup(true);
    let mut order = place_bid(&mut fx, 100, 5, 500);
    assert_eq!(
        close_order(&mut fx.eng, &fx.state, &mut order, MAKER),
        Err(OrderbookError::RemainingNotZero)
    );
    assert!(order.is_open);
    match_against(&mut fx, &mut order, 5, 5, 500, 0).unwrap();
    close_order(&mut fx.eng, &fx.state, &mut order, MAKER).unwrap();
    assert!(!order.is_open);
    assert!(order.is_filled);
}

#[test]
fn claim_requires_a_closed_filled_order() {
    let mut fx = setup(false);
    let mut order = place_bid(&mut fx, 100, 5, 500);
    let still_open = maker_claim_filled_order(
        &mut fx.eng,
        &fx.state,
        &mut order,
        MAKER,
        &mut fx.maker_base,
        MAKER_BASE_KEY,
        &mut fx.maker_quote,
        MAKER_QUOTE_KEY,
        &mut fx.base_vault,
        &mut fx.quote_vault,
    );
    assert_eq!(still_open, Err(OrderbookError::OrderStillOpen));
    close_order(&mut fx.eng, &fx.state, &mut order, MAKER).unwrap();
    let unfilled = maker_claim_filled_order(
        &mut fx.eng,
        &fx.state,
        &mut order,
        MAKER,
        &mut fx.maker_base,
        MAKER_BASE_KEY,
        &mut fx.maker_quote,
        MAKER_QUOTE_KEY,
        &mut fx.base_vault,
        &mut fx.quote_vault,
    );
    assert_eq!(unfilled, Err(OrderbookError::OrderNotFilled));
    let stranger = maker_claim_filled_order(
        &mut fx.eng,
        &fx.state,
        &mut order,
        TAKER,
        &mut fx.maker_base,
        MAKER_BASE_KEY,
        &mut fx.maker_quote,
        MAKER_QUOTE_KEY,
        &mut fx.base_vault,
        &mut fx.quote_vault,
    );
    assert_eq!(stranger, Err(OrderbookError::InvalidOrderOwner));
}

#[test]
fn submit_match_rejects_self_matches() {
    assert_eq!(
        submit_match(
            SubmitMatchArgs {
                match_id: 1,
                bid_owner: MAKER,
                ask_owner: MAKER,
                base_amount_handle: zivo::cipher::Handle { idx: 0 },
                quote_amount_handle: zivo::cipher::Handle { idx: 0 },
            },
            ADMIN
        )
        .unwrap_err(),
        OrderbookError::CounterpartyMismatch
    );
}

#[test]
fn settle_match_pays_both_sides_exactly_once() {
    let mut fx = setup(false);
    // Fund the vaults so settlement has something to pay out.
    let _bid_escrow = place_bid(&mut fx, 100, 5, 500);
    let _ask_escrow = place_order(
        &mut fx.eng,
        &mut fx.state,
        TAKER,
        1,
        100,
        &ct(5),
        0,
        &ct(5),
        0,
        &mut fx.taker_base,
        TAKER_BASE_KEY,
        &mut fx.taker_quote,
        TAKER_QUOTE_KEY,
        &mut fx.base_vault,
        &mut fx.quote_vault,
    )
    .unwrap();
    let mut record = submit_match(
        SubmitMatchArgs {
            match_id: 9,
            bid_owner: MAKER,
            ask_owner: TAKER,
            base_amount_handle: zivo::cipher::Handle { idx: 0 },
            quote_amount_handle: zivo::cipher::Handle { idx: 0 },
        },
        ADMIN,
    )
    .unwrap();
    assert_eq!(record.status, MatchStatus::Pending);
    let args = SettleMatchArgs {
        match_id: 9,
        base_ciphertext: ct(5),
        quote_ciphertext: ct(500),
        input_type: 0,
    };
    settle_match(
        &mut fx.eng,
        &fx.state,
        &mut record,
        &args,
        &mut fx.maker_base,
        MAKER_BASE_KEY,
        &mut fx.taker_quote,
        TAKER_QUOTE_KEY,
        &mut fx.base_vault,
        &mut fx.quote_vault,
    )
    .unwrap();
    assert_eq!(record.status, MatchStatus::Settled);
    assert_eq!(fx.eng.decrypt(fx.maker_base.amount), 1_005);
    assert_eq!(fx.eng.decrypt(fx.taker_quote.amount), 10_500);
    assert_eq!(fx.eng.decrypt(fx.base_vault.amount), 0);
    assert_eq!(fx.eng.decrypt(fx.quote_vault.amount), 0);
    let again = settle_match(
        &mut fx.eng,
        &fx.state,
        &mut record,
        &args,
        &mut fx.maker_base,
        MAKER_BASE_KEY,
        &mut fx.taker_quote,
        TAKER_QUOTE_KEY,
        &mut fx.base_vault,
        &mut fx.quote_vault,
    );
    assert_eq!(again, Err(OrderbookError::MatchAlreadySettled));
    assert_eq!(fx.eng.decrypt(fx.maker_base.amount), 1_005);
    assert_eq!(record.status, MatchStatus::Settled);
}

#[test]
fn admin_utilities_gate_on_the_admin() {
    let mut fx = setup(false);
    let _order = place_bid(&mut fx, 100, 5, 500);
    assert_eq!(fx.state.order_seq, 1);
    assert_eq!(
        bump_order_seq(&mut fx.state, TAKER),
        Err(OrderbookError::UnauthorizedMatcher)
    );
    bump_order_seq(&mut fx.state, ADMIN).unwrap();
    assert_eq!(fx.state.order_seq, 2);
    assert_eq!(
        reset_state(&mut fx.state, TAKER),
        Err(OrderbookError::UnauthorizedMatcher)
    );
    reset_state(&mut fx.state, ADMIN).unwrap();
    assert_eq!(fx.state.order_seq, 0);
}

#[test]
fn sequence_counter_wraps_instead_of_failing() {
    let mut fx = setup(false);
    fx.state.order_seq = u64::MAX;
    bump_order_seq(&mut fx.state, ADMIN).unwrap();
    assert_eq!(fx.state.order_seq, 0);
}

#[test]
fn escrow_transfer_failures_surface_as_ledger_errors() {
    let mut fx = setup(false);
    // Freeze the maker's quote account, then try to place a bid.
    let mut frozen = fx.maker_quote;
    frozen.state = AccountState::Frozen;
    let r = place_order(
        &mut fx.eng,
        &mut fx.state,
        MAKER,
        0,
        100,
        &ct(5),
        0,
        &ct(500),
        0,
        &mut fx.maker_base,
        MAKER_BASE_KEY,
        &mut frozen,
        MAKER_QUOTE_KEY,
        &mut fx.base_vault,
        &mut fx.quote_vault,
    );
    assert_eq!(r.unwrap_err(), OrderbookError::Token(CustomError::AccountFrozen));
    assert_eq!(fx.state.order_seq, 0);
}
