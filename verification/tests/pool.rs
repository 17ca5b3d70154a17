use zivo::cipher::CipherEngine;
use zivo::errors::{CustomError, WrapError};
use zivo::shielded::{
    init_shielded_pool, shielded_transfer, unwrap_from_note, wrap_and_commit, Accumulator,
    AddressTag, Digest, PoolAddress, ShieldedPoolConfig,
};
use zivo::token::{initialize_account, initialize_mint, AccountState, IncoAccount, IncoMint};
use zivo::types::{Ciphertext, Pubkey};
use zivo::wrap::{
    grant_allowance, initialize_vault, plain_transfer, unwrap_token, wrap_token, TokenAccount,
    Vault,
};

fn pk(id: u128) -> Pubkey {
    Pubkey { id }
}

fn ct(value: u128) -> Ciphertext {
    Ciphertext {
        bytes: vec![0x3C; 16],
        value,
    }
}

fn digest(n: u128) -> Digest {
    Digest { hi: n, lo: !n }
}

const SPL_MINT: Pubkey = Pubkey { id: 1 };
const INCO_MINT: Pubkey = Pubkey { id: 2 };
const VAULT_KEY: Pubkey = Pubkey { id: 3 };
const VAULT_SPL_KEY: Pubkey = Pubkey { id: 4 };
const USER: Pubkey = Pubkey { id: 5 };
const AUTHORITY: Pubkey = Pubkey { id: 6 };

struct Fixture {
    eng: CipherEngine,
    vault: Vault,
    inco_mint: IncoMint,
    user_spl: TokenAccount,
    vault_spl: TokenAccount,
    user_inco: IncoAccount,
    pool: ShieldedPoolConfig,
    accumulator: Accumulator,
}

fn setup() -> Fixture {
    let mut eng = CipherEngine::new();
    // The vault record itself is the confidential mint's authority.
    let mut inco_mint = IncoMint {
        mint_authority: None,
        supply: zivo::cipher::Handle { idx: 0 },
        decimals: 0,
        is_initialized: false,
        freeze_authority: None,
    };
    initialize_mint(&mut eng, &mut inco_mint, 6, VAULT_KEY, None).unwrap();
    let mut user_inco = IncoAccount {
        mint: pk(0),
        owner: pk(0),
        amount: zivo::cipher::Handle { idx: 0 },
        delegate: None,
        state: AccountState::Uninitialized,
        is_native: None,
        delegated_amount: zivo::cipher::Handle { idx: 0 },
        close_authority: None,
    };
    initialize_account(&mut eng, &mut user_inco, &inco_mint, INCO_MINT, USER).unwrap();
    let user_spl = TokenAccount { mint: SPL_MINT, owner: USER, amount: 10_000 };
    let vault_spl = TokenAccount { mint: SPL_MINT, owner: VAULT_KEY, amount: 0 };
    let mut vault = Vault {
        authority: pk(0),
        spl_token_mint: pk(0),
        inco_token_mint: pk(0),
        vault_token_account: pk(0),
        is_initialized: false,
    };
    initialize_vault(&mut vault, VAULT_KEY, AUTHORITY, SPL_MINT, INCO_MINT, &vault_spl,
        VAULT_SPL_KEY)
        .unwrap();
    let mut pool = ShieldedPoolConfig {
        authority: pk(0),
        vault: pk(0),
        spl_token_mint: pk(0),
        inco_token_mint: pk(0),
        state_tree: pk(0),
        address_tree: pk(0),
        nullifier_queue: pk(0),
        tree_depth: 0,
        is_initialized: false,
    };
    init_shielded_pool(&mut pool, AUTHORITY, &vault, VAULT_KEY, SPL_MINT, INCO_MINT, pk(30),
        pk(31), pk(32), 26)
        .unwrap();
    Fixture {
        eng,
        vault,
        inco_mint,
        user_spl,
        vault_spl,
        user_inco,
        pool,
        accumulator: Accumulator::new(),
    }
}

#[test]
fn vault_initialization_checks_its_escrow_account() {
    let mut vault = Vault {
        authority: pk(0),
        spl_token_mint: pk(0),
        inco_token_mint: pk(0),
        vault_token_account: pk(0),
        is_initialized: false,
    };
    let foreign = TokenAccount { mint: pk(77), owner: VAULT_KEY, amount: 0 };
    assert_eq!(
        initialize_vault(&mut vault, VAULT_KEY, AUTHORITY, SPL_MINT, INCO_MINT, &foreign,
            VAULT_SPL_KEY),
        Err(WrapError::InvalidMint)
    );
    let stray = TokenAccount { mint: SPL_MINT, owner: pk(88), amount: 0 };
    assert_eq!(
        initialize_vault(&mut vault, VAULT_KEY, AUTHORITY, SPL_MINT, INCO_MINT, &stray,
            VAULT_SPL_KEY),
        Err(WrapError::Token(CustomError::OwnerMismatch))
    );
    assert!(!vault.is_initialized);
}

#[test]
fn wrap_moves_plaintext_in_and_mints_confidentially() {
    let mut fx = setup();
    wrap_token(
        &mut fx.eng,
        &fx.vault,
        VAULT_KEY,
        SPL_MINT,
        &mut fx.inco_mint,
        INCO_MINT,
        USER,
        &mut fx.user_spl,
        &mut fx.vault_spl,
        VAULT_SPL_KEY,
        &mut fx.user_inco,
        &ct(250),
        0,
        250,
    )
    .unwrap();
    assert_eq!(fx.user_spl.amount, 9_750);
    assert_eq!(fx.vault_spl.amount, 250);
    assert_eq!(fx.eng.decrypt(fx.user_inco.amount), 250);
    assert_eq!(fx.eng.decrypt(fx.inco_mint.supply), 250);
}

#[test]
fn wrap_rejects_an_uninitialized_vault_and_short_funds() {
    let mut fx = setup();
    let dead_vault = Vault { is_initialized: false, ..fx.vault };
    assert_eq!(
        wrap_token(
            &mut fx.eng,
            &dead_vault,
            VAULT_KEY,
            SPL_MINT,
            &mut fx.inco_mint,
            INCO_MINT,
            USER,
            &mut fx.user_spl,
            &mut fx.vault_spl,
            VAULT_SPL_KEY,
            &mut fx.user_inco,
            &ct(1),
            0,
            1
        ),
        Err(WrapError::VaultNotInitialized)
    );
    // The plaintext leg is exact, not clamped: short funds fail the call.
    assert_eq!(
        wrap_token(
            &mut fx.eng,
            &fx.vault,
            VAULT_KEY,
            SPL_MINT,
            &mut fx.inco_mint,
            INCO_MINT,
            USER,
            &mut fx.user_spl,
            &mut fx.vault_spl,
            VAULT_SPL_KEY,
            &mut fx.user_inco,
            &ct(20_000),
            0,
            20_000
        ),
        Err(WrapError::Token(CustomError::InsufficientFunds))
    );
    assert_eq!(fx.user_spl.amount, 10_000);
    assert_eq!(fx.eng.decrypt(fx.user_inco.amount), 0);
}

#[test]
fn unwrap_burns_clamped_and_releases_exact_plaintext() {
    let mut fx = setup();
    wrap_token(
        &mut fx.eng,
        &fx.vault,
        VAULT_KEY,
        SPL_MINT,
        &mut fx.inco_mint,
        INCO_MINT,
        USER,
        &mut fx.user_spl,
        &mut fx.vault_spl,
        VAULT_SPL_KEY,
        &mut fx.user_inco,
        &ct(400),
        0,
        400,
    )
    .unwrap();
    unwrap_token(
        &mut fx.eng,
        &fx.vault,
        SPL_MINT,
        &mut fx.inco_mint,
        INCO_MINT,
        USER,
        &mut fx.user_spl,
        &mut fx.vault_spl,
        VAULT_SPL_KEY,
        &mut fx.user_inco,
        &ct(150),
        0,
        150,
    )
    .unwrap();
    assert_eq!(fx.eng.decrypt(fx.user_inco.amount), 250);
    assert_eq!(fx.eng.decrypt(fx.inco_mint.supply), 250);
    assert_eq!(fx.vault_spl.amount, 250);
    assert_eq!(fx.user_spl.amount, 9_750);
    // Draining the vault beyond its escrow fails the plaintext leg.
    assert_eq!(
        unwrap_token(
            &mut fx.eng,
            &fx.vault,
            SPL_MINT,
            &mut fx.inco_mint,
            INCO_MINT,
            USER,
            &mut fx.user_spl,
            &mut fx.vault_spl,
            VAULT_SPL_KEY,
            &mut fx.user_inco,
            &ct(251),
            0,
            251
        ),
        Err(WrapError::Token(CustomError::InsufficientFunds))
    );
}

#[test]
fn grant_allowance_records_the_user_grant() {
    let mut fx = setup();
    grant_allowance(&mut fx.eng, INCO_MINT, &fx.user_inco, USER).unwrap();
    assert!(fx.eng.is_granted(fx.user_inco.amount, USER));
    assert_eq!(
        grant_allowance(&mut fx.eng, pk(99), &fx.user_inco, USER),
        Err(WrapError::InvalidIncoMint)
    );
    assert_eq!(
        grant_allowance(&mut fx.eng, INCO_MINT, &fx.user_inco, pk(77)),
        Err(WrapError::Token(CustomError::OwnerMismatch))
    );
}

#[test]
fn shielded_transfer_inserts_nullifier_and_commitment() {
    let mut fx = setup();
    shielded_transfer(&fx.pool, &mut fx.accumulator, true, digest(1), digest(2)).unwrap();
    assert!(fx.accumulator.contains(PoolAddress {
        tag: AddressTag::Nullifier,
        digest: digest(1)
    }));
    assert!(fx.accumulator.contains(PoolAddress {
        tag: AddressTag::Commitment,
        digest: digest(2)
    }));
    // The same 32 bytes under the other tag is a different address.
    assert!(!fx.accumulator.contains(PoolAddress {
        tag: AddressTag::Commitment,
        digest: digest(1)
    }));
}

#[test]
fn shielded_transfer_rejects_a_failed_proof() {
    let mut fx = setup();
    assert_eq!(
        shielded_transfer(&fx.pool, &mut fx.accumulator, false, digest(1), digest(2)),
        Err(WrapError::ProofNotVerified)
    );
    let dead_pool = ShieldedPoolConfig { is_initialized: false, ..fx.pool };
    assert_eq!(
        shielded_transfer(&dead_pool, &mut fx.accumulator, true, digest(1), digest(2)),
        Err(WrapError::PoolNotInitialized)
    );
    assert!(!fx.accumulator.contains(PoolAddress {
        tag: AddressTag::Nullifier,
        digest: digest(1)
    }));
}

#[test]
fn reused_nullifier_fails_and_first_insertion_stands() {
    let mut fx = setup();
    shielded_transfer(&fx.pool, &mut fx.accumulator, true, digest(1), digest(2)).unwrap();
    // The same nullifier with a fresh commitment must fail the whole call.
    assert_eq!(
        shielded_transfer(&fx.pool, &mut fx.accumulator, true, digest(1), digest(3)),
        Err(WrapError::NullifierAlreadySpent)
    );
    // The first insertion's effects are intact, and the second call's
    // commitment was not inserted.
    assert!(fx.accumulator.contains(PoolAddress {
        tag: AddressTag::Nullifier,
        digest: digest(1)
    }));
    assert!(fx.accumulator.contains(PoolAddress {
        tag: AddressTag::Commitment,
        digest: digest(2)
    }));
    assert!(!fx.accumulator.contains(PoolAddress {
        tag: AddressTag::Commitment,
        digest: digest(3)
    }));
    assert_eq!(fx.accumulator.entries.len(), 2);
}

#[test]
fn wrap_and_commit_fuses_mint_and_note_registration() {
    let mut fx = setup();
    wrap_and_commit(
        &mut fx.eng,
        &fx.vault,
        VAULT_KEY,
        SPL_MINT,
        &mut fx.inco_mint,
        INCO_MINT,
        USER,
        &mut fx.user_spl,
        &mut fx.vault_spl,
        VAULT_SPL_KEY,
        &mut fx.user_inco,
        &ct(600),
        0,
        600,
        &fx.pool,
        &mut fx.accumulator,
        digest(7),
    )
    .unwrap();
    assert_eq!(fx.vault_spl.amount, 600);
    assert_eq!(fx.eng.decrypt(fx.user_inco.amount), 600);
    assert!(fx.accumulator.contains(PoolAddress {
        tag: AddressTag::Commitment,
        digest: digest(7)
    }));
    // Registering the same note again fails before anything moves.
    assert_eq!(
        wrap_and_commit(
            &mut fx.eng,
            &fx.vault,
            VAULT_KEY,
            SPL_MINT,
            &mut fx.inco_mint,
            INCO_MINT,
            USER,
            &mut fx.user_spl,
            &mut fx.vault_spl,
            VAULT_SPL_KEY,
            &mut fx.user_inco,
            &ct(600),
            0,
            600,
            &fx.pool,
            &mut fx.accumulator,
            digest(7)
        ),
        Err(WrapError::NullifierAlreadySpent)
    );
    assert_eq!(fx.vault_spl.amount, 600);
}

#[test]
fn unwrap_from_note_spends_the_note_once() {
    let mut fx = setup();
    wrap_and_commit(
        &mut fx.eng,
        &fx.vault,
        VAULT_KEY,
        SPL_MINT,
        &mut fx.inco_mint,
        INCO_MINT,
        USER,
        &mut fx.user_spl,
        &mut fx.vault_spl,
        VAULT_SPL_KEY,
        &mut fx.user_inco,
        &ct(600),
        0,
        600,
        &fx.pool,
        &mut fx.accumulator,
        digest(7),
    )
    .unwrap();
    let mut recipient = TokenAccount { mint: SPL_MINT, owner: pk(50), amount: 0 };
    unwrap_from_note(
        &mut fx.eng,
        &fx.vault,
        SPL_MINT,
        &mut fx.inco_mint,
        INCO_MINT,
        USER,
        &mut fx.user_inco,
        &mut fx.vault_spl,
        VAULT_SPL_KEY,
        &mut recipient,
        &ct(600),
        0,
        600,
        &fx.pool,
        &mut fx.accumulator,
        true,
        digest(8),
    )
    .unwrap();
    assert_eq!(recipient.amount, 600);
    assert_eq!(fx.vault_spl.amount, 0);
    assert_eq!(fx.eng.decrypt(fx.user_inco.amount), 0);
    assert_eq!(fx.eng.decrypt(fx.inco_mint.supply), 0);
    assert!(fx.accumulator.contains(PoolAddress {
        tag: AddressTag::Nullifier,
        digest: digest(8)
    }));
    // Spending the same note again is refused, with nothing changed.
    assert_eq!(
        unwrap_from_note(
            &mut fx.eng,
            &fx.vault,
            SPL_MINT,
            &mut fx.inco_mint,
            INCO_MINT,
            USER,
            &mut fx.user_inco,
            &mut fx.vault_spl,
            VAULT_SPL_KEY,
            &mut recipient,
            &ct(1),
            0,
            0,
            &fx.pool,
            &mut fx.accumulator,
            true,
            digest(8)
        ),
        Err(WrapError::NullifierAlreadySpent)
    );
    assert_eq!(recipient.amount, 600);
    // A failed proof also aborts the whole call.
    assert_eq!(
        unwrap_from_note(
            &mut fx.eng,
            &fx.vault,
            SPL_MINT,
            &mut fx.inco_mint,
            INCO_MINT,
            USER,
            &mut fx.user_inco,
            &mut fx.vault_spl,
            VAULT_SPL_KEY,
            &mut recipient,
            &ct(1),
            0,
            0,
            &fx.pool,
            &mut fx.accumulator,
            false,
            digest(9)
        ),
        Err(WrapError::ProofNotVerified)
    );
}

#[test]
fn plain_transfer_is_exact_and_checked() {
    let mut a = TokenAccount { mint: SPL_MINT, owner: USER, amount: 100 };
    let mut b = TokenAccount { mint: SPL_MINT, owner: pk(50), amount: u64::MAX - 10 };
    assert_eq!(plain_transfer(&mut a, &mut b, 11), Err(CustomError::Overflow));
    assert_eq!(plain_transfer(&mut a, &mut b, 101), Err(CustomError::InsufficientFunds));
    let mut c = TokenAccount { mint: pk(9), owner: pk(50), amount: 0 };
    assert_eq!(plain_transfer(&mut a, &mut c, 1), Err(CustomError::MintMismatch));
    let mut d = TokenAccount { mint: SPL_MINT, owner: pk(50), amount: 7 };
    plain_transfer(&mut a, &mut d, 40).unwrap();
    assert_eq!(a.amount, 60);
    assert_eq!(d.amount, 47);
}

#[test]
fn init_shielded_pool_checks_the_vault_binding() {
    let fx = setup();
    let mut pool = fx.pool;
    assert_eq!(
        init_shielded_pool(&mut pool, AUTHORITY, &fx.vault, VAULT_KEY, pk(99), INCO_MINT, pk(30),
            pk(31), pk(32), 26),
        Err(WrapError::InvalidMint)
    );
    assert_eq!(
        init_shielded_pool(&mut pool, AUTHORITY, &fx.vault, VAULT_KEY, SPL_MINT, pk(99), pk(30),
            pk(31), pk(32), 26),
        Err(WrapError::InvalidIncoMint)
    );
}
