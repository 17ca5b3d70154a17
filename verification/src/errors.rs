use vstd::prelude::*;

verus! {

/// Errors of the confidential token ledger.
#[derive(Clone, Copy, PartialEq, Eq, Structural, Debug)]
pub enum CustomError {
    NotRentExempt,
    InsufficientFunds,
    InvalidMint,
    MintMismatch,
    OwnerMismatch,
    FixedSupply,
    AlreadyInUse,
    InvalidNumberOfProvidedSigners,
    InvalidNumberOfRequiredSigners,
    UninitializedState,
    NativeNotSupported,
    NonNativeHasBalance,
    InvalidInstruction,
    InvalidState,
    Overflow,
    AuthorityTypeNotSupported,
    MintCannotFreeze,
    AccountFrozen,
    MintDecimalsMismatch,
    NonNativeNotSupported,
}

/// Errors of the associated-account creation calls.
#[derive(Clone, Copy, PartialEq, Eq, Structural, Debug)]
pub enum IncoAssociatedTokenError {
    UninitializedMint,
    AlreadyInitialized,
    InvalidProgram,
}

/// Errors of the order-matching engine.
///
/// `Token` carries a ledger error out of an escrow or payout transfer that
/// the engine performs on the caller's behalf. `AttestationFailed` surfaces a
/// rejected fill attestation, which in the deployed system aborts the call
/// inside the proof-verifying service.
#[derive(Clone, Copy, PartialEq, Eq, Structural, Debug)]
pub enum OrderbookError {
    InvalidSide,
    InvalidEscrowCiphertext,
    CounterpartyMismatch,
    OrderClosed,
    UnauthorizedMatcher,
    PriceMismatch,
    RemainingNotZero,
    MatchAlreadySettled,
    InvalidIncoProgramOwner,
    InvalidIncoAccountData,
    InvalidIncoMintData,
    InvalidIncoAccountOwner,
    InvalidIncoAccountMint,
    InvalidOrderPda,
    InvalidOrderOwner,
    OrderStillOpen,
    OrderNotFilled,
    OrderAlreadyClaimed,
    AttestationFailed,
    Token(CustomError),
}

/// Errors of the wrap vault and the shielded pool.
///
/// `Token` carries a ledger error out of the confidential mint or burn leg.
#[derive(Clone, Copy, PartialEq, Eq, Structural, Debug)]
pub enum WrapError {
    VaultNotInitialized,
    InvalidMint,
    InvalidIncoMint,
    InsufficientBalance,
    PoolNotInitialized,
    InvalidTreeConfig,
    ProofNotVerified,
    NullifierAlreadySpent,
    Token(CustomError),
}

} // verus!
