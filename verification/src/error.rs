use vstd::prelude::*;

verus! {

/// The failures this program detects itself, before it asks the external
/// collaborators for anything.
#[derive(Clone, Copy, Debug, PartialEq, Eq, Structural)]
pub enum ErrorCode {
    /// Dispense was invoked before initialization completed.
    Uninitialized,
    /// The supplied mint does not match the mint bound at initialization.
    MintMismatch,
    /// Authority derivation found no valid off-curve proof byte.
    BumpError,
}

/// A failure the external record store reports; it propagates verbatim.
#[derive(Clone, Copy, Debug, PartialEq, Eq, Structural)]
pub enum StoreError {
    /// A create was attempted at an address that already holds a record.
    AlreadyExists,
}

/// A failure the external accounting service reports; it propagates verbatim.
#[derive(Clone, Copy, Debug, PartialEq, Eq, Structural)]
pub enum AccountingError {
    /// The signer of a mint instruction is not the mint's minting authority.
    NotMintAuthority,
    /// The destination token account is not owned by the mint being issued.
    DestinationMintMismatch,
    /// Minting the requested amount would overflow the mint's total supply.
    SupplyOverflow,
    /// Minting the requested amount would overflow the destination's balance.
    BalanceOverflow,
}

/// Everything a faucet operation can fail with: its own validation failures,
/// and the collaborators' failures passed through unchanged.
#[derive(Clone, Copy, Debug, PartialEq, Eq, Structural)]
pub enum FaucetError {
    Program(ErrorCode),
    Store(StoreError),
    Accounting(AccountingError),
}

} // verus!
