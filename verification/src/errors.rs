use vstd::prelude::*;

verus! {

/// Why an operation was rejected. Every precondition failure returns one of
/// these before any mutation, so a failed operation leaves the vault record
/// and all external balances exactly as they were.
#[derive(Clone, Copy, Debug, PartialEq, Eq, Structural)]
pub enum VaultError {
    /// The operation was attempted while the vault's lock flag was set.
    VaultLocked,
    /// The depositor cannot cover a deposit, or the vault's balance above
    /// its reserve floor cannot cover a withdrawal.
    InsufficientBalance,
    /// A checked addition would exceed the representable range.
    Overflow,
    /// The caller of a withdrawal is not the vault's authority.
    Unauthorized,
}

} // verus!
