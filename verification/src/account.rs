use vstd::prelude::*;

verus! {

/// A fixed-width identity handed in by the hosting environment: a vault
/// authority, a depositor, or the vault record itself. The core never
/// authenticates an identity; it only compares identities for equality.
#[derive(Clone, Copy, Debug, PartialEq, Eq, Hash, Structural)]
pub struct AccountId(pub u64);

} // verus!
