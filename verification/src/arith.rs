use vstd::prelude::*;

verus! {

/// Checked addition on balances: `None` exactly when the sum would not fit
/// in a `u64`. Every balance credit in the vault core routes through this,
/// so an overflow surfaces as an error instead of wrapping.
pub fn checked_add(a: u64, b: u64) -> (r: Option<u64>)
    ensures
        a + b <= u64::MAX ==> r == Some((a + b) as u64),
        a + b > u64::MAX ==> r is None,
{
    if a <= u64::MAX - b {
        Some(a + b)
    } else {
        None
    }
}

/// Checked subtraction on balances: `None` exactly when the difference
/// would be negative. Every balance debit in the vault core routes through
/// this, so an underflow surfaces as an error instead of wrapping.
pub fn checked_sub(a: u64, b: u64) -> (r: Option<u64>)
    ensures
        b <= a ==> r == Some((a - b) as u64),
        b > a ==> r is None,
{
    if b <= a {
        Some(a - b)
    } else {
        None
    }
}

} // verus!
