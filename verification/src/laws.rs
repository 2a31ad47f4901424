use vstd::prelude::*;

use crate::account::AccountId;
use crate::vault::Vault;

verus! {

/// One operation of a history, together with the acting party's external
/// balance at the moment it ran. `Vault::deposit` and `Vault::withdraw`
/// promise in their contracts that a call succeeds exactly when
/// `op_allowed` holds and then leaves the vault at `op_apply`, so the
/// lemmas below speak about every sequence of successful calls.
#[derive(Clone, Copy, Debug, PartialEq, Eq, Structural)]
pub enum VaultOp {
    Deposit { depositor: AccountId, depositor_balance: u64, amount: u64 },
    Withdraw { caller: AccountId, caller_balance: u64, amount: u64 },
}

/// Exactly when `op` succeeds against `vault`: the success condition of the
/// matching operation's contract.
pub open spec fn op_allowed(vault: Vault, op: VaultOp) -> bool {
    match op {
        VaultOp::Deposit { depositor: _, depositor_balance, amount } => vault.can_deposit(
            depositor_balance,
            amount,
        ),
        VaultOp::Withdraw { caller, caller_balance, amount } => vault.can_withdraw(
            caller,
            caller_balance,
            amount,
        ),
    }
}

/// The vault record a successful `op` leaves behind.
pub open spec fn op_apply(vault: Vault, op: VaultOp) -> Vault {
    match op {
        VaultOp::Deposit { depositor: _, depositor_balance: _, amount } => vault.after_deposit(
            amount,
        ),
        VaultOp::Withdraw { caller: _, caller_balance: _, amount } => vault.after_withdraw(amount),
    }
}

/// Whether every operation of `ops`, run in order from `vault`, succeeds.
pub open spec fn ops_allowed(vault: Vault, ops: Seq<VaultOp>) -> bool
    decreases ops.len(),
{
    ops.len() == 0 || (op_allowed(vault, ops[0]) && ops_allowed(op_apply(vault, ops[0]), ops.skip(1)))
}

/// The vault record after running all of `ops`, in order, from `vault`.
pub open spec fn run_ops(vault: Vault, ops: Seq<VaultOp>) -> Vault
    decreases ops.len(),
{
    if ops.len() == 0 {
        vault
    } else {
        run_ops(op_apply(vault, ops[0]), ops.skip(1))
    }
}

/// The total amount the deposits of `ops` move into the vault.
pub open spec fn sum_deposits(ops: Seq<VaultOp>) -> int
    decreases ops.len(),
{
    if ops.len() == 0 {
        0
    } else {
        (match ops[0] {
            VaultOp::Deposit { depositor: _, depositor_balance: _, amount } => amount as int,
            VaultOp::Withdraw { .. } => 0,
        }) + sum_deposits(ops.skip(1))
    }
}

/// The total amount the withdrawals of `ops` move out of the vault.
pub open spec fn sum_withdrawals(ops: Seq<VaultOp>) -> int
    decreases ops.len(),
{
    if ops.len() == 0 {
        0
    } else {
        (match ops[0] {
            VaultOp::Deposit { .. } => 0,
            VaultOp::Withdraw { caller: _, caller_balance: _, amount } => amount as int,
        }) + sum_withdrawals(ops.skip(1))
    }
}

/// Conservation: over any sequence of successful operations, value is
/// neither created nor destroyed — the final vault balance plus everything
/// withdrawn equals the initial balance plus everything deposited.
pub proof fn lemma_conservation(vault: Vault, ops: Seq<VaultOp>)
    requires
        ops_allowed(vault, ops),
    ensures
        run_ops(vault, ops).balance + sum_withdrawals(ops) == vault.balance + sum_deposits(ops),
    decreases ops.len(),
{
    if ops.len() != 0 {
        lemma_conservation(op_apply(vault, ops[0]), ops.skip(1));
    }
}

/// Lock exclusivity: no operation at all succeeds against a locked vault.
/// The operations' own contracts add the rest: the failure leaves the vault
/// and every external balance unchanged, and an authorized caller is told
/// `VaultLocked`.
pub proof fn lemma_lock_exclusivity(vault: Vault, op: VaultOp)
    requires
        vault.locked,
    ensures
        !op_allowed(vault, op),
{
}

/// Reserve preservation: a vault funded at least to its reserve floor stays
/// so under every sequence of successful operations. A single successful
/// withdrawal ends at or above the floor even without the assumption, as
/// `Vault::withdraw` promises.
pub proof fn lemma_reserve_preserved(vault: Vault, ops: Seq<VaultOp>)
    requires
        vault.wf(),
        ops_allowed(vault, ops),
    ensures
        run_ops(vault, ops).wf(),
    decreases ops.len(),
{
    if ops.len() != 0 {
        lemma_reserve_preserved(op_apply(vault, ops[0]), ops.skip(1));
    }
}

/// No sequence of successful operations touches anything but the balance:
/// the identity, the authority, the lock flag and the reserve floor all
/// survive unchanged. In particular the authority is immutable after
/// creation.
pub proof fn lemma_only_balance_moves(vault: Vault, ops: Seq<VaultOp>)
    ensures
        run_ops(vault, ops).id == vault.id,
        run_ops(vault, ops).authority == vault.authority,
        run_ops(vault, ops).locked == vault.locked,
        run_ops(vault, ops).reserve_floor == vault.reserve_floor,
    decreases ops.len(),
{
    if ops.len() != 0 {
        lemma_only_balance_moves(op_apply(vault, ops[0]), ops.skip(1));
    }
}

} // verus!
