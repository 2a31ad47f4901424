use vstd::prelude::*;

use crate::account::AccountId;
use crate::arith::checked_add;
use crate::arith::checked_sub;
use crate::errors::VaultError;
use crate::events::DepositEvent;
use crate::events::Event;
use crate::events::EventLog;
use crate::events::WithdrawEvent;

verus! {

/// One custodied pool of value. All state lives in this record: the hosting
/// environment loads it before an operation and persists it afterwards, and
/// guarantees that no two operations on the same record run concurrently.
#[derive(Clone, Copy, Debug, PartialEq, Eq, Structural)]
pub struct Vault {
    /// Identity of the vault record itself, carried into events.
    pub id: AccountId,
    /// The one identity permitted to withdraw; immutable after creation.
    pub authority: AccountId,
    /// Custodied value held by the vault's own account.
    pub balance: u64,
    /// While set, every deposit and withdrawal is rejected.
    pub locked: bool,
    /// The minimum balance the vault's account must retain to stay valid in
    /// its storage environment. Supplied by the host's sizing rules at
    /// creation, not a constant of the core.
    pub reserve_floor: u64,
}

/// A request to move `amount` from `depositor`'s external balance into the
/// vault. Any identity may deposit.
#[derive(Clone, Copy, Debug, PartialEq, Eq, Structural)]
pub struct Deposit {
    pub depositor: AccountId,
    pub amount: u64,
}

/// A request to move `amount` out of the vault into the authority's
/// external balance. The signer is required to equal the vault's authority.
#[derive(Clone, Copy, Debug, PartialEq, Eq, Structural)]
pub struct Withdraw {
    pub amount: u64,
}

impl Vault {
    /// Well-formedness: the vault's own account satisfies its reserve floor.
    /// Established at creation and preserved by every operation.
    pub open spec fn wf(self) -> bool {
        self.balance >= self.reserve_floor
    }

    /// The withdrawable part of the balance: whatever exceeds the reserve
    /// floor, and zero when the balance is under the floor.
    pub open spec fn spec_available(self) -> int {
        if self.balance >= self.reserve_floor {
            self.balance - self.reserve_floor
        } else {
            0
        }
    }

    /// Exactly when a deposit of `amount` from an external balance of
    /// `depositor_balance` succeeds. The depositor's whole external balance
    /// counts: the depositor's own reserve is the depositor's concern.
    pub open spec fn can_deposit(self, depositor_balance: u64, amount: u64) -> bool {
        &&& !self.locked
        &&& amount <= depositor_balance
        &&& self.balance + amount <= u64::MAX
    }

    /// Exactly when a withdrawal of `amount` by `caller`, whose external
    /// balance is `caller_balance`, succeeds: the caller is the authority,
    /// the vault is unlocked, the balance net of the reserve floor covers
    /// the amount, and the credit to the caller fits in a `u64`.
    pub open spec fn can_withdraw(self, caller: AccountId, caller_balance: u64, amount: u64) -> bool {
        &&& caller == self.authority
        &&& !self.locked
        &&& self.reserve_floor <= self.balance
        &&& amount <= self.balance - self.reserve_floor
        &&& caller_balance + amount <= u64::MAX
    }

    /// The vault record after a successful deposit: only the balance moves.
    pub open spec fn after_deposit(self, amount: u64) -> Vault {
        Vault { balance: (self.balance + amount) as u64, ..self }
    }

    /// The vault record after a successful withdrawal: only the balance moves.
    pub open spec fn after_withdraw(self, amount: u64) -> Vault {
        Vault { balance: (self.balance - amount) as u64, ..self }
    }

    /// Builds a vault record as the host's out-of-scope initialization
    /// operation would: funded at least to its reserve floor.
    pub fn new(
        id: AccountId,
        authority: AccountId,
        balance: u64,
        locked: bool,
        reserve_floor: u64,
    ) -> (vault: Vault)
        requires
            balance >= reserve_floor,
        ensures
            vault == (Vault { id, authority, balance, locked, reserve_floor }),
            vault.wf(),
    {
        Vault { id, authority, balance, locked, reserve_floor }
    }

    /// The withdrawable balance, as a value: the balance net of the reserve
    /// floor, zero when the subtraction would underflow.
    pub fn available(&self) -> (amount: u64)
        ensures
            amount == self.spec_available(),
    {
        match checked_sub(self.balance, self.reserve_floor) {
            Some(amount) => amount,
            None => 0,
        }
    }

    /// Deposits `request.amount` into the vault: debits the depositor's
    /// external balance, credits the vault's balance, and records a
    /// `DepositEvent` — or rejects the request before any mutation.
    pub fn deposit(
        &mut self,
        request: Deposit,
        depositor_balance: &mut u64,
        log: &mut EventLog,
    ) -> (r: Result<(), VaultError>)
        ensures
            r is Ok <==> old(self).can_deposit(*old(depositor_balance), request.amount),
            r is Ok ==> {
                &&& *final(self) == old(self).after_deposit(request.amount)
                &&& *final(depositor_balance) == *old(depositor_balance) - request.amount
                &&& final(log)@ == old(log)@.push(Event::Deposit(DepositEvent {
                    amount: request.amount,
                    depositor: request.depositor,
                    vault_id: old(self).id,
                }))
            },
            r is Err ==> {
                &&& *final(self) == *old(self)
                &&& *final(depositor_balance) == *old(depositor_balance)
                &&& final(log)@ == old(log)@
            },
            old(self).locked ==> r == Err::<(), VaultError>(VaultError::VaultLocked),
            !old(self).locked && *old(depositor_balance) < request.amount
                ==> r == Err::<(), VaultError>(VaultError::InsufficientBalance),
            !old(self).locked && *old(depositor_balance) >= request.amount
                && old(self).balance + request.amount > u64::MAX
                ==> r == Err::<(), VaultError>(VaultError::Overflow),
            final(self).balance + *final(depositor_balance)
                == old(self).balance + *old(depositor_balance),
            final(self).id == old(self).id,
            final(self).authority == old(self).authority,
            final(self).locked == old(self).locked,
            final(self).reserve_floor == old(self).reserve_floor,
            old(self).wf() ==> final(self).wf(),
    {
        if self.locked {
            return Err(VaultError::VaultLocked);
        }
        let new_depositor_balance = match checked_sub(*depositor_balance, request.amount) {
            Some(b) => b,
            None => {
                return Err(VaultError::InsufficientBalance);
            },
        };
        let new_vault_balance = match checked_add(self.balance, request.amount) {
            Some(b) => b,
            None => {
                return Err(VaultError::Overflow);
            },
        };
        *depositor_balance = new_depositor_balance;
        self.balance = new_vault_balance;
        log.record(
            Event::Deposit(
                DepositEvent {
                    amount: request.amount,
                    depositor: request.depositor,
                    vault_id: self.id,
                },
            ),
        );
        Ok(())
    }

    /// Withdraws `request.amount` from the vault to `caller`'s external
    /// balance: re-verifies that the caller is the authority, debits the
    /// vault down to no less than its reserve floor, credits the caller,
    /// and records a `WithdrawEvent` — or rejects the request before any
    /// mutation.
    pub fn withdraw(
        &mut self,
        request: Withdraw,
        caller: AccountId,
        caller_balance: &mut u64,
        log: &mut EventLog,
    ) -> (r: Result<(), VaultError>)
        ensures
            r is Ok <==> old(self).can_withdraw(caller, *old(caller_balance), request.amount),
            r is Ok ==> {
                &&& *final(self) == old(self).after_withdraw(request.amount)
                &&& *final(caller_balance) == *old(caller_balance) + request.amount
                &&& final(log)@ == old(log)@.push(Event::Withdraw(WithdrawEvent {
                    amount: request.amount,
                    authority: old(self).authority,
                    vault_id: old(self).id,
                }))
            },
            r is Ok ==> final(self).wf(),
            r is Err ==> {
                &&& *final(self) == *old(self)
                &&& *final(caller_balance) == *old(caller_balance)
                &&& final(log)@ == old(log)@
            },
            caller != old(self).authority
                ==> r == Err::<(), VaultError>(VaultError::Unauthorized),
            caller == old(self).authority && old(self).locked
                ==> r == Err::<(), VaultError>(VaultError::VaultLocked),
            caller == old(self).authority && !old(self).locked
                && (old(self).balance < old(self).reserve_floor
                    || old(self).balance - old(self).reserve_floor < request.amount)
                ==> r == Err::<(), VaultError>(VaultError::InsufficientBalance),
            caller == old(self).authority && !old(self).locked
                && old(self).balance >= old(self).reserve_floor
                && old(self).balance - old(self).reserve_floor >= request.amount
                && *old(caller_balance) + request.amount > u64::MAX
                ==> r == Err::<(), VaultError>(VaultError::Overflow),
            final(self).balance + *final(caller_balance)
                == old(self).balance + *old(caller_balance),
            final(self).id == old(self).id,
            final(self).authority == old(self).authority,
            final(self).locked == old(self).locked,
            final(self).reserve_floor == old(self).reserve_floor,
    {
        if caller != self.authority {
            return Err(VaultError::Unauthorized);
        }
        if self.locked {
            return Err(VaultError::VaultLocked);
        }
        let available = match checked_sub(self.balance, self.reserve_floor) {
            Some(amount) => amount,
            None => {
                return Err(VaultError::InsufficientBalance);
            },
        };
        if available < request.amount {
            return Err(VaultError::InsufficientBalance);
        }
        let new_vault_balance = match checked_sub(self.balance, request.amount) {
            Some(b) => b,
            None => {
                return Err(VaultError::Overflow);
            },
        };
        let new_caller_balance = match checked_add(*caller_balance, request.amount) {
            Some(b) => b,
            None => {
                return Err(VaultError::Overflow);
            },
        };
        self.balance = new_vault_balance;
        *caller_balance = new_caller_balance;
        log.record(
            Event::Withdraw(
                WithdrawEvent {
                    amount: request.amount,
                    authority: self.authority,
                    vault_id: self.id,
                },
            ),
        );
        Ok(())
    }
}

} // verus!
