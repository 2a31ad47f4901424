use vstd::prelude::*;

use crate::account::AccountId;

verus! {

/// Emitted on a successful deposit. Events are observational: they carry no
/// control authority and are only ever appended to the audit log.
#[derive(Clone, Copy, Debug, PartialEq, Eq, Structural)]
pub struct DepositEvent {
    pub amount: u64,
    pub depositor: AccountId,
    pub vault_id: AccountId,
}

/// Emitted on a successful withdrawal.
#[derive(Clone, Copy, Debug, PartialEq, Eq, Structural)]
pub struct WithdrawEvent {
    pub amount: u64,
    pub authority: AccountId,
    pub vault_id: AccountId,
}

/// One entry of the audit log.
#[derive(Clone, Copy, Debug, PartialEq, Eq, Structural)]
pub enum Event {
    Deposit(DepositEvent),
    Withdraw(WithdrawEvent),
}

/// An append-only audit log. The vault operations append exactly one event
/// on success and none on failure; the hosting environment relays the
/// entries to observers after it persists the vault record.
pub struct EventLog {
    entries: Vec<Event>,
}

impl View for EventLog {
    type V = Seq<Event>;

    closed spec fn view(&self) -> Seq<Event> {
        self.entries@
    }
}

impl EventLog {
    /// An empty log.
    pub fn new() -> (log: EventLog)
        ensures
            log@ == Seq::<Event>::empty(),
    {
        EventLog { entries: Vec::new() }
    }

    /// Appends one event; nothing already recorded changes.
    pub fn record(&mut self, event: Event)
        ensures
            final(self)@ == old(self)@.push(event),
    {
        self.entries.push(event);
    }

    /// How many events have been recorded.
    pub fn len(&self) -> (n: usize)
        ensures
            n == self@.len(),
    {
        self.entries.len()
    }

    /// The `i`th recorded event, oldest first.
    pub fn get(&self, i: usize) -> (event: &Event)
        requires
            i < self@.len(),
        ensures
            *event == self@[i as int],
    {
        &self.entries[i]
    }
}

} // verus!
