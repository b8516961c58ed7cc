use crate::fee::fee_of;
use crate::ident::id_bytes;
use crate::limits::{amount_in_range, in_cooldown, limit_reached, stats_after};
use crate::types::{
    AccountId, Error, Notice, NoticeKind, Party, Remittance, Status, Transfer, UserStats,
};
use vstd::prelude::*;

verus! {

/// The ledger as a mathematical value.
#[verifier::ext_equal]
pub struct LedgerView {
    /// The administrator, once initialized.
    pub admin: Option<AccountId>,
    /// How many remittances have been created since initialization.
    pub counter: u64,
    /// The records, by the bytes of their identifier.
    pub remittances: Map<Seq<u8>, Remittance>,
    /// The rate-limit counters, by the bytes of the account.
    pub stats: Map<Seq<u8>, UserStats>,
    /// Notifications not yet handed to the caller, oldest first.
    pub outbox: Seq<Notice>,
}

/// The record that creation writes.
pub open spec fn pending_record(
    id: [u8; 32],
    sender: AccountId,
    recipient: AccountId,
    amount: i128,
    now: u64,
) -> Remittance {
    Remittance {
        id,
        sender,
        recipient,
        amount_aed: amount,
        amount_inr: 0,
        exchange_rate: 0,
        fee: fee_of(amount as int) as i128,
        status: Status::Pending,
        created_at: now,
    }
}

/// The transfer that puts `amount` of `asset` into escrow.
pub open spec fn escrow_transfer(sender: AccountId, amount: i128, asset: AccountId) -> Transfer {
    Transfer { asset, from: Party::Account(sender), to: Party::Escrow, amount }
}

/// The transfer that hands a record's escrowed amount back to its sender.
pub open spec fn refund_transfer(record: Remittance, asset: AccountId) -> Transfer {
    Transfer { asset, from: Party::Escrow, to: Party::Account(record.sender), amount: record.amount_aed }
}

/// Whether `user` sent or receives the remittance.
pub open spec fn is_party(record: Remittance, user: AccountId) -> bool {
    record.sender@ == user@ || record.recipient@ == user@
}

impl LedgerView {
    /// The ledger before initialization.
    pub open spec fn fresh() -> LedgerView {
        LedgerView {
            admin: None,
            counter: 0,
            remittances: Map::empty(),
            stats: Map::empty(),
            outbox: Seq::empty(),
        }
    }

    /// The counters of `user`, zero if the account has never transacted.
    pub open spec fn stats_of(self, user: AccountId) -> UserStats {
        if self.stats.dom().contains(user@) {
            self.stats[user@]
        } else {
            UserStats::zero()
        }
    }

    /// The record stored under `id`, if any.
    pub open spec fn lookup(self, id: [u8; 32]) -> Result<Remittance, Error> {
        if self.remittances.dom().contains(id@) {
            Ok(self.remittances[id@])
        } else {
            Err(Error::NotFound)
        }
    }

    /// Why `initialize` is rejected, if it is.
    pub open spec fn initialize_error(self) -> Option<Error> {
        if self.admin is Some {
            Some(Error::AlreadyInitialized)
        } else {
            None
        }
    }

    /// The ledger after a successful `initialize`.
    pub open spec fn after_initialize(self, admin: AccountId) -> LedgerView {
        LedgerView { admin: Some(admin), counter: 0, ..self }
    }

    /// Why the escrow transfer of a creation is not even attempted, if so:
    /// the checks on authorization, amount and daily limit, in that order.
    pub open spec fn admission_error(
        self,
        sender: AccountId,
        amount: i128,
        now: u64,
        sender_authorized: bool,
    ) -> Option<Error> {
        if !sender_authorized {
            Some(Error::Unauthorized)
        } else if !amount_in_range(amount) {
            Some(Error::AmountOutOfRange)
        } else if limit_reached(self.stats_of(sender), now) {
            Some(Error::DailyLimitExceeded)
        } else {
            None
        }
    }

    /// Why a creation is rejected, if it is.
    pub open spec fn create_error(
        self,
        sender: AccountId,
        amount: i128,
        now: u64,
        sender_authorized: bool,
        transfer_succeeded: bool,
    ) -> Option<Error> {
        match self.admission_error(sender, amount, now, sender_authorized) {
            Some(e) => Some(e),
            None => if transfer_succeeded {
                None
            } else {
                Some(Error::TransferFailed)
            },
        }
    }

    /// Whether the counters that a creation advances have room to advance.
    pub open spec fn has_room(self, sender: AccountId) -> bool {
        self.counter < u64::MAX && self.stats_of(sender).total_remittances < u32::MAX
    }

    /// The ledger after a successful creation that was given the identifier
    /// `id`: the counter advanced, the pending record stored under `id`, the
    /// sender's counters updated, and a `Created` notification queued.
    pub open spec fn after_create(
        self,
        id: [u8; 32],
        sender: AccountId,
        recipient: AccountId,
        amount: i128,
        now: u64,
    ) -> LedgerView {
        LedgerView {
            admin: self.admin,
            counter: (self.counter + 1) as u64,
            remittances: self.remittances.insert(
                id@,
                pending_record(id, sender, recipient, amount, now),
            ),
            stats: self.stats.insert(sender@, stats_after(self.stats_of(sender), now)),
            outbox: self.outbox.push(Notice { kind: NoticeKind::Created, account: sender, id }),
        }
    }

    /// Why a completion is rejected, if it is.
    pub open spec fn complete_error(self, id: [u8; 32]) -> Option<Error> {
        match self.lookup(id) {
            Err(e) => Some(e),
            Ok(record) => if record.status != Status::Pending {
                Some(Error::InvalidState)
            } else {
                None
            },
        }
    }

    /// The ledger after a successful completion.
    pub open spec fn after_complete(
        self,
        id: [u8; 32],
        amount_inr: i128,
        exchange_rate: i128,
    ) -> LedgerView {
        let record = self.remittances[id@];
        LedgerView {
            remittances: self.remittances.insert(
                id@,
                Remittance { amount_inr, exchange_rate, status: Status::Completed, ..record },
            ),
            outbox: self.outbox.push(
                Notice { kind: NoticeKind::Completed, account: record.sender, id },
            ),
            ..self
        }
    }

    /// Why the transfer of a refund is not even attempted, if so: the checks
    /// on existence, state and authorization, in that order.
    pub open spec fn refund_admission_error(
        self,
        id: [u8; 32],
        now: u64,
        sender_authorized: bool,
    ) -> Option<Error> {
        match self.lookup(id) {
            Err(e) => Some(e),
            Ok(record) => if record.status != Status::Pending {
                Some(Error::InvalidState)
            } else if in_cooldown(record.created_at, now) && !sender_authorized {
                Some(Error::Unauthorized)
            } else {
                None
            },
        }
    }

    /// Why a refund is rejected, if it is.
    pub open spec fn refund_error(
        self,
        id: [u8; 32],
        now: u64,
        sender_authorized: bool,
        transfer_succeeded: bool,
    ) -> Option<Error> {
        match self.refund_admission_error(id, now, sender_authorized) {
            Some(e) => Some(e),
            None => if transfer_succeeded {
                None
            } else {
                Some(Error::TransferFailed)
            },
        }
    }

    /// The ledger after a successful refund.
    pub open spec fn after_refund(self, id: [u8; 32]) -> LedgerView {
        let record = self.remittances[id@];
        LedgerView {
            remittances: self.remittances.insert(id@, Remittance { status: Status::Failed, ..record }),
            outbox: self.outbox.push(
                Notice { kind: NoticeKind::Refunded, account: record.sender, id },
            ),
            ..self
        }
    }

    /// The records that `user` is a party to among those created `n`-th,
    /// `n - 1`-th, ..., first, in that order. A counter under whose
    /// identifier nothing is stored contributes nothing.
    pub open spec fn matches_down_from(self, user: AccountId, n: nat) -> Seq<Remittance>
        decreases n,
    {
        if n == 0 {
            Seq::empty()
        } else {
            self.match_at(user, n) + self.matches_down_from(user, (n - 1) as nat)
        }
    }

    /// What the `n`-th created remittance contributes to the history of
    /// `user`: itself, or nothing.
    pub open spec fn match_at(self, user: AccountId, n: nat) -> Seq<Remittance> {
        let key = id_bytes(n as u64);
        if self.remittances.dom().contains(key) && is_party(self.remittances[key], user) {
            seq![self.remittances[key]]
        } else {
            Seq::empty()
        }
    }

    /// Every record that `user` is a party to, latest creation first.
    pub open spec fn all_matches(self, user: AccountId) -> Seq<Remittance> {
        self.matches_down_from(user, self.counter as nat)
    }

    /// One page of the history of `user`: the matches from position `offset`
    /// on, at most `limit` of them.
    pub open spec fn history(self, user: AccountId, offset: nat, limit: nat) -> Seq<Remittance> {
        let all = self.all_matches(user);
        let start = if offset <= all.len() { offset } else { all.len() };
        let end = if offset + limit <= all.len() { offset + limit } else { all.len() };
        all.subrange(start as int, end as int)
    }
}

} // verus!
