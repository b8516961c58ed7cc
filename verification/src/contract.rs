use crate::fee::{calculate_fee, fee_of};
use crate::ident::{id_bytes, remittance_id};
use crate::limits::{
    daily_limit_reached, record_creation, refund_requires_authorization, validate_amount,
};
use crate::model::{escrow_transfer, pending_record, refund_transfer, LedgerView};
use crate::table::Table;
use crate::types::{
    AccountId, DataKey, Error, Notice, NoticeKind, Party, Remittance, Status, Transfer, UserStats,
};
use vstd::prelude::*;

verus! {

/// The remittance ledger: the administrator, the sequence counter, the
/// records and the per-account counters, together with the notifications
/// that its operations have queued for publication.
pub struct VatanPayContract {
    admin: Option<AccountId>,
    counter: u64,
    remittances: Table<32, Remittance>,
    stats: Table<56, UserStats>,
    outbox: Vec<Notice>,
}

impl View for VatanPayContract {
    type V = LedgerView;

    closed spec fn view(&self) -> LedgerView {
        LedgerView {
            admin: self.admin,
            counter: self.counter,
            remittances: self.remittances@,
            stats: self.stats@,
            outbox: self.outbox@,
        }
    }
}

impl VatanPayContract {
    /// A ledger that has not been initialized and holds nothing.
    pub fn new() -> (ledger: Self)
        ensures
            ledger@ == LedgerView::fresh(),
    {
        VatanPayContract {
            admin: None,
            counter: 0,
            remittances: Table::new(),
            stats: Table::new(),
            outbox: Vec::new(),
        }
    }

    /// A ledger that continues from persisted singletons: the administrator
    /// and the sequence counter. Records and counters are added with
    /// `put_remittance` and `put_user_stats`.
    pub fn restore(admin: Option<AccountId>, counter: u64) -> (ledger: Self)
        ensures
            ledger@ == (LedgerView { admin, counter, ..LedgerView::fresh() }),
    {
        VatanPayContract {
            admin,
            counter,
            remittances: Table::new(),
            stats: Table::new(),
            outbox: Vec::new(),
        }
    }

    /// Records the administrator and resets the sequence counter. Succeeds
    /// once: later calls are rejected and change nothing.
    pub fn initialize(&mut self, admin: AccountId) -> (done: Result<(), Error>)
        ensures
            match done {
                Ok(_) => old(self)@.initialize_error() is None && final(self)@ == old(
                    self,
                )@.after_initialize(admin),
                Err(e) => old(self)@.initialize_error() == Some(e) && final(self)@ == old(self)@,
            },
    {
        if self.admin.is_some() {
            return Err(Error::AlreadyInitialized);
        }
        self.admin = Some(admin);
        self.counter = 0;
        Ok(())
    }

    /// The checks that precede the escrow transfer of a creation. On success
    /// returns the transfer to carry out: the whole `amount`, from the sender
    /// into escrow.
    pub fn prepare_remittance(
        &self,
        sender: AccountId,
        amount: i128,
        asset: AccountId,
        now: u64,
        sender_authorized: bool,
    ) -> (plan: Result<Transfer, Error>)
        ensures
            match plan {
                Ok(transfer) => self@.admission_error(sender, amount, now, sender_authorized)
                    is None && transfer == escrow_transfer(sender, amount, asset),
                Err(e) => self@.admission_error(sender, amount, now, sender_authorized) == Some(e),
            },
    {
        if !sender_authorized {
            return Err(Error::Unauthorized);
        }
        match validate_amount(amount) {
            Err(e) => {
                return Err(e);
            },
            Ok(_) => {},
        }
        let stats = self.get_user_stats_internal(&sender);
        if daily_limit_reached(&stats, now) {
            return Err(Error::DailyLimitExceeded);
        }
        Ok(Transfer { asset, from: Party::Account(sender), to: Party::Escrow, amount })
    }

    /// Creates a remittance, given whether the sender authorized the call and
    /// whether the escrow transfer went through. On success the sequence
    /// counter advances, a pending record is stored under the identifier
    /// derived from the new counter, the sender's counters are updated and a
    /// `Created` notification is queued. On failure nothing changes.
    pub fn create_remittance(
        &mut self,
        sender: AccountId,
        recipient: AccountId,
        amount: i128,
        now: u64,
        sender_authorized: bool,
        transfer_succeeded: bool,
    ) -> (created: Result<[u8; 32], Error>)
        requires
            old(self)@.create_error(sender, amount, now, sender_authorized, transfer_succeeded)
                is None ==> old(self)@.has_room(sender),
        ensures
            match created {
                Ok(id) => {
                    &&& old(self)@.create_error(
                        sender,
                        amount,
                        now,
                        sender_authorized,
                        transfer_succeeded,
                    ) is None
                    &&& id@ == id_bytes((old(self)@.counter + 1) as u64)
                    &&& final(self)@ == old(self)@.after_create(id, sender, recipient, amount, now)
                },
                Err(e) => {
                    &&& old(self)@.create_error(
                        sender,
                        amount,
                        now,
                        sender_authorized,
                        transfer_succeeded,
                    ) == Some(e)
                    &&& final(self)@ == old(self)@
                },
            },
    {
        if !sender_authorized {
            return Err(Error::Unauthorized);
        }
        match validate_amount(amount) {
            Err(e) => {
                return Err(e);
            },
            Ok(_) => {},
        }
        let stats = self.get_user_stats_internal(&sender);
        if daily_limit_reached(&stats, now) {
            return Err(Error::DailyLimitExceeded);
        }
        if !transfer_succeeded {
            return Err(Error::TransferFailed);
        }
        let updated = match record_creation(stats, now) {
            Ok(updated) => updated,
            Err(e) => {
                return Err(e);
            },
        };
        let count = self.counter + 1;
        let id = remittance_id(count);
        let record = Remittance {
            id,
            sender,
            recipient,
            amount_aed: amount,
            amount_inr: 0,
            exchange_rate: 0,
            fee: calculate_fee(amount),
            status: Status::Pending,
            created_at: now,
        };
        assert(record == pending_record(id, sender, recipient, amount, now)) by {
            crate::fee::lemma_fee_is_two_hundredth(amount as int);
        }
        self.counter = count;
        self.remittances.insert(id, record);
        self.stats.insert(sender.strkey, updated);
        self.outbox.push(Notice { kind: NoticeKind::Created, account: sender, id });
        Ok(id)
    }

    /// Marks a pending remittance completed with the reported destination
    /// amount and rate, and queues a `Completed` notification keyed by the
    /// record's sender. Rejected, with nothing changed, if no record is
    /// stored under `id` or the record is not pending.
    pub fn complete_remittance(
        &mut self,
        id: [u8; 32],
        amount_inr: i128,
        exchange_rate: i128,
    ) -> (done: Result<(), Error>)
        ensures
            match done {
                Ok(_) => old(self)@.complete_error(id) is None && final(self)@ == old(
                    self,
                )@.after_complete(id, amount_inr, exchange_rate),
                Err(e) => old(self)@.complete_error(id) == Some(e) && final(self)@ == old(self)@,
            },
    {
        let mut record = match self.remittances.get(&id) {
            Some(record) => record,
            None => {
                return Err(Error::NotFound);
            },
        };
        if record.status.is_terminal() {
            return Err(Error::InvalidState);
        }
        record.amount_inr = amount_inr;
        record.exchange_rate = exchange_rate;
        record.status = Status::Completed;
        self.remittances.insert(id, record);
        self.outbox.push(Notice { kind: NoticeKind::Completed, account: record.sender, id });
        Ok(())
    }

    /// The checks that precede the transfer of a refund. On success returns
    /// the transfer to carry out: the escrowed amount, from escrow back to the
    /// record's sender.
    pub fn prepare_refund(
        &self,
        id: [u8; 32],
        asset: AccountId,
        now: u64,
        sender_authorized: bool,
    ) -> (plan: Result<Transfer, Error>)
        ensures
            match plan {
                Ok(transfer) => self@.refund_admission_error(id, now, sender_authorized) is None
                    && transfer == refund_transfer(self@.remittances[id@], asset),
                Err(e) => self@.refund_admission_error(id, now, sender_authorized) == Some(e),
            },
    {
        let record = match self.remittances.get(&id) {
            Some(record) => record,
            None => {
                return Err(Error::NotFound);
            },
        };
        if record.status.is_terminal() {
            return Err(Error::InvalidState);
        }
        if refund_requires_authorization(record.created_at, now) && !sender_authorized {
            return Err(Error::Unauthorized);
        }
        Ok(
            Transfer {
                asset,
                from: Party::Escrow,
                to: Party::Account(record.sender),
                amount: record.amount_aed,
            },
        )
    }

    /// Refunds a pending remittance, given whether the sender authorized the
    /// call and whether the transfer back went through. The sender's
    /// authorization is needed only within 24 hours of creation. On success
    /// the record becomes `Failed` and a `Refunded` notification is queued. On
    /// failure nothing changes.
    pub fn refund_remittance(
        &mut self,
        id: [u8; 32],
        now: u64,
        sender_authorized: bool,
        transfer_succeeded: bool,
    ) -> (done: Result<(), Error>)
        ensures
            match done {
                Ok(_) => old(self)@.refund_error(id, now, sender_authorized, transfer_succeeded)
                    is None && final(self)@ == old(self)@.after_refund(id),
                Err(e) => old(self)@.refund_error(id, now, sender_authorized, transfer_succeeded)
                    == Some(e) && final(self)@ == old(self)@,
            },
    {
        let mut record = match self.remittances.get(&id) {
            Some(record) => record,
            None => {
                return Err(Error::NotFound);
            },
        };
        if record.status.is_terminal() {
            return Err(Error::InvalidState);
        }
        if refund_requires_authorization(record.created_at, now) && !sender_authorized {
            return Err(Error::Unauthorized);
        }
        if !transfer_succeeded {
            return Err(Error::TransferFailed);
        }
        record.status = Status::Failed;
        self.remittances.insert(id, record);
        self.outbox.push(Notice { kind: NoticeKind::Refunded, account: record.sender, id });
        Ok(())
    }

    /// Quotes the platform fee for an amount: `amount * 50 / 10000`, rounded
    /// down. Reads nothing of the ledger.
    pub fn calculate_fee(amount: i128) -> (fee: i128)
        ensures
            fee == fee_of(amount as int),
    {
        calculate_fee(amount)
    }

    /// The record stored under `id`.
    pub fn get_remittance(&self, id: [u8; 32]) -> (found: Result<Remittance, Error>)
        ensures
            found == self@.lookup(id),
    {
        match self.remittances.get(&id) {
            Some(record) => Ok(record),
            None => Err(Error::NotFound),
        }
    }

    /// One page of the remittances that `user` sent or receives, latest
    /// creation first: the first `offset` of them are passed over and at most
    /// `limit` are returned. The scan runs from the latest counter down and
    /// stops once the page is full; a counter under whose identifier nothing is
    /// stored is passed over.
    pub fn get_user_history(
        &self,
        user: AccountId,
        offset: u32,
        limit: u32,
    ) -> (page: Vec<Remittance>)
        ensures
            page@ == self@.history(user, offset as nat, limit as nat),
    {
        let mut page: Vec<Remittance> = Vec::new();
        let mut count: u32 = 0;
        let mut skipped: u32 = 0;
        let mut i: u64 = self.counter;
        let ghost mut seen: Seq<Remittance> = Seq::empty();
        proof {
            assert(seen + self@.matches_down_from(user, i as nat) =~= self@.all_matches(user));
        }
        while i > 0 && count < limit
            invariant
                i <= self.counter,
                self@.all_matches(user) == seen + self@.matches_down_from(user, i as nat),
                skipped <= offset,
                skipped <= seen.len(),
                skipped < offset ==> skipped == seen.len(),
                page@ == seen.subrange(skipped as int, seen.len() as int),
                count == page.len(),
                count <= limit,
            decreases i,
        {
            let id = remittance_id(i);
            let ghost here = self@.match_at(user, i as nat);
            let ghost rest = self@.matches_down_from(user, (i - 1) as nat);
            proof {
                assert(self@.matches_down_from(user, i as nat) == here + rest);
                assert((seen + here) + rest =~= seen + (here + rest));
            }
            match self.remittances.get(&id) {
                Some(record) => {
                    if record.sender.same_as(&user) || record.recipient.same_as(&user) {
                        assert(here == seq![record]);
                        if skipped < offset {
                            skipped += 1;
                        } else {
                            page.push(record);
                            count += 1;
                        }
                    } else {
                        assert(here == Seq::<Remittance>::empty());
                    }
                },
                None => {
                    assert(here == Seq::<Remittance>::empty());
                },
            }
            proof {
                let grown = seen + here;
                assert(page@ =~= grown.subrange(skipped as int, grown.len() as int));
                seen = grown;
            }
            i -= 1;
        }
        proof {
            let all = self@.all_matches(user);
            let rest = self@.matches_down_from(user, i as nat);
            assert(i == 0 ==> rest == Seq::<Remittance>::empty());
            assert(all.len() == seen.len() + rest.len());
            assert(page@ =~= self@.history(user, offset as nat, limit as nat));
        }
        page
    }

    /// The counters of `user`; zero for an account that has never transacted.
    pub fn get_user_stats(&self, user: AccountId) -> (stats: UserStats)
        ensures
            stats == self@.stats_of(user),
    {
        self.get_user_stats_internal(&user)
    }

    fn get_user_stats_internal(&self, user: &AccountId) -> (stats: UserStats)
        ensures
            stats == self@.stats_of(*user),
    {
        match self.stats.get(&user.strkey) {
            Some(stats) => stats,
            None => UserStats::empty(),
        }
    }

    /// Whether anything is stored under `key`.
    pub fn has(&self, key: &DataKey) -> (held: bool)
        ensures
            held == match *key {
                DataKey::Remittance(id) => self@.remittances.dom().contains(id@),
                DataKey::UserStats(user) => self@.stats.dom().contains(user@),
            },
    {
        match key {
            DataKey::Remittance(id) => self.remittances.contains(id),
            DataKey::UserStats(user) => self.stats.contains(&user.strkey),
        }
    }

    /// Whether the counters that a creation by `sender` advances have room.
    pub fn has_room(&self, sender: AccountId) -> (room: bool)
        ensures
            room == self@.has_room(sender),
    {
        let stats = self.get_user_stats_internal(&sender);
        self.counter < u64::MAX && stats.total_remittances < u32::MAX
    }

    /// The administrator, once initialized.
    pub fn admin(&self) -> (admin: Option<AccountId>)
        ensures
            admin == self@.admin,
    {
        self.admin
    }

    /// How many remittances have been created since initialization.
    pub fn remittance_count(&self) -> (count: u64)
        ensures
            count == self@.counter,
    {
        self.counter
    }

    /// Stores a persisted record under its own identifier.
    pub fn put_remittance(&mut self, record: Remittance)
        ensures
            final(self)@ == (LedgerView {
                remittances: old(self)@.remittances.insert(record.id@, record),
                ..old(self)@
            }),
    {
        self.remittances.insert(record.id, record);
    }

    /// Stores the persisted counters of `user`.
    pub fn put_user_stats(&mut self, user: AccountId, stats: UserStats)
        ensures
            final(self)@ == (LedgerView {
                stats: old(self)@.stats.insert(user@, stats),
                ..old(self)@
            }),
    {
        self.stats.insert(user.strkey, stats);
    }

    /// Hands over the queued notifications, oldest first, and empties the
    /// queue.
    pub fn take_notices(&mut self) -> (notices: Vec<Notice>)
        ensures
            notices@ == old(self)@.outbox,
            final(self)@ == (LedgerView { outbox: Seq::empty(), ..old(self)@ }),
    {
        let mut notices: Vec<Notice> = Vec::new();
        std::mem::swap(&mut notices, &mut self.outbox);
        notices
    }
}

} // verus!
