//! What holds of the ledger across calls, stated over its model.

use crate::fee::fee_of;
use crate::ident::id_bytes;
use crate::limits::{amount_in_range, day_of, in_cooldown, limit_reached, stats_after};
use crate::model::{escrow_transfer, is_party, refund_transfer, LedgerView};
use crate::types::{AccountId, Error, Remittance, Status, UserStats};
use vstd::prelude::*;

verus! {

/// A creation escrows the whole amount: the transfer into escrow and the
/// stored record both carry `amount`, not `amount` less the fee, and the
/// record's fee is `amount * 50 / 10000` rounded down.
pub proof fn law_creation_escrows_whole_amount(
    s: LedgerView,
    id: [u8; 32],
    sender: AccountId,
    recipient: AccountId,
    amount: i128,
    asset: AccountId,
    now: u64,
)
    requires
        amount_in_range(amount),
    ensures
        escrow_transfer(sender, amount, asset).amount == amount,
        s.after_create(id, sender, recipient, amount, now).remittances[id@].amount_aed == amount,
        s.after_create(id, sender, recipient, amount, now).remittances[id@].fee == amount * 50
            / 10000,
{
    crate::fee::lemma_fee_is_two_hundredth(amount as int);
}

/// An authorized creation with an amount outside the bounds is rejected as
/// `AmountOutOfRange`, whatever the ledger holds and however the transfer
/// would have gone.
pub proof fn law_out_of_range_is_rejected(
    s: LedgerView,
    sender: AccountId,
    amount: i128,
    now: u64,
    transfer_succeeded: bool,
)
    requires
        amount < 100_0000000 || amount > 50000_0000000,
    ensures
        s.admission_error(sender, amount, now, true) == Some(Error::AmountOutOfRange),
        s.create_error(sender, amount, now, true, transfer_succeeded) == Some(
            Error::AmountOutOfRange,
        ),
{
}

/// A creation succeeds exactly where its admission checks pass and the
/// escrow transfer then goes through; where they pass and it does not, the
/// creation is rejected as `TransferFailed`. The same holds of a refund.
pub proof fn law_operations_follow_admission(
    s: LedgerView,
    id: [u8; 32],
    sender: AccountId,
    amount: i128,
    now: u64,
    sender_authorized: bool,
    transfer_succeeded: bool,
)
    ensures
        s.create_error(sender, amount, now, sender_authorized, transfer_succeeded) is None <==> (
        s.admission_error(sender, amount, now, sender_authorized) is None && transfer_succeeded),
        s.admission_error(sender, amount, now, sender_authorized) is None ==> s.create_error(
            sender,
            amount,
            now,
            sender_authorized,
            false,
        ) == Some(Error::TransferFailed),
        s.refund_error(id, now, sender_authorized, transfer_succeeded) is None <==> (
        s.refund_admission_error(id, now, sender_authorized) is None && transfer_succeeded),
        s.refund_admission_error(id, now, sender_authorized) is None ==> s.refund_error(
            id,
            now,
            sender_authorized,
            false,
        ) == Some(Error::TransferFailed),
{
}

/// A creation changes the counters of its sender as `stats_after` says and
/// those of no other account.
pub proof fn law_creation_counts_for_sender(
    s: LedgerView,
    id: [u8; 32],
    sender: AccountId,
    recipient: AccountId,
    amount: i128,
    now: u64,
    other: AccountId,
)
    ensures
        s.after_create(id, sender, recipient, amount, now).stats_of(sender) == stats_after(
            s.stats_of(sender),
            now,
        ),
        other@ != sender@ ==> s.after_create(id, sender, recipient, amount, now).stats_of(other)
            == s.stats_of(other),
{
}

/// The ledger after `ids.len()` successful creations by one sender, the
/// `j`-th at `times[j]` under the identifier `ids[j]`.
pub open spec fn after_creations(
    s: LedgerView,
    ids: Seq<[u8; 32]>,
    sender: AccountId,
    recipient: AccountId,
    amount: i128,
    times: Seq<u64>,
) -> LedgerView
    decreases ids.len(),
{
    if ids.len() == 0 || times.len() != ids.len() {
        s
    } else {
        after_creations(
            s,
            ids.drop_last(),
            sender,
            recipient,
            amount,
            times.drop_last(),
        ).after_create(ids.last(), sender, recipient, amount, times.last())
    }
}

/// The daily limit. Take a sender with nothing created yet on some day, and
/// up to five creations by that sender at times of that day. Then after `k`
/// of them the daily count is `k`; while `k` is under five the next one on
/// that day is admitted, and after five the next one on that day is rejected
/// as `DailyLimitExceeded`.
pub proof fn law_daily_limit(
    s: LedgerView,
    ids: Seq<[u8; 32]>,
    sender: AccountId,
    recipient: AccountId,
    amount: i128,
    times: Seq<u64>,
    day: u64,
    next: u64,
)
    requires
        amount_in_range(amount),
        ids.len() == times.len(),
        ids.len() <= 5,
        forall|j: int| 0 <= j < times.len() ==> day_of(#[trigger] times[j]) == day,
        day_of(next) == day,
        s.stats_of(sender).last_tx_date != day || s.stats_of(sender).daily_count == 0,
    ensures
        ({
            let reached = after_creations(s, ids, sender, recipient, amount, times);
            &&& ids.len() > 0 ==> reached.stats_of(sender).daily_count == ids.len()
            &&& ids.len() > 0 ==> reached.stats_of(sender).last_tx_date == day
            &&& ids.len() < 5 ==> reached.admission_error(sender, amount, next, true) is None
            &&& ids.len() == 5 ==> reached.admission_error(sender, amount, next, true) == Some(
                Error::DailyLimitExceeded,
            )
        }),
    decreases ids.len(),
{
    if ids.len() > 0 {
        let before = after_creations(
            s,
            ids.drop_last(),
            sender,
            recipient,
            amount,
            times.drop_last(),
        );
        assert forall|j: int| 0 <= j < times.drop_last().len() implies day_of(
            #[trigger] times.drop_last()[j],
        ) == day by {
            assert(times.drop_last()[j] == times[j]);
        }
        law_daily_limit(
            s,
            ids.drop_last(),
            sender,
            recipient,
            amount,
            times.drop_last(),
            day,
            times.last(),
        );
        law_creation_counts_for_sender(
            before,
            ids.last(),
            sender,
            recipient,
            amount,
            times.last(),
            sender,
        );
    }
}

/// On a new day the daily count starts again: whatever the counters held, a
/// creation on a day other than that of the latest creation is not limited
/// and leaves the daily count at 1.
pub proof fn law_new_day_resets(stats: UserStats, now: u64)
    requires
        day_of(now) != stats.last_tx_date,
    ensures
        !limit_reached(stats, now),
        stats_after(stats, now).daily_count == 1,
        stats_after(stats, now).last_tx_date == day_of(now),
{
}

/// A record that is not pending admits neither completion nor refund: both
/// are rejected as `InvalidState`, whoever asks and whenever.
pub proof fn law_terminal_rejects(
    s: LedgerView,
    id: [u8; 32],
    now: u64,
    sender_authorized: bool,
    transfer_succeeded: bool,
)
    requires
        s.remittances.dom().contains(id@),
        s.remittances[id@].status != Status::Pending,
    ensures
        s.complete_error(id) == Some(Error::InvalidState),
        s.refund_error(id, now, sender_authorized, transfer_succeeded) == Some(
            Error::InvalidState,
        ),
{
}

/// After a successful completion the record is `Completed` with the reported
/// values, and a second completion or a refund is rejected as `InvalidState`.
pub proof fn law_completion_is_final(
    s: LedgerView,
    id: [u8; 32],
    amount_inr: i128,
    exchange_rate: i128,
    now: u64,
    sender_authorized: bool,
    transfer_succeeded: bool,
)
    requires
        s.complete_error(id) is None,
    ensures
        ({
            let done = s.after_complete(id, amount_inr, exchange_rate);
            &&& done.lookup(id) is Ok
            &&& done.lookup(id)->Ok_0.status == Status::Completed
            &&& done.lookup(id)->Ok_0.amount_inr == amount_inr
            &&& done.lookup(id)->Ok_0.exchange_rate == exchange_rate
            &&& done.complete_error(id) == Some(Error::InvalidState)
            &&& done.refund_error(id, now, sender_authorized, transfer_succeeded) == Some(
                Error::InvalidState,
            )
        }),
{
}

/// After a successful refund the record is `Failed`, and a completion or a
/// second refund is rejected as `InvalidState`.
pub proof fn law_refund_is_final(
    s: LedgerView,
    id: [u8; 32],
    now: u64,
    sender_authorized: bool,
    transfer_succeeded: bool,
)
    requires
        s.refund_admission_error(id, now, true) is None,
    ensures
        ({
            let done = s.after_refund(id);
            &&& done.lookup(id) is Ok
            &&& done.lookup(id)->Ok_0.status == Status::Failed
            &&& done.complete_error(id) == Some(Error::InvalidState)
            &&& done.refund_error(id, now, sender_authorized, transfer_succeeded) == Some(
                Error::InvalidState,
            )
        }),
{
}

/// Completion and refund of one record leave every other record as it was,
/// and change of the record itself only the status and, on completion, the
/// destination amount and rate.
pub proof fn law_transitions_touch_one_record(
    s: LedgerView,
    id: [u8; 32],
    other: [u8; 32],
    amount_inr: i128,
    exchange_rate: i128,
)
    requires
        s.remittances.dom().contains(id@),
    ensures
        other@ != id@ ==> s.after_complete(id, amount_inr, exchange_rate).lookup(other)
            == s.lookup(other),
        other@ != id@ ==> s.after_refund(id).lookup(other) == s.lookup(other),
        s.after_complete(id, amount_inr, exchange_rate).remittances[id@] == (Remittance {
            amount_inr,
            exchange_rate,
            status: Status::Completed,
            ..s.remittances[id@]
        }),
        s.after_refund(id).remittances[id@] == (Remittance {
            status: Status::Failed,
            ..s.remittances[id@]
        }),
{
}

/// Refund authorization. Within 24 hours of creation a refund of a pending
/// record without the sender's authorization is rejected as `Unauthorized`,
/// before any transfer is attempted. From 24 hours on, a refund of a pending
/// record succeeds for any caller once the transfer back goes through, and
/// that transfer returns the escrowed amount to the sender.
pub proof fn law_refund_authorization(
    s: LedgerView,
    id: [u8; 32],
    asset: AccountId,
    now: u64,
    sender_authorized: bool,
    transfer_succeeded: bool,
)
    requires
        s.remittances.dom().contains(id@),
        s.remittances[id@].status == Status::Pending,
    ensures
        now - s.remittances[id@].created_at < 86400 ==> s.refund_error(
            id,
            now,
            false,
            transfer_succeeded,
        ) == Some(Error::Unauthorized),
        now - s.remittances[id@].created_at >= 86400 ==> s.refund_error(
            id,
            now,
            sender_authorized,
            true,
        ) is None,
        s.refund_error(id, now, true, true) is None,
        refund_transfer(s.remittances[id@], asset).amount == s.remittances[id@].amount_aed,
{
}

/// Round trip: the record found under the identifier that a creation
/// returned is pending, has no destination amount or rate yet, and carries
/// the sender, recipient, amount and time of the creation.
pub proof fn law_created_record_round_trip(
    s: LedgerView,
    id: [u8; 32],
    sender: AccountId,
    recipient: AccountId,
    amount: i128,
    now: u64,
)
    ensures
        ({
            let found = s.after_create(id, sender, recipient, amount, now).lookup(id);
            &&& found is Ok
            &&& found->Ok_0.id == id
            &&& found->Ok_0.status == Status::Pending
            &&& found->Ok_0.amount_inr == 0
            &&& found->Ok_0.exchange_rate == 0
            &&& found->Ok_0.sender == sender
            &&& found->Ok_0.recipient == recipient
            &&& found->Ok_0.amount_aed == amount
            &&& found->Ok_0.created_at == now
        }),
{
}

/// A creation advances the sequence counter by one and queues exactly one
/// notification.
pub proof fn law_creation_advances_counter(
    s: LedgerView,
    id: [u8; 32],
    sender: AccountId,
    recipient: AccountId,
    amount: i128,
    now: u64,
)
    requires
        s.counter < u64::MAX,
    ensures
        s.after_create(id, sender, recipient, amount, now).counter == s.counter + 1,
        s.after_create(id, sender, recipient, amount, now).outbox.len() == s.outbox.len() + 1,
        s.after_create(id, sender, recipient, amount, now).admin == s.admin,
{
}

/// Initialization succeeds once: after it, a second one is rejected as
/// `AlreadyInitialized`.
pub proof fn law_initialize_once(s: LedgerView, admin: AccountId)
    ensures
        s.after_initialize(admin).initialize_error() == Some(Error::AlreadyInitialized),
        s.after_initialize(admin).counter == 0,
        LedgerView::fresh().initialize_error() is None,
{
}

/// Whether the `n`-th created remittance is stored and has `user` as a
/// party.
pub open spec fn qualifies(s: LedgerView, user: AccountId, n: nat) -> bool {
    let key = id_bytes(n as u64);
    s.remittances.dom().contains(key) && is_party(s.remittances[key], user)
}

/// The counters among `n`, `n - 1`, ..., 1, in that order, whose remittance
/// qualifies for the history of `user`.
pub open spec fn matching_counters(s: LedgerView, user: AccountId, n: nat) -> Seq<nat>
    decreases n,
{
    if n == 0 {
        Seq::empty()
    } else {
        (if qualifies(s, user, n) {
            seq![n]
        } else {
            Seq::empty()
        }) + matching_counters(s, user, (n - 1) as nat)
    }
}

/// The matches among the first `n` creations are the records of the
/// qualifying counters, in strictly descending order of counter, none left
/// out.
pub proof fn law_matches_descend(s: LedgerView, user: AccountId, n: nat)
    ensures
        ({
            let found = s.matches_down_from(user, n);
            let counters = matching_counters(s, user, n);
            &&& found.len() == counters.len()
            &&& forall|j: int|
                0 <= j < counters.len() ==> 1 <= #[trigger] counters[j] <= n && qualifies(
                    s,
                    user,
                    counters[j],
                ) && found[j] == s.remittances[id_bytes(counters[j] as u64)]
            &&& forall|j: int, k: int|
                0 <= j < k < counters.len() ==> #[trigger] counters[j] > #[trigger] counters[k]
            &&& forall|c: nat| 1 <= c <= n && qualifies(s, user, c) ==> counters.contains(c)
        }),
    decreases n,
{
    if n > 0 {
        let below = (n - 1) as nat;
        law_matches_descend(s, user, below);
        let counters = matching_counters(s, user, n);
        let lower = matching_counters(s, user, below);
        let found = s.matches_down_from(user, n);
        assert(found == s.match_at(user, n) + s.matches_down_from(user, below));
        if qualifies(s, user, n) {
            assert(counters == seq![n] + lower);
            assert(counters[0] == n);
            assert forall|j: int| 1 <= j < counters.len() implies #[trigger] counters[j]
                == lower[j - 1] by {}
        } else {
            assert(counters =~= lower);
            assert(found =~= s.matches_down_from(user, below));
        }
        assert forall|c: nat| 1 <= c <= n && qualifies(s, user, c) implies counters.contains(
            c,
        ) by {
            if c == n {
                assert(counters[0] == c);
            } else {
                assert(lower.contains(c));
                let j = choose|j: int| 0 <= j < lower.len() && lower[j] == c;
                if qualifies(s, user, n) {
                    assert(counters[j + 1] == c);
                } else {
                    assert(counters[j] == c);
                }
            }
        }
    }
}

/// Asking from the start for as many records as qualify returns them all,
/// latest creation first.
pub proof fn law_history_returns_all(s: LedgerView, user: AccountId)
    ensures
        s.history(user, 0, s.all_matches(user).len()) == s.all_matches(user),
{
    let all = s.all_matches(user);
    assert(all.subrange(0, all.len() as int) =~= all);
}

/// A page is a slice of that one ordering: `history(user, k, m)` holds the
/// matches at positions `k` to `k + m`, cut off at the end of the list.
pub proof fn law_history_is_slice(s: LedgerView, user: AccountId, offset: nat, limit: nat)
    ensures
        ({
            let all = s.all_matches(user);
            let page = s.history(user, offset, limit);
            &&& offset + limit <= all.len() ==> page == all.subrange(
                offset as int,
                (offset + limit) as int,
            )
            &&& offset <= all.len() < offset + limit ==> page == all.subrange(
                offset as int,
                all.len() as int,
            )
            &&& page.len() <= limit
            &&& forall|j: int| 0 <= j < page.len() ==> page[j] == all[offset + j]
        }),
{
}

/// An offset at or past the number of qualifying records yields an empty
/// page.
pub proof fn law_history_past_end(s: LedgerView, user: AccountId, offset: nat, limit: nat)
    requires
        offset >= s.all_matches(user).len(),
    ensures
        s.history(user, offset, limit) == Seq::<Remittance>::empty(),
{
    assert(s.history(user, offset, limit) =~= Seq::<Remittance>::empty());
}

} // verus!
