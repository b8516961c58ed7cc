use crate::types::{Error, UserStats, DAILY_LIMIT, MAX_AMOUNT, MIN_AMOUNT, SECONDS_PER_DAY};
use vstd::prelude::*;

verus! {

/// The day a timestamp falls on: whole days since the epoch.
pub open spec fn day_of(now: u64) -> u64 {
    now / SECONDS_PER_DAY
}

/// Whether `amount` may be escrowed.
pub open spec fn amount_in_range(amount: i128) -> bool {
    MIN_AMOUNT <= amount <= MAX_AMOUNT
}

/// Whether the account has used up its creations for the day of `now`.
pub open spec fn limit_reached(stats: UserStats, now: u64) -> bool {
    day_of(now) == stats.last_tx_date && stats.daily_count >= DAILY_LIMIT
}

/// The counters after one more creation at `now`: the daily count starts
/// again at 1 on a new day and grows by 1 otherwise.
pub open spec fn stats_after(stats: UserStats, now: u64) -> UserStats {
    UserStats {
        total_remittances: (stats.total_remittances + 1) as u32,
        daily_count: if day_of(now) == stats.last_tx_date {
            (stats.daily_count + 1) as u32
        } else {
            1
        },
        last_tx_date: day_of(now),
    }
}

/// Whether fewer than 24 hours lie between `created_at` and `now`, so that a
/// refund needs the sender's authorization.
pub open spec fn in_cooldown(created_at: u64, now: u64) -> bool {
    now - created_at < SECONDS_PER_DAY
}

/// Computes the day a timestamp falls on.
pub fn day_bucket(now: u64) -> (day: u64)
    ensures
        day == day_of(now),
{
    now / SECONDS_PER_DAY
}

/// Checks an amount against the escrow bounds.
pub fn validate_amount(amount: i128) -> (checked: Result<(), Error>)
    ensures
        checked == if amount_in_range(amount) {
            Ok::<(), Error>(())
        } else {
            Err::<(), Error>(Error::AmountOutOfRange)
        },
{
    if amount < MIN_AMOUNT || amount > MAX_AMOUNT {
        Err(Error::AmountOutOfRange)
    } else {
        Ok(())
    }
}

/// Decides whether the account has used up its creations for the day of
/// `now`.
pub fn daily_limit_reached(stats: &UserStats, now: u64) -> (reached: bool)
    ensures
        reached == limit_reached(*stats, now),
{
    day_bucket(now) == stats.last_tx_date && stats.daily_count >= DAILY_LIMIT
}

/// Applies the daily limit to one more creation at `now` and returns the
/// updated counters.
pub fn record_creation(stats: UserStats, now: u64) -> (updated: Result<UserStats, Error>)
    requires
        !limit_reached(stats, now) ==> stats.total_remittances < u32::MAX,
    ensures
        updated == if limit_reached(stats, now) {
            Err::<UserStats, Error>(Error::DailyLimitExceeded)
        } else {
            Ok::<UserStats, Error>(stats_after(stats, now))
        },
{
    let today = day_bucket(now);
    let daily_count = if today == stats.last_tx_date {
        if stats.daily_count >= DAILY_LIMIT {
            return Err(Error::DailyLimitExceeded);
        }
        stats.daily_count + 1
    } else {
        1
    };
    Ok(
        UserStats {
            total_remittances: stats.total_remittances + 1,
            daily_count,
            last_tx_date: today,
        },
    )
}

/// Decides whether a refund at `now` of a remittance created at `created_at`
/// needs the sender's authorization.
pub fn refund_requires_authorization(created_at: u64, now: u64) -> (required: bool)
    ensures
        required == in_cooldown(created_at, now),
{
    now < created_at || now - created_at < SECONDS_PER_DAY
}

} // verus!
