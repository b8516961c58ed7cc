use crate::table::same_bytes;
use vstd::prelude::*;

verus! {

/// Smallest amount that can be escrowed: 100 units at seven decimal places.
pub const MIN_AMOUNT: i128 = 100_0000000;

/// Largest amount that can be escrowed: 50,000 units at seven decimal places.
pub const MAX_AMOUNT: i128 = 50000_0000000;

/// Remittances one account may create within one day.
pub const DAILY_LIMIT: u32 = 5;

/// Length of a day, and of the refund cooldown, in seconds.
pub const SECONDS_PER_DAY: u64 = 86400;

/// An account identity, held as the 56 characters of its address.
#[derive(Clone, Copy, Debug, PartialEq, Eq)]
pub struct AccountId {
    pub strkey: [u8; 56],
}

impl View for AccountId {
    type V = Seq<u8>;

    open spec fn view(&self) -> Seq<u8> {
        self.strkey@
    }
}

/// Lifecycle of a remittance. `Completed` and `Failed` are terminal.
#[derive(Clone, Copy, Debug, PartialEq, Eq, Structural)]
pub enum Status {
    Pending,
    Completed,
    Failed,
}

/// Why an operation was rejected.
#[derive(Clone, Copy, Debug, PartialEq, Eq, Structural)]
pub enum Error {
    AlreadyInitialized,
    Unauthorized,
    AmountOutOfRange,
    DailyLimitExceeded,
    NotFound,
    InvalidState,
    TransferFailed,
}

/// One escrow transaction.
#[derive(Clone, Copy, Debug, PartialEq, Eq)]
pub struct Remittance {
    pub id: [u8; 32],
    pub sender: AccountId,
    pub recipient: AccountId,
    /// Escrowed source amount, seven decimal places.
    pub amount_aed: i128,
    /// Destination amount; zero until completion.
    pub amount_inr: i128,
    /// Exchange rate, seven decimal places; zero until completion.
    pub exchange_rate: i128,
    pub fee: i128,
    pub status: Status,
    pub created_at: u64,
}

/// Per-account counters behind the daily rate limit.
#[derive(Clone, Copy, Debug, PartialEq, Eq)]
pub struct UserStats {
    /// Remittances this account has created over its lifetime.
    pub total_remittances: u32,
    /// Remittances created on the day `last_tx_date`.
    pub daily_count: u32,
    /// Day number (seconds since the epoch / 86400) of the latest creation.
    pub last_tx_date: u64,
}

/// One end of an asset transfer.
#[derive(Clone, Copy, Debug, PartialEq, Eq)]
pub enum Party {
    /// The ledger's own escrow-holding identity.
    Escrow,
    Account(AccountId),
}

/// An asset movement for the caller to carry out.
#[derive(Clone, Copy, Debug, PartialEq, Eq)]
pub struct Transfer {
    pub asset: AccountId,
    pub from: Party,
    pub to: Party,
    pub amount: i128,
}

/// What a notification reports.
#[derive(Clone, Copy, Debug, PartialEq, Eq, Structural)]
pub enum NoticeKind {
    Created,
    Completed,
    Refunded,
}

/// A notification for the caller to publish: its kind, the account it is
/// keyed by, and the remittance it carries.
#[derive(Clone, Copy, Debug, PartialEq, Eq)]
pub struct Notice {
    pub kind: NoticeKind,
    pub account: AccountId,
    pub id: [u8; 32],
}

/// A structured key of the persisted state.
#[derive(Clone, Copy, Debug, PartialEq, Eq)]
pub enum DataKey {
    Remittance([u8; 32]),
    UserStats(AccountId),
}

impl AccountId {
    /// Whether both name the same account.
    pub fn same_as(&self, other: &AccountId) -> (same: bool)
        ensures
            same == (self@ == other@),
    {
        same_bytes(&self.strkey, &other.strkey)
    }
}

impl Error {
    /// A sentence that says what was refused.
    pub fn message(&self) -> (text: &'static str)
        ensures
            *self == Error::AlreadyInitialized ==> text@ == "Contract already initialized"@,
            *self == Error::Unauthorized ==> text@ == "Caller is not authorized"@,
            *self == Error::AmountOutOfRange ==> text@
                == "Amount must be between 100 and 50,000 AED"@,
            *self == Error::DailyLimitExceeded ==> text@
                == "Daily transaction limit exceeded (max 5)"@,
            *self == Error::NotFound ==> text@ == "Remittance not found"@,
            *self == Error::InvalidState ==> text@ == "Remittance is not pending"@,
            *self == Error::TransferFailed ==> text@ == "Asset transfer failed"@,
    {
        match self {
            Error::AlreadyInitialized => "Contract already initialized",
            Error::Unauthorized => "Caller is not authorized",
            Error::AmountOutOfRange => "Amount must be between 100 and 50,000 AED",
            Error::DailyLimitExceeded => "Daily transaction limit exceeded (max 5)",
            Error::NotFound => "Remittance not found",
            Error::InvalidState => "Remittance is not pending",
            Error::TransferFailed => "Asset transfer failed",
        }
    }
}

impl NoticeKind {
    /// The topic under which the notification is published.
    pub fn topic(&self) -> (name: &'static str)
        ensures
            *self == NoticeKind::Created ==> name@ == "created"@,
            *self == NoticeKind::Completed ==> name@ == "complete"@,
            *self == NoticeKind::Refunded ==> name@ == "refund"@,
    {
        match self {
            NoticeKind::Created => "created",
            NoticeKind::Completed => "complete",
            NoticeKind::Refunded => "refund",
        }
    }
}

impl UserStats {
    /// The counters of an account that has never transacted.
    pub open spec fn zero() -> UserStats {
        UserStats { total_remittances: 0, daily_count: 0, last_tx_date: 0 }
    }

    /// The counters of an account that has never transacted.
    pub fn empty() -> (stats: UserStats)
        ensures
            stats == UserStats::zero(),
    {
        UserStats { total_remittances: 0, daily_count: 0, last_tx_date: 0 }
    }
}

impl Status {
    /// The short name under which the status is published.
    pub fn as_str(&self) -> (name: &'static str)
        ensures
            *self == Status::Pending ==> name@ == "pending"@,
            *self == Status::Completed ==> name@ == "complete"@,
            *self == Status::Failed ==> name@ == "failed"@,
    {
        match self {
            Status::Pending => "pending",
            Status::Completed => "complete",
            Status::Failed => "failed",
        }
    }

    /// Whether no further transition is permitted.
    pub fn is_terminal(&self) -> (terminal: bool)
        ensures
            terminal == (*self != Status::Pending),
    {
        match self {
            Status::Pending => false,
            _ => true,
        }
    }
}

} // verus!
