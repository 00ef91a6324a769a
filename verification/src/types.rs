use vstd::prelude::*;

verus! {

/// Where a stream stands in its life.
#[derive(Clone, Copy, Debug, PartialEq, Eq, Structural)]
pub enum StreamStatus {
    /// Accruing; the recipient may withdraw.
    Active,
    /// Accrual goes on, but withdrawals wait until the stream is resumed.
    Paused,
    /// The recipient has withdrawn the whole deposit.
    Completed,
    /// Ended early by the sender or the admin; what had accrued by then stays claimable.
    Cancelled,
}

/// What the ledger announces when a stream is paused, resumed or cancelled.
#[derive(Clone, Copy, Debug, PartialEq, Eq, Structural)]
pub enum StreamEvent {
    Paused(u64),
    Resumed(u64),
    Cancelled(u64),
}

/// Why an operation was refused. A refused operation changes nothing.
#[derive(Clone, Copy, Debug, PartialEq, Eq, Structural)]
pub enum StreamError {
    AlreadyInitialised,
    NotInitialised,
    StreamNotFound,
    DepositNotPositive,
    RateNotPositive,
    SenderIsRecipient,
    StartNotBeforeEnd,
    CliffOutOfRange,
    StreamableOverflow,
    DepositBelowStreamable,
    NotActive,
    NotPaused,
    NotCancellable,
    AlreadyCompleted,
    WithdrawWhilePaused,
    NothingToWithdraw,
}

impl StreamError {
    /// The text of [`StreamError::message`] for this refusal.
    pub open spec fn text(self) -> Seq<char> {
        match self {
            StreamError::AlreadyInitialised => "already initialised"@,
            StreamError::NotInitialised => "not initialised"@,
            StreamError::StreamNotFound => "stream not found"@,
            StreamError::DepositNotPositive => "deposit_amount must be positive"@,
            StreamError::RateNotPositive => "rate_per_second must be positive"@,
            StreamError::SenderIsRecipient => "sender and recipient must be different"@,
            StreamError::StartNotBeforeEnd => "start_time must be before end_time"@,
            StreamError::CliffOutOfRange => "cliff_time must be within [start_time, end_time]"@,
            StreamError::StreamableOverflow => "overflow calculating total streamable amount"@,
            StreamError::DepositBelowStreamable => "deposit_amount must cover total streamable amount (rate * duration)"@,
            StreamError::NotActive => "stream is not active"@,
            StreamError::NotPaused => "stream is not paused"@,
            StreamError::NotCancellable => "stream must be active or paused to cancel"@,
            StreamError::AlreadyCompleted => "stream already completed"@,
            StreamError::WithdrawWhilePaused => "cannot withdraw from paused stream"@,
            StreamError::NothingToWithdraw => "nothing to withdraw"@,
        }
    }

    /// The text the contract aborts with for this refusal.
    pub fn message(&self) -> (r: &'static str)
        ensures
            r@ == self.text(),
    {
        match self {
            StreamError::AlreadyInitialised => "already initialised",
            StreamError::NotInitialised => "not initialised",
            StreamError::StreamNotFound => "stream not found",
            StreamError::DepositNotPositive => "deposit_amount must be positive",
            StreamError::RateNotPositive => "rate_per_second must be positive",
            StreamError::SenderIsRecipient => "sender and recipient must be different",
            StreamError::StartNotBeforeEnd => "start_time must be before end_time",
            StreamError::CliffOutOfRange => "cliff_time must be within [start_time, end_time]",
            StreamError::StreamableOverflow => "overflow calculating total streamable amount",
            StreamError::DepositBelowStreamable => "deposit_amount must cover total streamable amount (rate * duration)",
            StreamError::NotActive => "stream is not active",
            StreamError::NotPaused => "stream is not paused",
            StreamError::NotCancellable => "stream must be active or paused to cancel",
            StreamError::AlreadyCompleted => "stream already completed",
            StreamError::WithdrawWhilePaused => "cannot withdraw from paused stream",
            StreamError::NothingToWithdraw => "nothing to withdraw",
        }
    }
}

} // verus!
