use vstd::prelude::*;

use crate::account::Account;
use crate::accrual::{
    accrued_amount, calculate_accrued_amount, lemma_accrued_monotone,
    lemma_accrued_on_valid_schedule, valid_schedule,
};
use crate::types::{StreamError, StreamStatus};

verus! {

/// One payment stream.
#[derive(Debug)]
pub struct Stream {
    pub stream_id: u64,
    pub sender: Account,
    pub recipient: Account,
    pub deposit_amount: i128,
    pub rate_per_second: i128,
    pub start_time: u64,
    pub cliff_time: u64,
    pub end_time: u64,
    pub withdrawn_amount: i128,
    pub status: StreamStatus,
    /// When the stream was cancelled, if it was; accrual stops there.
    pub cancelled_at: Option<u64>,
}

/// The mathematical value of a [`Stream`]: its fields, addresses as byte sequences.
pub struct StreamModel {
    pub stream_id: u64,
    pub sender: Seq<u8>,
    pub recipient: Seq<u8>,
    pub deposit_amount: i128,
    pub rate_per_second: i128,
    pub start_time: u64,
    pub cliff_time: u64,
    pub end_time: u64,
    pub withdrawn_amount: i128,
    pub status: StreamStatus,
    pub cancelled_at: Option<u64>,
}

impl View for Stream {
    type V = StreamModel;

    open spec fn view(&self) -> StreamModel {
        StreamModel {
            stream_id: self.stream_id,
            sender: self.sender@,
            recipient: self.recipient@,
            deposit_amount: self.deposit_amount,
            rate_per_second: self.rate_per_second,
            start_time: self.start_time,
            cliff_time: self.cliff_time,
            end_time: self.end_time,
            withdrawn_amount: self.withdrawn_amount,
            status: self.status,
            cancelled_at: self.cancelled_at,
        }
    }
}

/// Why `create` would refuse these parameters, checked in this order; `None` when it accepts them.
pub open spec fn open_error(
    sender: Seq<u8>,
    recipient: Seq<u8>,
    deposit: i128,
    rate: i128,
    start: u64,
    cliff: u64,
    end: u64,
) -> Option<StreamError> {
    if deposit <= 0 {
        Some(StreamError::DepositNotPositive)
    } else if rate <= 0 {
        Some(StreamError::RateNotPositive)
    } else if sender == recipient {
        Some(StreamError::SenderIsRecipient)
    } else if end <= start {
        Some(StreamError::StartNotBeforeEnd)
    } else if cliff < start || cliff > end {
        Some(StreamError::CliffOutOfRange)
    } else if rate * (end - start) > i128::MAX {
        Some(StreamError::StreamableOverflow)
    } else if rate * (end - start) > deposit {
        Some(StreamError::DepositBelowStreamable)
    } else {
        None
    }
}

/// A stream as it stands right after creation.
pub open spec fn fresh_stream(
    stream_id: u64,
    sender: Seq<u8>,
    recipient: Seq<u8>,
    deposit: i128,
    rate: i128,
    start: u64,
    cliff: u64,
    end: u64,
) -> StreamModel {
    StreamModel {
        stream_id,
        sender,
        recipient,
        deposit_amount: deposit,
        rate_per_second: rate,
        start_time: start,
        cliff_time: cliff,
        end_time: end,
        withdrawn_amount: 0,
        status: StreamStatus::Active,
        cancelled_at: None,
    }
}

impl StreamModel {
    /// The whole amount the schedule streams: `rate * (end - start)`.
    pub open spec fn streamable(self) -> int {
        self.rate_per_second * (self.end_time - self.start_time)
    }

    /// What every stream of the ledger satisfies.
    pub open spec fn wf(self) -> bool {
        &&& valid_schedule(
            self.deposit_amount as int,
            self.rate_per_second as int,
            self.start_time as int,
            self.cliff_time as int,
            self.end_time as int,
        )
        &&& self.sender != self.recipient
        &&& 0 <= self.withdrawn_amount <= self.streamable()
        &&& (self.status == StreamStatus::Cancelled <==> self.cancelled_at is Some)
        &&& (self.status == StreamStatus::Completed ==> self.withdrawn_amount == self.deposit_amount)
    }

    /// The time accrual is measured at: `now`, but no later than the cancellation.
    pub open spec fn effective_time(self, now: u64) -> u64 {
        match self.cancelled_at {
            Some(t) => if now < t { now } else { t },
            None => now,
        }
    }

    /// What has accrued to the recipient at `now`.
    pub open spec fn accrued_at(self, now: u64) -> int {
        accrued_amount(
            self.deposit_amount as int,
            self.rate_per_second as int,
            self.start_time as int,
            self.cliff_time as int,
            self.end_time as int,
            self.effective_time(now) as int,
        )
    }

    /// What the recipient could withdraw at `now`.
    pub open spec fn withdrawable_at(self, now: u64) -> int {
        self.accrued_at(now) - self.withdrawn_amount
    }

    /// What the ledger still holds for this stream: the deposit less what was
    /// withdrawn, or, once cancelled, what had accrued by then less what was withdrawn
    /// (the rest went back to the sender).
    pub open spec fn held_by_ledger(self) -> int {
        match self.cancelled_at {
            Some(t) => self.accrued_at(t) - self.withdrawn_amount,
            None => self.deposit_amount - self.withdrawn_amount,
        }
    }

    /// Pausing: only an active stream can be paused.
    pub open spec fn paused(self) -> Result<StreamModel, StreamError> {
        if self.status == StreamStatus::Active {
            Ok(StreamModel { status: StreamStatus::Paused, ..self })
        } else {
            Err(StreamError::NotActive)
        }
    }

    /// Resuming: only a paused stream can be resumed.
    pub open spec fn resumed(self) -> Result<StreamModel, StreamError> {
        if self.status == StreamStatus::Paused {
            Ok(StreamModel { status: StreamStatus::Active, ..self })
        } else {
            Err(StreamError::NotPaused)
        }
    }

    /// Cancelling at `now`: the stream stops accruing and the part of the
    /// deposit that has not accrued goes back to the sender (the second component).
    pub open spec fn cancelled(self, now: u64) -> Result<(StreamModel, int), StreamError> {
        if self.status == StreamStatus::Active || self.status == StreamStatus::Paused {
            Ok(
                (
                    StreamModel {
                        status: StreamStatus::Cancelled,
                        cancelled_at: Some(now),
                        ..self
                    },
                    self.deposit_amount - self.accrued_at(now),
                ),
            )
        } else {
            Err(StreamError::NotCancellable)
        }
    }

    /// Withdrawing at `now`: the recipient receives everything accrued and not
    /// yet withdrawn (the second component); an active stream whose whole
    /// deposit has been withdrawn is completed.
    pub open spec fn withdrawn(self, now: u64) -> Result<(StreamModel, int), StreamError> {
        if self.status == StreamStatus::Completed {
            Err(StreamError::AlreadyCompleted)
        } else if self.status == StreamStatus::Paused {
            Err(StreamError::WithdrawWhilePaused)
        } else if self.withdrawable_at(now) <= 0 {
            Err(StreamError::NothingToWithdraw)
        } else {
            let accrued = self.accrued_at(now);
            Ok(
                (
                    StreamModel {
                        withdrawn_amount: accrued as i128,
                        status: if self.status == StreamStatus::Active && accrued
                            == self.deposit_amount {
                            StreamStatus::Completed
                        } else {
                            self.status
                        },
                        ..self
                    },
                    self.withdrawable_at(now),
                ),
            )
        }
    }
}

/// On a well-formed stream accrual lies between nothing and the streamable amount.
pub proof fn lemma_accrued_bounds(s: StreamModel, now: u64)
    requires
        s.wf(),
    ensures
        0 <= s.accrued_at(now) <= s.streamable() <= s.deposit_amount,
{
    lemma_accrued_on_valid_schedule(
        s.deposit_amount as int,
        s.rate_per_second as int,
        s.start_time as int,
        s.cliff_time as int,
        s.end_time as int,
        s.effective_time(now) as int,
    );
}

/// On a well-formed stream accrual never decreases as time goes on.
pub proof fn lemma_stream_accrued_monotone(s: StreamModel, t1: u64, t2: u64)
    requires
        s.wf(),
        t1 <= t2,
    ensures
        s.accrued_at(t1) <= s.accrued_at(t2),
{
    assert(s.effective_time(t1) <= s.effective_time(t2));
    lemma_accrued_monotone(
        s.deposit_amount as int,
        s.rate_per_second as int,
        s.start_time as int,
        s.cliff_time as int,
        s.end_time as int,
        s.effective_time(t1) as int,
        s.effective_time(t2) as int,
    );
}

impl Stream {
    /// Opens stream `stream_id` after checking its parameters (see [`open_error`]).
    pub fn open(
        stream_id: u64,
        sender: Account,
        recipient: Account,
        deposit_amount: i128,
        rate_per_second: i128,
        start_time: u64,
        cliff_time: u64,
        end_time: u64,
    ) -> (r: Result<Stream, StreamError>)
        ensures
            match open_error(
                sender@,
                recipient@,
                deposit_amount,
                rate_per_second,
                start_time,
                cliff_time,
                end_time,
            ) {
                Some(e) => r == Err::<Stream, StreamError>(e),
                None => r matches Ok(s) && s@ == fresh_stream(
                    stream_id,
                    sender@,
                    recipient@,
                    deposit_amount,
                    rate_per_second,
                    start_time,
                    cliff_time,
                    end_time,
                ) && s@.wf(),
            },
    {
        if deposit_amount <= 0 {
            return Err(StreamError::DepositNotPositive);
        }
        if rate_per_second <= 0 {
            return Err(StreamError::RateNotPositive);
        }
        if sender.same_as(&recipient) {
            return Err(StreamError::SenderIsRecipient);
        }
        if end_time <= start_time {
            return Err(StreamError::StartNotBeforeEnd);
        }
        if cliff_time < start_time || cliff_time > end_time {
            return Err(StreamError::CliffOutOfRange);
        }
        let duration: i128 = (end_time - start_time) as i128;
        let streamable: i128 = match rate_per_second.checked_mul(duration) {
            Some(v) => v,
            None => {
                return Err(StreamError::StreamableOverflow);
            },
        };
        if streamable > deposit_amount {
            return Err(StreamError::DepositBelowStreamable);
        }
        let s = Stream {
            stream_id,
            sender,
            recipient,
            deposit_amount,
            rate_per_second,
            start_time,
            cliff_time,
            end_time,
            withdrawn_amount: 0,
            status: StreamStatus::Active,
            cancelled_at: None,
        };
        proof {
            assert(0 <= streamable) by (nonlinear_arith)
                requires
                    streamable == rate_per_second * duration,
                    rate_per_second > 0,
                    duration > 0,
            ;
        }
        Ok(s)
    }

    /// What has accrued to the recipient at `now` (see [`StreamModel::accrued_at`]).
    pub fn accrued_at(&self, now: u64) -> (r: i128)
        ensures
            r == self@.accrued_at(now),
    {
        let t: u64 = match self.cancelled_at {
            Some(c) => if now < c { now } else { c },
            None => now,
        };
        calculate_accrued_amount(
            self.deposit_amount,
            self.rate_per_second,
            self.start_time,
            self.cliff_time,
            self.end_time,
            t,
        )
    }

    /// Whether this value satisfies [`StreamModel::wf`].
    pub fn is_well_formed(&self) -> (r: bool)
        ensures
            r == self@.wf(),
    {
        if self.deposit_amount <= 0 || self.rate_per_second <= 0 {
            return false;
        }
        if self.end_time <= self.start_time || self.cliff_time < self.start_time
            || self.cliff_time > self.end_time {
            return false;
        }
        if self.sender.same_as(&self.recipient) {
            return false;
        }
        let duration: i128 = (self.end_time - self.start_time) as i128;
        let streamable: i128 = match self.rate_per_second.checked_mul(duration) {
            Some(v) => v,
            None => {
                return false;
            },
        };
        if streamable > self.deposit_amount {
            return false;
        }
        if self.withdrawn_amount < 0 || self.withdrawn_amount > streamable {
            return false;
        }
        let cancelled: bool = match self.status {
            StreamStatus::Cancelled => true,
            _ => false,
        };
        if cancelled != self.cancelled_at.is_some() {
            return false;
        }
        match self.status {
            StreamStatus::Completed => self.withdrawn_amount == self.deposit_amount,
            _ => true,
        }
    }

    /// A second value equal to this one.
    pub fn snapshot(&self) -> (r: Stream)
        ensures
            r@ == self@,
    {
        Stream {
            stream_id: self.stream_id,
            sender: self.sender.duplicate(),
            recipient: self.recipient.duplicate(),
            deposit_amount: self.deposit_amount,
            rate_per_second: self.rate_per_second,
            start_time: self.start_time,
            cliff_time: self.cliff_time,
            end_time: self.end_time,
            withdrawn_amount: self.withdrawn_amount,
            status: self.status,
            cancelled_at: self.cancelled_at,
        }
    }

    /// Pauses an active stream (see [`StreamModel::paused`]).
    pub fn pause(&mut self) -> (r: Result<(), StreamError>)
        requires
            old(self)@.wf(),
        ensures
            final(self)@.wf(),
            match old(self)@.paused() {
                Ok(m) => r is Ok && final(self)@ == m,
                Err(e) => r == Err::<(), StreamError>(e) && final(self)@ == old(self)@,
            },
    {
        match self.status {
            StreamStatus::Active => {
                self.status = StreamStatus::Paused;
                Ok(())
            },
            _ => Err(StreamError::NotActive),
        }
    }

    /// Resumes a paused stream (see [`StreamModel::resumed`]).
    pub fn resume(&mut self) -> (r: Result<(), StreamError>)
        requires
            old(self)@.wf(),
        ensures
            final(self)@.wf(),
            match old(self)@.resumed() {
                Ok(m) => r is Ok && final(self)@ == m,
                Err(e) => r == Err::<(), StreamError>(e) && final(self)@ == old(self)@,
            },
    {
        match self.status {
            StreamStatus::Paused => {
                self.status = StreamStatus::Active;
                Ok(())
            },
            _ => Err(StreamError::NotPaused),
        }
    }

    /// Cancels the stream at `now` and returns the refund owed to the sender
    /// (see [`StreamModel::cancelled`]).
    pub fn cancel(&mut self, now: u64) -> (r: Result<i128, StreamError>)
        requires
            old(self)@.wf(),
        ensures
            final(self)@.wf(),
            match old(self)@.cancelled(now) {
                Ok((m, refund)) => r matches Ok(v) && v == refund && final(self)@ == m,
                Err(e) => r == Err::<i128, StreamError>(e) && final(self)@ == old(self)@,
            },
    {
        match self.status {
            StreamStatus::Active | StreamStatus::Paused => {
                let accrued: i128 = self.accrued_at(now);
                proof {
                    lemma_accrued_bounds(self@, now);
                }
                let refund: i128 = self.deposit_amount - accrued;
                self.status = StreamStatus::Cancelled;
                self.cancelled_at = Some(now);
                Ok(refund)
            },
            _ => Err(StreamError::NotCancellable),
        }
    }

    /// Pays out at `now` everything accrued and not yet withdrawn and returns
    /// that amount (see [`StreamModel::withdrawn`]).
    pub fn withdraw(&mut self, now: u64) -> (r: Result<i128, StreamError>)
        requires
            old(self)@.wf(),
        ensures
            final(self)@.wf(),
            match old(self)@.withdrawn(now) {
                Ok((m, amount)) => r matches Ok(v) && v == amount && final(self)@ == m,
                Err(e) => r == Err::<i128, StreamError>(e) && final(self)@ == old(self)@,
            },
    {
        match self.status {
            StreamStatus::Completed => {
                return Err(StreamError::AlreadyCompleted);
            },
            StreamStatus::Paused => {
                return Err(StreamError::WithdrawWhilePaused);
            },
            _ => {},
        }
        let accrued: i128 = self.accrued_at(now);
        proof {
            lemma_accrued_bounds(self@, now);
        }
        let amount: i128 = accrued - self.withdrawn_amount;
        if amount <= 0 {
            return Err(StreamError::NothingToWithdraw);
        }
        self.withdrawn_amount = accrued;
        let completes: bool = match self.status {
            StreamStatus::Active => accrued == self.deposit_amount,
            _ => false,
        };
        if completes {
            self.status = StreamStatus::Completed;
        }
        Ok(amount)
    }
}

} // verus!
