use vstd::prelude::*;

use crate::accrual::{accrual_horizon, accrued_amount, lemma_accrued_on_valid_schedule};
use crate::ledger::{LedgerModel, ReceiptModel, TransferModel};
use crate::stream::{fresh_stream, lemma_accrued_bounds, lemma_stream_accrued_monotone, StreamModel};
use crate::types::{StreamError, StreamEvent, StreamStatus};

verus! {

/// Accrual on a stream: nothing before the cliff; from the cliff on,
/// `rate_per_second` for every second since `start_time` (not since the cliff),
/// counted up to `end_time` (or up to the cancellation); never negative and never
/// more than the deposit.
pub proof fn law_accrual_schedule(s: StreamModel, now: u64)
    requires
        s.wf(),
    ensures
        s.accrued_at(now) == if s.effective_time(now) < s.cliff_time {
            0
        } else {
            s.rate_per_second * (accrual_horizon(s.end_time as int, s.effective_time(now) as int)
                - s.start_time)
        },
        0 <= s.accrued_at(now) <= s.deposit_amount,
{
    lemma_accrued_on_valid_schedule(
        s.deposit_amount as int,
        s.rate_per_second as int,
        s.start_time as int,
        s.cliff_time as int,
        s.end_time as int,
        s.effective_time(now) as int,
    );
}

/// Accrual never decreases as time goes on.
pub proof fn law_accrual_monotone(s: StreamModel, t1: u64, t2: u64)
    requires
        s.wf(),
        t1 <= t2,
    ensures
        s.accrued_at(t1) <= s.accrued_at(t2),
{
    lemma_stream_accrued_monotone(s, t1, t2);
}

/// A cancelled stream accrues nothing after its cancellation.
pub proof fn law_accrual_stops_at_cancel(s: StreamModel, now: u64, later: u64)
    requires
        s.wf(),
        s.cancelled(now) is Ok,
        now <= later,
    ensures
        s.cancelled(now).unwrap().0.accrued_at(later) == s.accrued_at(now),
{
}

/// Pausing does not stop accrual, and resuming undoes a pause exactly.
pub proof fn law_pause_resume(s: StreamModel, now: u64)
    requires
        s.wf(),
        s.paused() is Ok,
    ensures
        s.paused().unwrap().accrued_at(now) == s.accrued_at(now),
        s.paused().unwrap().resumed() == Ok::<StreamModel, StreamError>(s),
{
    assert(s.paused().unwrap().resumed().unwrap() == s);
}

/// A withdrawal pays exactly what has accrued and was not yet withdrawn; after
/// it, `withdrawn_amount` equals the accrued amount, it has grown, and a second
/// withdrawal at the same time is refused with nothing to withdraw.
pub proof fn law_withdraw_pays_accrued(s: StreamModel, now: u64)
    requires
        s.wf(),
        s.withdrawn(now) is Ok,
    ensures
        ({
            let (m, amount) = s.withdrawn(now).unwrap();
            &&& amount == s.accrued_at(now) - s.withdrawn_amount
            &&& amount > 0
            &&& m.withdrawn_amount == s.accrued_at(now)
            &&& m.withdrawn_amount > s.withdrawn_amount
            &&& m.withdrawn_amount <= m.deposit_amount
            &&& m.withdrawn(now) == Err::<(StreamModel, int), StreamError>(StreamError::NothingToWithdraw)
                || m.withdrawn(now) == Err::<(StreamModel, int), StreamError>(StreamError::AlreadyCompleted)
        }),
{
    lemma_accrued_bounds(s, now);
}

/// Completed and cancelled streams are final: they can be neither paused,
/// resumed nor cancelled, a completed one cannot be withdrawn from, and a
/// withdrawal leaves a cancelled stream cancelled.
pub proof fn law_final_statuses(s: StreamModel, now: u64)
    requires
        s.wf(),
        s.status == StreamStatus::Completed || s.status == StreamStatus::Cancelled,
    ensures
        s.paused() is Err,
        s.resumed() is Err,
        s.cancelled(now) is Err,
        s.status == StreamStatus::Completed ==> s.withdrawn(now) is Err,
        s.status == StreamStatus::Cancelled && s.withdrawn(now) is Ok ==> s.withdrawn(
            now,
        ).unwrap().0.status == StreamStatus::Cancelled,
{
}

/// A stream is completed only once its whole deposit has been withdrawn.
pub proof fn law_completed_means_fully_withdrawn(s: StreamModel)
    requires
        s.wf(),
        s.status == StreamStatus::Completed,
    ensures
        s.withdrawn_amount == s.deposit_amount,
{
}

/// The ledger always holds at least what the recipient can claim, at any time.
pub proof fn law_claim_covered(s: StreamModel, now: u64)
    requires
        s.wf(),
    ensures
        s.withdrawable_at(now) <= s.held_by_ledger(),
{
    match s.cancelled_at {
        Some(t) => {
            lemma_stream_accrued_monotone(s, if now < t { now } else { t }, t);
            assert(s.effective_time(if now < t { now } else { t }) == s.effective_time(now));
        },
        None => {
            lemma_accrued_bounds(s, now);
        },
    }
}

/// Cancelling splits the deposit: the refund goes back to the sender and the
/// rest stays claimable by the recipient, so refund + what the ledger still
/// holds + what was already withdrawn equals the deposit. When no withdrawal
/// was made later than `now`, neither part is negative.
pub proof fn law_cancel_conserves(s: StreamModel, now: u64)
    requires
        s.wf(),
        s.cancelled(now) is Ok,
    ensures
        ({
            let (m, refund) = s.cancelled(now).unwrap();
            &&& refund == s.deposit_amount - s.accrued_at(now)
            &&& refund >= 0
            &&& refund + m.held_by_ledger() + m.withdrawn_amount == s.deposit_amount
            &&& s.withdrawn_amount <= s.accrued_at(now) ==> m.held_by_ledger() >= 0
        }),
{
    lemma_accrued_bounds(s, now);
}

/// A withdrawal takes exactly the paid amount out of what the ledger holds for the stream.
pub proof fn law_withdraw_conserves(s: StreamModel, now: u64)
    requires
        s.wf(),
        s.withdrawn(now) is Ok,
    ensures
        ({
            let (m, amount) = s.withdrawn(now).unwrap();
            &&& m.held_by_ledger() == s.held_by_ledger() - amount
            &&& m.held_by_ledger() >= 0
        }),
{
    law_claim_covered(s, now);
}

/// Initialisation succeeds only once; any later attempt is refused.
pub proof fn law_init_once(l: LedgerModel, token: Seq<u8>, admin: Seq<u8>, token2: Seq<u8>, admin2: Seq<u8>)
    requires
        l.init_step(token, admin) is Ok,
    ensures
        l.init_step(token, admin).unwrap().0.init_step(token2, admin2) == Err::<(LedgerModel, ReceiptModel), StreamError>(
            StreamError::AlreadyInitialised,
        ),
{
}

/// Stream ids are handed out in order from 0: a created stream gets the
/// current count of streams as its id and records it, the count grows by one,
/// and the streams already there are untouched.
pub proof fn law_ids_sequential(
    l: LedgerModel,
    sender: Seq<u8>,
    recipient: Seq<u8>,
    deposit: i128,
    rate: i128,
    start: u64,
    cliff: u64,
    end: u64,
)
    requires
        l.wf(),
        l.create_step(sender, recipient, deposit, rate, start, cliff, end) is Ok,
    ensures
        ({
            let (l2, id, _) = l.create_step(sender, recipient, deposit, rate, start, cliff, end).unwrap();
            &&& id == l.next_stream_id()
            &&& l2.next_stream_id() == id + 1
            &&& l2.stream(id) == Some(fresh_stream(id, sender, recipient, deposit, rate, start, cliff, end))
            &&& l2.stream(id).unwrap().stream_id == id
            &&& forall|other: u64| other < id ==> #[trigger] l2.stream(other) == l.stream(other)
        }),
{
}

/// An operation on one stream leaves every other stream as it was.
pub proof fn law_streams_independent(l: LedgerModel, id: u64, other: u64, now: u64, as_admin: bool)
    requires
        l.wf(),
        id != other,
    ensures
        l.pause_step(id, as_admin) matches Ok((l2, _)) ==> l2.stream(other) == l.stream(other),
        l.resume_step(id) matches Ok((l2, _)) ==> l2.stream(other) == l.stream(other),
        l.cancel_step(id, now, as_admin) matches Ok((l2, _)) ==> l2.stream(other) == l.stream(other),
        l.withdraw_step(id, now) matches Ok((l2, _, _)) ==> l2.stream(other) == l.stream(other),
{
}


/// What the ledger holds over all its streams.
pub open spec fn total_held(streams: Seq<StreamModel>) -> int
    decreases streams.len(),
{
    if streams.len() == 0 {
        0
    } else {
        total_held(streams.drop_last()) + streams.last().held_by_ledger()
    }
}

/// How much a receipt's transfer moves into the ledger's balance (negative when it moves out).
pub open spec fn net_inflow(rc: ReceiptModel) -> int {
    match rc.transfer {
        Some(TransferModel::IntoLedger { amount, .. }) => amount as int,
        Some(TransferModel::OutOfLedger { amount, .. }) => -(amount as int),
        None => 0,
    }
}

proof fn lemma_total_held_update(s: Seq<StreamModel>, i: int, x: StreamModel)
    requires
        0 <= i < s.len(),
    ensures
        total_held(s.update(i, x)) == total_held(s) - s[i].held_by_ledger() + x.held_by_ledger(),
    decreases s.len(),
{
    if i == s.len() - 1 {
        assert(s.update(i, x).drop_last() =~= s.drop_last());
    } else {
        lemma_total_held_update(s.drop_last(), i, x);
        assert(s.update(i, x).drop_last() =~= s.drop_last().update(i, x));
    }
}

/// The ledger's token balance tracks its holdings: for every accepted
/// operation, what the ledger holds over all streams changes by exactly what
/// the operation's transfer moves into (or out of) the ledger.
pub proof fn law_holdings_follow_transfers(
    l: LedgerModel,
    id: u64,
    now: u64,
    as_admin: bool,
    sender: Seq<u8>,
    recipient: Seq<u8>,
    deposit: i128,
    rate: i128,
    start: u64,
    cliff: u64,
    end: u64,
)
    requires
        l.wf(),
    ensures
        l.create_step(sender, recipient, deposit, rate, start, cliff, end) matches Ok((l2, _, rc))
            ==> total_held(l2.streams) == total_held(l.streams) + net_inflow(rc),
        l.pause_step(id, as_admin) matches Ok((l2, rc)) ==> total_held(l2.streams) == total_held(
            l.streams,
        ) + net_inflow(rc),
        l.resume_step(id) matches Ok((l2, rc)) ==> total_held(l2.streams) == total_held(l.streams)
            + net_inflow(rc),
        l.cancel_step(id, now, as_admin) matches Ok((l2, rc)) ==> total_held(l2.streams)
            == total_held(l.streams) + net_inflow(rc),
        l.withdraw_step(id, now) matches Ok((l2, _, rc)) ==> total_held(l2.streams) == total_held(
            l.streams,
        ) + net_inflow(rc),
{
    if let Ok((l2, _, _)) = l.create_step(sender, recipient, deposit, rate, start, cliff, end) {
        assert(l2.streams.drop_last() =~= l.streams);
    }
    if id < l.streams.len() {
        let s = l.streams[id as int];
        assert(s.wf());
        if let Ok(m) = s.paused() {
            lemma_total_held_update(l.streams, id as int, m);
        }
        if let Ok(m) = s.resumed() {
            lemma_total_held_update(l.streams, id as int, m);
        }
        if let Ok((m, _)) = s.cancelled(now) {
            law_cancel_conserves(s, now);
            lemma_total_held_update(l.streams, id as int, m);
        }
        if let Ok((m, _)) = s.withdrawn(now) {
            law_withdraw_conserves(s, now);
            law_withdraw_pays_accrued(s, now);
            lemma_total_held_update(l.streams, id as int, m);
        }
    }
}

/// The schedule fields of two stream values agree: only status, withdrawals
/// and the cancellation time may differ between them.
pub open spec fn same_terms(a: StreamModel, b: StreamModel) -> bool {
    &&& a.stream_id == b.stream_id
    &&& a.sender == b.sender
    &&& a.recipient == b.recipient
    &&& a.deposit_amount == b.deposit_amount
    &&& a.rate_per_second == b.rate_per_second
    &&& a.start_time == b.start_time
    &&& a.cliff_time == b.cliff_time
    &&& a.end_time == b.end_time
}

/// Accrual is measured at the ledger timestamp itself: for a stream that was
/// never cancelled it is the accrual formula at `now`, for a cancelled one at
/// the earlier of `now` and the cancellation time. Concretely, from the cliff
/// on it is `rate_per_second` times the seconds from `start_time` to `now`
/// (or to `end_time`, whichever comes first).
pub proof fn law_accrual_at_ledger_time(s: StreamModel, now: u64)
    requires
        s.wf(),
    ensures
        s.cancelled_at is None ==> s.accrued_at(now) == accrued_amount(
            s.deposit_amount as int,
            s.rate_per_second as int,
            s.start_time as int,
            s.cliff_time as int,
            s.end_time as int,
            now as int,
        ),
        s.cancelled_at matches Some(t) ==> s.accrued_at(now) == accrued_amount(
            s.deposit_amount as int,
            s.rate_per_second as int,
            s.start_time as int,
            s.cliff_time as int,
            s.end_time as int,
            if now < t { now as int } else { t as int },
        ),
        s.cancelled_at is None && now < s.cliff_time ==> s.accrued_at(now) == 0,
        s.cancelled_at is None && s.cliff_time <= now ==> s.accrued_at(now) == s.rate_per_second * ((
        if now < s.end_time {
            now as int
        } else {
            s.end_time as int
        }) - s.start_time),
{
    lemma_accrued_on_valid_schedule(
        s.deposit_amount as int,
        s.rate_per_second as int,
        s.start_time as int,
        s.cliff_time as int,
        s.end_time as int,
        now as int,
    );
}

/// Withdrawing succeeds exactly on an active or cancelled stream with
/// something accrued beyond what was withdrawn; it then records the whole
/// accrued amount as withdrawn and pays the difference. An active stream
/// becomes Completed exactly when its whole deposit has now been withdrawn
/// (whatever its times), and stays Active otherwise; a cancelled stream stays
/// cancelled; the stream's terms do not change.
pub proof fn law_withdraw_outcome(s: StreamModel, now: u64)
    requires
        s.wf(),
    ensures
        s.withdrawn(now) is Ok <==> ((s.status == StreamStatus::Active || s.status
            == StreamStatus::Cancelled) && s.accrued_at(now) > s.withdrawn_amount),
        s.status == StreamStatus::Completed ==> s.withdrawn(now) == Err::<(StreamModel, int), StreamError>(
            StreamError::AlreadyCompleted,
        ),
        s.status == StreamStatus::Paused ==> s.withdrawn(now) == Err::<(StreamModel, int), StreamError>(
            StreamError::WithdrawWhilePaused,
        ),
        (s.status == StreamStatus::Active || s.status == StreamStatus::Cancelled) && s.accrued_at(now)
            <= s.withdrawn_amount ==> s.withdrawn(now) == Err::<(StreamModel, int), StreamError>(
            StreamError::NothingToWithdraw,
        ),
        s.withdrawn(now) matches Ok((m, amount)) ==> {
            &&& same_terms(m, s)
            &&& m.cancelled_at == s.cancelled_at
            &&& m.withdrawn_amount == s.accrued_at(now)
            &&& amount == m.withdrawn_amount - s.withdrawn_amount
            &&& s.status == StreamStatus::Active ==> (m.status == StreamStatus::Completed
                <==> m.withdrawn_amount == s.deposit_amount)
            &&& s.status == StreamStatus::Active && m.withdrawn_amount != s.deposit_amount
                ==> m.status == StreamStatus::Active
            &&& s.status == StreamStatus::Cancelled ==> m.status == StreamStatus::Cancelled
        },
{
    lemma_accrued_bounds(s, now);
}

/// Cancelling succeeds exactly on an active or paused stream, at any time
/// (also before the stream starts); it marks the stream Cancelled at `now`,
/// refunds the deposit less what has accrued at `now`, leaves the
/// withdrawals and terms as they were, and freezes accrual from then on.
/// Completed and cancelled streams are refused.
pub proof fn law_cancel_outcome(s: StreamModel, now: u64, later: u64)
    requires
        s.wf(),
        now <= later,
    ensures
        s.cancelled(now) is Ok <==> (s.status == StreamStatus::Active || s.status
            == StreamStatus::Paused),
        !(s.status == StreamStatus::Active || s.status == StreamStatus::Paused) ==> s.cancelled(now)
            == Err::<(StreamModel, int), StreamError>(StreamError::NotCancellable),
        s.cancelled(now) matches Ok((m, refund)) ==> {
            &&& same_terms(m, s)
            &&& m.status == StreamStatus::Cancelled
            &&& m.cancelled_at == Some(now)
            &&& m.withdrawn_amount == s.withdrawn_amount
            &&& refund == s.deposit_amount - accrued_amount(
                s.deposit_amount as int,
                s.rate_per_second as int,
                s.start_time as int,
                s.cliff_time as int,
                s.end_time as int,
                now as int,
            )
            &&& 0 <= refund <= s.deposit_amount
            &&& m.accrued_at(later) == s.accrued_at(now)
        },
{
    lemma_accrued_bounds(s, now);
    law_accrual_at_ledger_time(s, now);
}

/// Pausing succeeds exactly on an active stream, whatever was withdrawn; it
/// only changes the status to Paused. Resuming succeeds exactly on a paused
/// stream and only changes the status back to Active.
pub proof fn law_pause_resume_outcome(s: StreamModel)
    requires
        s.wf(),
    ensures
        s.paused() is Ok <==> s.status == StreamStatus::Active,
        s.status != StreamStatus::Active ==> s.paused() == Err::<StreamModel, StreamError>(
            StreamError::NotActive,
        ),
        s.paused() matches Ok(m) ==> same_terms(m, s) && m.status == StreamStatus::Paused
            && m.withdrawn_amount == s.withdrawn_amount && m.cancelled_at == s.cancelled_at,
        s.resumed() is Ok <==> s.status == StreamStatus::Paused,
        s.status != StreamStatus::Paused ==> s.resumed() == Err::<StreamModel, StreamError>(
            StreamError::NotPaused,
        ),
        s.resumed() matches Ok(m) ==> same_terms(m, s) && m.status == StreamStatus::Active
            && m.withdrawn_amount == s.withdrawn_amount && m.cancelled_at == s.cancelled_at,
{
}

/// On the ledger, pausing stream `id` (on either path) succeeds exactly when
/// the stream exists and is Active, and announces Paused(id); the sender
/// authorises it, or the admin on the admin path.
pub proof fn law_ledger_pause(l: LedgerModel, id: u64, as_admin: bool)
    requires
        l.wf(),
    ensures
        l.pause_step(id, as_admin) is Ok <==> (id < l.streams.len() && l.streams[id as int].status
            == StreamStatus::Active),
        l.pause_step(id, as_admin) matches Ok((l2, rc)) ==> {
            &&& l2.streams[id as int].status == StreamStatus::Paused
            &&& rc.event == Some(StreamEvent::Paused(id))
            &&& rc.transfer is None
            &&& rc.authorizer == if as_admin {
                l.config.unwrap().admin
            } else {
                l.streams[id as int].sender
            }
        },
{
    if id < l.streams.len() {
        law_pause_resume_outcome(l.streams[id as int]);
    }
}

/// On the ledger, cancelling stream `id` (on either path) succeeds exactly
/// when the stream exists and is Active or Paused. The refund, when there is
/// one, always leaves the ledger for the stream's sender (never for whoever
/// authorised the cancellation) and equals the deposit less what has accrued
/// at `now`; there is no transfer exactly when nothing is left to refund.
pub proof fn law_ledger_cancel_refunds_sender(l: LedgerModel, id: u64, now: u64, as_admin: bool)
    requires
        l.wf(),
    ensures
        l.cancel_step(id, now, as_admin) is Ok <==> (id < l.streams.len() && (l.streams[id
            as int].status == StreamStatus::Active || l.streams[id as int].status
            == StreamStatus::Paused)),
        l.cancel_step(id, now, as_admin) matches Ok((l2, rc)) ==> {
            let s = l.streams[id as int];
            &&& l2.streams[id as int].status == StreamStatus::Cancelled
            &&& rc.event == Some(StreamEvent::Cancelled(id))
            &&& rc.authorizer == if as_admin {
                l.config.unwrap().admin
            } else {
                s.sender
            }
            &&& match rc.transfer {
                Some(TransferModel::OutOfLedger { to, amount }) => to == s.sender && amount
                    == s.deposit_amount - s.accrued_at(now) && amount > 0,
                Some(TransferModel::IntoLedger { .. }) => false,
                None => s.accrued_at(now) == s.deposit_amount,
            }
        },
{
    if id < l.streams.len() {
        law_cancel_outcome(l.streams[id as int], now, now);
    }
}

/// On the ledger, a withdrawal from stream `id` pays the stream's recipient,
/// on the recipient's authority, exactly the amount it returns.
pub proof fn law_ledger_withdraw_pays_recipient(l: LedgerModel, id: u64, now: u64)
    requires
        l.wf(),
    ensures
        l.withdraw_step(id, now) matches Ok((l2, amount, rc)) ==> {
            let s = l.streams[id as int];
            &&& id < l.streams.len()
            &&& amount > 0
            &&& amount == s.accrued_at(now) - s.withdrawn_amount
            &&& l2.streams[id as int].withdrawn_amount == s.accrued_at(now)
            &&& rc.authorizer == s.recipient
            &&& rc.transfer == Some(TransferModel::OutOfLedger { to: s.recipient, amount })
            &&& rc.event is None
        },
{
    if id < l.streams.len() {
        law_withdraw_outcome(l.streams[id as int], now);
    }
}

/// Creating a stream succeeds exactly when the ledger is configured and the
/// parameters are sound: positive deposit and rate, distinct parties, start
/// before end, cliff within [start, end], and a deposit covering
/// `rate * (end - start)`. The new stream records exactly the given terms,
/// starts Active with nothing withdrawn, and the sender authorises and pays
/// the whole deposit into the ledger.
pub proof fn law_ledger_create(
    l: LedgerModel,
    sender: Seq<u8>,
    recipient: Seq<u8>,
    deposit: i128,
    rate: i128,
    start: u64,
    cliff: u64,
    end: u64,
)
    requires
        l.wf(),
    ensures
        l.create_step(sender, recipient, deposit, rate, start, cliff, end) is Ok <==> {
            &&& l.config is Some
            &&& deposit > 0
            &&& rate > 0
            &&& sender != recipient
            &&& start < end
            &&& start <= cliff <= end
            &&& rate * (end - start) <= deposit
        },
        l.create_step(sender, recipient, deposit, rate, start, cliff, end) matches Ok((l2, id, rc)) ==> {
            let n = l2.streams[id as int];
            &&& id == l.streams.len()
            &&& n.stream_id == id
            &&& n.sender == sender
            &&& n.recipient == recipient
            &&& n.deposit_amount == deposit
            &&& n.rate_per_second == rate
            &&& n.start_time == start
            &&& n.cliff_time == cliff
            &&& n.end_time == end
            &&& n.withdrawn_amount == 0
            &&& n.status == StreamStatus::Active
            &&& n.cancelled_at is None
            &&& rc.authorizer == sender
            &&& rc.transfer == Some(TransferModel::IntoLedger { from: sender, amount: deposit })
        },
{
}
} // verus!
