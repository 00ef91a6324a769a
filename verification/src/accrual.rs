use vstd::prelude::*;

verus! {

/// What has accrued to the recipient at time `now`.
///
/// Nothing accrues before the cliff. From the cliff on, the elapsed time is
/// counted from `start` (not from the cliff) and stops at `end`; the amount is
/// `elapsed * rate`, capped at the deposit (also when the product does not fit
/// in an `i128`), and never negative.
pub open spec fn accrued_amount(deposit: int, rate: int, start: int, cliff: int, end: int, now: int) -> int {
    if now < cliff {
        0
    } else {
        let upto = if now < end { now } else { end };
        if upto < start {
            0
        } else {
            let product = (upto - start) * rate;
            let capped = if i128::MIN <= product <= i128::MAX && product < deposit {
                product
            } else {
                deposit
            };
            if capped < 0 { 0 } else { capped }
        }
    }
}

/// Parameters that a stream accepted at creation always has.
pub open spec fn valid_schedule(deposit: int, rate: int, start: int, cliff: int, end: int) -> bool {
    &&& 0 < deposit <= i128::MAX
    &&& 0 < rate
    &&& start < end
    &&& start <= cliff <= end
    &&& rate * (end - start) <= deposit
}

/// The latest time that counts towards accrual: `now`, but not past `end`.
pub open spec fn accrual_horizon(end: int, now: int) -> int {
    if now < end { now } else { end }
}

/// Computes [`accrued_amount`] without overflow on any input.
pub fn calculate_accrued_amount(deposit: i128, rate: i128, start: u64, cliff: u64, end: u64, now: u64) -> (r: i128)
    ensures
        r == accrued_amount(deposit as int, rate as int, start as int, cliff as int, end as int, now as int),
{
    if now < cliff {
        return 0;
    }
    let upto: u64 = if now < end { now } else { end };
    if upto < start {
        return 0;
    }
    let elapsed: i128 = (upto - start) as i128;
    let capped: i128 = match elapsed.checked_mul(rate) {
        Some(product) => if product < deposit { product } else { deposit },
        None => deposit,
    };
    if capped < 0 { 0 } else { capped }
}

/// On a valid schedule nothing is capped: before the cliff nothing has
/// accrued, and from the cliff on exactly `rate` per elapsed second since
/// `start`, which never exceeds `rate * (end - start)` nor the deposit.
pub proof fn lemma_accrued_on_valid_schedule(deposit: int, rate: int, start: int, cliff: int, end: int, now: int)
    requires
        valid_schedule(deposit, rate, start, cliff, end),
    ensures
        accrued_amount(deposit, rate, start, cliff, end, now) == if now < cliff {
            0
        } else {
            rate * (accrual_horizon(end, now) - start)
        },
        0 <= accrued_amount(deposit, rate, start, cliff, end, now) <= rate * (end - start),
        rate * (end - start) <= deposit,
{
    if now >= cliff {
        let upto = accrual_horizon(end, now);
        let elapsed = upto - start;
        let full = end - start;
        assert(0 <= elapsed <= full);
        assert(0 <= elapsed * rate <= full * rate) by (nonlinear_arith)
            requires
                0 <= elapsed <= full,
                0 < rate,
        ;
        assert(elapsed * rate == rate * elapsed) by (nonlinear_arith);
        assert(full * rate == rate * full) by (nonlinear_arith);
    }
}

/// On a valid schedule, accrual never decreases as time goes on.
pub proof fn lemma_accrued_monotone(deposit: int, rate: int, start: int, cliff: int, end: int, t1: int, t2: int)
    requires
        valid_schedule(deposit, rate, start, cliff, end),
        t1 <= t2,
    ensures
        accrued_amount(deposit, rate, start, cliff, end, t1) <= accrued_amount(deposit, rate, start, cliff, end, t2),
{
    lemma_accrued_on_valid_schedule(deposit, rate, start, cliff, end, t1);
    lemma_accrued_on_valid_schedule(deposit, rate, start, cliff, end, t2);
    if t1 >= cliff {
        let e1 = accrual_horizon(end, t1) - start;
        let e2 = accrual_horizon(end, t2) - start;
        assert(0 <= e1 <= e2);
        assert(rate * e1 <= rate * e2) by (nonlinear_arith)
            requires
                0 <= e1 <= e2,
                0 < rate,
        ;
    }
}

} // verus!
