use vstd::prelude::*;

use crate::key::{is_key, matches_key, Pubkey};
use crate::model::{
    Policy, RecipientSpend, REASON_BUDGET_EXCEEDED, REASON_COOLDOWN, REASON_INVALID_AMOUNT, REASON_OK,
    REASON_PAUSED, REASON_RECIPIENT_CAP_EXCEEDED, REASON_RECIPIENT_NOT_ALLOWED, SECONDS_PER_DAY,
};

verus! {

/// The day window that a timestamp falls in: floor division by one day.
pub open spec fn day_of(now: i64) -> int {
    now as int / SECONDS_PER_DAY as int
}

/// Whether `caller` may submit spend intents under `p`.
pub open spec fn is_spender(p: Policy, caller: Pubkey) -> bool {
    caller@ == p.authority@ || is_key(p.agent, caller)
}

/// `p` with its day window moved to `day`, the day's total cleared if the day changed.
pub open spec fn policy_rolled(p: Policy, day: i64) -> Policy {
    if p.day_index != day {
        Policy { spent_today_lamports: 0, day_index: day, ..p }
    } else {
        p
    }
}

/// The tracker of `recipient` after its own rollover to `day`; a missing one starts empty.
pub open spec fn tracker_rolled(
    t: Option<RecipientSpend>,
    policy: Pubkey,
    recipient: Pubkey,
    day: i64,
) -> RecipientSpend {
    match t {
        None => RecipientSpend { policy, recipient, spent_today_lamports: 0, day_index: day },
        Some(t) => if t.day_index != day {
            RecipientSpend { spent_today_lamports: 0, day_index: day, ..t }
        } else {
            t
        },
    }
}

/// The reason code of a spend of `amount` to `recipient` at `now`, against a policy
/// and a recipient total already rolled to the current day; the first failing
/// rule decides.
pub open spec fn reason_of(
    p: Policy,
    recipient_spent: u64,
    now: i64,
    recipient: Pubkey,
    amount: u64,
) -> u16 {
    if amount == 0 {
        REASON_INVALID_AMOUNT
    } else if p.paused {
        REASON_PAUSED
    } else if p.allowlist_enabled && !is_key(p.allowed_recipient, recipient) {
        REASON_RECIPIENT_NOT_ALLOWED
    } else if p.spent_today_lamports + amount > p.daily_budget_lamports {
        REASON_BUDGET_EXCEEDED
    } else if p.last_spend_ts > 0 && now - p.last_spend_ts < p.cooldown_seconds {
        REASON_COOLDOWN
    } else if p.per_recipient_daily_cap_lamports > 0 && recipient_spent + amount
        > p.per_recipient_daily_cap_lamports {
        REASON_RECIPIENT_CAP_EXCEEDED
    } else {
        REASON_OK
    }
}

/// The day window of `now`; defined for every timestamp, negative ones included.
pub fn current_day(now: i64) -> (r: i64)
    ensures
        r == day_of(now),
{
    match now.checked_div_euclid(SECONDS_PER_DAY) {
        Some(d) => d,
        // The divisor is positive and the quotient is no larger than `now`.
        None => {
            assert(false);
            0
        },
    }
}

/// Executable form of `is_spender`.
pub fn may_spend(p: &Policy, caller: &Pubkey) -> (r: bool)
    ensures
        r == is_spender(*p, *caller),
{
    caller.same(&p.authority) || matches_key(&p.agent, caller)
}

/// Moves the policy's day window to `day`.
pub fn roll_policy(p: &mut Policy, day: i64)
    ensures
        *final(p) == policy_rolled(*old(p), day),
{
    if p.day_index != day {
        p.spent_today_lamports = 0;
        p.day_index = day;
    }
}

/// Brings a recipient tracker to `day`, creating it when missing.
pub fn roll_tracker(
    t: Option<RecipientSpend>,
    policy: Pubkey,
    recipient: Pubkey,
    day: i64,
) -> (r: RecipientSpend)
    ensures
        r == tracker_rolled(t, policy, recipient, day),
{
    match t {
        None => RecipientSpend { policy, recipient, spent_today_lamports: 0, day_index: day },
        Some(t) => if t.day_index != day {
            RecipientSpend { spent_today_lamports: 0, day_index: day, ..t }
        } else {
            t
        },
    }
}

/// Whether `a + b` exceeds `limit`; a sum past the range of `u64` exceeds every limit.
fn exceeds(a: u64, b: u64, limit: u64) -> (r: bool)
    ensures
        r == (a + b > limit),
{
    match a.checked_add(b) {
        Some(s) => s > limit,
        None => true,
    }
}

/// Evaluates the rule chain in its fixed order and returns the reason code.
pub fn decide(p: &Policy, recipient_spent: u64, now: i64, recipient: &Pubkey, amount: u64) -> (r:
    u16)
    ensures
        r == reason_of(*p, recipient_spent, now, *recipient, amount),
{
    if amount == 0 {
        REASON_INVALID_AMOUNT
    } else if p.paused {
        REASON_PAUSED
    } else if p.allowlist_enabled && !matches_key(&p.allowed_recipient, recipient) {
        REASON_RECIPIENT_NOT_ALLOWED
    } else if exceeds(p.spent_today_lamports, amount, p.daily_budget_lamports) {
        REASON_BUDGET_EXCEEDED
    } else if p.last_spend_ts > 0 && (now as i128) - (p.last_spend_ts as i128)
        < p.cooldown_seconds as i128 {
        REASON_COOLDOWN
    } else if p.per_recipient_daily_cap_lamports > 0 && exceeds(
        recipient_spent,
        amount,
        p.per_recipient_daily_cap_lamports,
    ) {
        REASON_RECIPIENT_CAP_EXCEEDED
    } else {
        REASON_OK
    }
}

} // verus!
