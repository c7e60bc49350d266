use vstd::prelude::*;

use crate::audit::consistent_with;
use crate::key::{is_key, Pubkey};
use crate::model::{
    AuditEvent, Ledger, Policy, RecipientSpend, SpendKeys, REASON_INVALID_AMOUNT, REASON_OK,
    REASON_RECIPIENT_NOT_ALLOWED, VaultError,
};
use crate::policyvault::{bumped, reconfigured, spend_v2_result};
use crate::rules::{day_of, is_spender, policy_rolled};

verus! {

/// The arguments of one spend intent, with the recipient tracker and balances
/// that it meets.
pub struct SpendCall {
    pub tracker: Option<RecipientSpend>,
    pub ledger: Ledger,
    pub keys: SpendKeys,
    pub now: i64,
    pub amount: u64,
}

/// The policy and the audit records after `calls` run in order from `p`; a
/// call that fails hard leaves no trace.
pub open spec fn run(p: Policy, calls: Seq<SpendCall>) -> (Policy, Seq<AuditEvent>)
    decreases calls.len(),
{
    if calls.len() == 0 {
        (p, Seq::empty())
    } else {
        let (q, events) = run(p, calls.drop_last());
        let c = calls.last();
        match spend_v2_result(q, c.tracker, c.ledger, c.keys, c.now, c.amount) {
            Ok((q2, _t, _l, a)) => (q2, events.push(a)),
            Err(_e) => (q, events),
        }
    }
}

/// The accounts of a call belong together: the policy is the vault's, and a
/// tracker, if any, is the one of this policy and recipient.
pub open spec fn accounts_match(p: Policy, t: Option<RecipientSpend>, k: SpendKeys) -> bool {
    p.vault@ == k.vault@ && (t is Some ==> t->0.policy@ == k.policy@ && t->0.recipient@
        == k.recipient@)
}

/// Whether a spend outcome is completed and allowed.
pub open spec fn allowed_in(r: Result<(Policy, RecipientSpend, Ledger, AuditEvent), VaultError>) -> bool {
    match r {
        Ok((_p, _t, _l, a)) => a.allowed,
        Err(_e) => false,
    }
}

/// After any run of spend intents, the completed ones, allowed or denied, hold
/// the sequence numbers that follow the initial one with no gap and no repeat,
/// and the policy's next sequence has moved past them by exactly their number.
pub proof fn lemma_sequence_gapless(p: Policy, calls: Seq<SpendCall>)
    ensures
        run(p, calls).0.next_sequence == p.next_sequence + run(p, calls).1.len(),
        forall|i: int|
            0 <= i < run(p, calls).1.len() ==> #[trigger] run(p, calls).1[i].sequence
                == p.next_sequence + i,
    decreases calls.len(),
{
    if calls.len() > 0 {
        lemma_sequence_gapless(p, calls.drop_last());
    }
}

/// Appending the record of a completed spend intent to a log consistent with the
/// policy keeps it consistent with the updated policy: records stay ordered and
/// numbered before the next sequence.
pub proof fn lemma_append_keeps_log(
    events: Seq<AuditEvent>,
    p: Policy,
    t: Option<RecipientSpend>,
    l: Ledger,
    k: SpendKeys,
    now: i64,
    amount: u64,
)
    requires
        consistent_with(events, p),
        spend_v2_result(p, t, l, k, now, amount) is Ok,
    ensures
        ({
            let (p2, _t2, _l2, a) = spend_v2_result(p, t, l, k, now, amount)->Ok_0;
            consistent_with(events.push(a), p2)
        }),
{
}

/// An intent from a caller who is neither the authority nor the agent fails as
/// unauthorized; with no result the caller gets no audit record, and the spend
/// functions then leave every state unchanged.
pub proof fn lemma_unauthorized_fails(
    p: Policy,
    t: Option<RecipientSpend>,
    l: Ledger,
    k: SpendKeys,
    now: i64,
    amount: u64,
)
    requires
        accounts_match(p, t, k),
        !is_spender(p, k.caller),
    ensures
        spend_v2_result(p, t, l, k, now, amount) == Err::<
            (Policy, RecipientSpend, Ledger, AuditEvent),
            VaultError,
        >(VaultError::Unauthorized),
{
}

/// A zero amount is denied as invalid whatever else holds of the policy, the
/// pause included.
pub proof fn lemma_zero_amount_first(
    p: Policy,
    t: Option<RecipientSpend>,
    l: Ledger,
    k: SpendKeys,
    now: i64,
)
    requires
        accounts_match(p, t, k),
        is_spender(p, k.caller),
        p.next_sequence < u64::MAX,
    ensures
        spend_v2_result(p, t, l, k, now, 0) is Ok,
        ({
            let (_p2, _t2, _l2, a) = spend_v2_result(p, t, l, k, now, 0)->Ok_0;
            a.reason_code == REASON_INVALID_AMOUNT && !a.allowed
        }),
{
}

/// With the allowlist on and the policy not paused, a positive spend to any
/// recipient but the allowed one is denied as not allowed, whatever the budget
/// and cooldown state.
pub proof fn lemma_allowlist_precedes_limits(
    p: Policy,
    t: Option<RecipientSpend>,
    l: Ledger,
    k: SpendKeys,
    now: i64,
    amount: u64,
)
    requires
        accounts_match(p, t, k),
        is_spender(p, k.caller),
        p.next_sequence < u64::MAX,
        amount > 0,
        !p.paused,
        p.allowlist_enabled,
        !is_key(p.allowed_recipient, k.recipient),
    ensures
        spend_v2_result(p, t, l, k, now, amount) is Ok,
        ({
            let (_p2, _t2, _l2, a) = spend_v2_result(p, t, l, k, now, amount)->Ok_0;
            a.reason_code == REASON_RECIPIENT_NOT_ALLOWED && !a.allowed
        }),
{
}

/// A denied intent moves no funds and changes the policy only by its day
/// rollover and the next sequence.
pub proof fn lemma_denial_moves_nothing(
    p: Policy,
    t: Option<RecipientSpend>,
    l: Ledger,
    k: SpendKeys,
    now: i64,
    amount: u64,
)
    requires
        spend_v2_result(p, t, l, k, now, amount) is Ok,
        !allowed_in(spend_v2_result(p, t, l, k, now, amount)),
    ensures
        ({
            let (p2, t2, l2, a) = spend_v2_result(p, t, l, k, now, amount)->Ok_0;
            &&& l2 == l
            &&& p2 == Policy {
                next_sequence: (p.next_sequence + 1) as u64,
                ..policy_rolled(p, day_of(now) as i64)
            }
            &&& a.reason_code != REASON_OK
        }),
{
}

/// An allowed intent leaves the day's total within the daily budget and the
/// recipient's total within its cap, when one is set.
pub proof fn lemma_allowed_within_limits(
    p: Policy,
    t: Option<RecipientSpend>,
    l: Ledger,
    k: SpendKeys,
    now: i64,
    amount: u64,
)
    requires
        spend_v2_result(p, t, l, k, now, amount) is Ok,
        allowed_in(spend_v2_result(p, t, l, k, now, amount)),
    ensures
        ({
            let (p2, t2, l2, a) = spend_v2_result(p, t, l, k, now, amount)->Ok_0;
            &&& p2.spent_today_lamports <= p2.daily_budget_lamports
            &&& p2.per_recipient_daily_cap_lamports > 0 ==> t2.spent_today_lamports
                <= p2.per_recipient_daily_cap_lamports
            &&& p2.day_index == day_of(now)
            &&& t2.day_index == day_of(now)
            &&& l2.vault_lamports == l.vault_lamports - amount
            &&& l2.recipient_lamports == l.recipient_lamports + amount
        }),
{
}

/// An audit record carries the policy version in effect when the intent was
/// evaluated; a later change of the policy bumps the policy's version and
/// leaves the record's as it was.
pub proof fn lemma_audit_version_snapshot(
    p: Policy,
    t: Option<RecipientSpend>,
    l: Ledger,
    k: SpendKeys,
    now: i64,
    amount: u64,
    daily_budget_lamports: u64,
    cooldown_seconds: u32,
    agent: Option<Pubkey>,
    paused: bool,
    allowlist_enabled: bool,
    allowed_recipient: Option<Pubkey>,
    per_recipient_daily_cap_lamports: u64,
)
    requires
        spend_v2_result(p, t, l, k, now, amount) is Ok,
    ensures
        ({
            let (p2, _t2, _l2, a) = spend_v2_result(p, t, l, k, now, amount)->Ok_0;
            let p3 = reconfigured(
                p2,
                daily_budget_lamports,
                cooldown_seconds,
                agent,
                paused,
                allowlist_enabled,
                allowed_recipient,
                per_recipient_daily_cap_lamports,
            );
            &&& a.policy_version == p.policy_version
            &&& p2.policy_version == p.policy_version
            &&& p3.policy_version == bumped(p.policy_version)
            &&& p3.policy_version >= a.policy_version
        }),
{
}

} // verus!
