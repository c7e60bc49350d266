use vstd::prelude::*;

use crate::key::Pubkey;
use crate::model::{
    AuditEvent, Ledger, Policy, RecipientSpend, SpendKeys, Vault, VaultError, REASON_OK,
};
use crate::rules::{
    current_day, day_of, decide, is_spender, may_spend, policy_rolled, reason_of, roll_policy,
    roll_tracker, tracker_rolled,
};

verus! {

/// The policy version after one admin change: one more, held at the top of the range.
pub open spec fn bumped(v: u16) -> u16 {
    if v == u16::MAX {
        v
    } else {
        (v + 1) as u16
    }
}

/// A fresh policy for `vault`, created at `now` by `owner`.
pub open spec fn initial_policy(
    vault: Pubkey,
    owner: Pubkey,
    now: i64,
    daily_budget_lamports: u64,
    cooldown_seconds: u32,
    agent: Option<Pubkey>,
) -> Policy {
    Policy {
        vault,
        authority: owner,
        agent,
        daily_budget_lamports,
        spent_today_lamports: 0,
        day_index: day_of(now) as i64,
        cooldown_seconds,
        last_spend_ts: 0,
        next_sequence: 0,
        paused: false,
        allowlist_enabled: false,
        allowed_recipient: None,
        per_recipient_daily_cap_lamports: 0,
        policy_version: 1,
    }
}

/// `p` with all its parameters replaced and its version bumped; counters, day
/// window and sequence kept as they are.
pub open spec fn reconfigured(
    p: Policy,
    daily_budget_lamports: u64,
    cooldown_seconds: u32,
    agent: Option<Pubkey>,
    paused: bool,
    allowlist_enabled: bool,
    allowed_recipient: Option<Pubkey>,
    per_recipient_daily_cap_lamports: u64,
) -> Policy {
    Policy {
        daily_budget_lamports,
        cooldown_seconds,
        agent,
        paused,
        allowlist_enabled,
        allowed_recipient,
        per_recipient_daily_cap_lamports,
        policy_version: bumped(p.policy_version),
        ..p
    }
}

/// The custody transfer of `amount` from the vault to the recipient; it fails whole,
/// moving nothing, where the vault cannot cover it or the recipient's balance would overflow.
pub open spec fn transferred(l: Ledger, amount: u64) -> Result<Ledger, VaultError> {
    if l.vault_lamports < amount {
        Err(VaultError::InsufficientFunds)
    } else if l.recipient_lamports + amount > u64::MAX {
        Err(VaultError::ArithmeticOverflow)
    } else {
        Ok(
            Ledger {
                vault_lamports: (l.vault_lamports - amount) as u64,
                recipient_lamports: (l.recipient_lamports + amount) as u64,
            },
        )
    }
}

/// One evaluation by an authorized caller, against the recipient's day total
/// `recipient_spent` (already rolled to the current day): the updated policy,
/// the ledger after the transfer, and the audit record.
pub open spec fn evaluation(
    p: Policy,
    recipient_spent: u64,
    l: Ledger,
    k: SpendKeys,
    now: i64,
    amount: u64,
) -> Result<(Policy, Ledger, AuditEvent), VaultError> {
    let p1 = policy_rolled(p, day_of(now) as i64);
    let reason = reason_of(p1, recipient_spent, now, k.recipient, amount);
    let audit = AuditEvent {
        policy: k.policy,
        sequence: p.next_sequence,
        ts: now,
        recipient: k.recipient,
        amount,
        allowed: reason == REASON_OK,
        reason_code: reason,
        policy_version: p.policy_version,
    };
    if p.next_sequence == u64::MAX {
        Err(VaultError::ArithmeticOverflow)
    } else if reason != REASON_OK {
        Ok((Policy { next_sequence: (p.next_sequence + 1) as u64, ..p1 }, l, audit))
    } else {
        match transferred(l, amount) {
            Err(e) => Err(e),
            Ok(l2) => Ok(
                (
                    Policy {
                        next_sequence: (p.next_sequence + 1) as u64,
                        spent_today_lamports: (p1.spent_today_lamports + amount) as u64,
                        last_spend_ts: now,
                        ..p1
                    },
                    l2,
                    audit,
                ),
            ),
        }
    }
}

/// The outcome of a spend intent with no recipient tracker.
pub open spec fn spend_result(p: Policy, l: Ledger, k: SpendKeys, now: i64, amount: u64) -> Result<
    (Policy, Ledger, AuditEvent),
    VaultError,
> {
    if p.vault@ != k.vault@ {
        Err(VaultError::AccountMismatch)
    } else if !is_spender(p, k.caller) {
        Err(VaultError::Unauthorized)
    } else {
        evaluation(p, 0, l, k, now, amount)
    }
}

/// The outcome of a spend intent that also tracks, and caps, the recipient's day total.
pub open spec fn spend_v2_result(
    p: Policy,
    t: Option<RecipientSpend>,
    l: Ledger,
    k: SpendKeys,
    now: i64,
    amount: u64,
) -> Result<(Policy, RecipientSpend, Ledger, AuditEvent), VaultError> {
    let t1 = tracker_rolled(t, k.policy, k.recipient, day_of(now) as i64);
    if p.vault@ != k.vault@ || (t is Some && (t->0.policy@ != k.policy@ || t->0.recipient@
        != k.recipient@)) {
        Err(VaultError::AccountMismatch)
    } else if !is_spender(p, k.caller) {
        Err(VaultError::Unauthorized)
    } else {
        match evaluation(p, t1.spent_today_lamports, l, k, now, amount) {
            Err(e) => Err(e),
            Ok((p2, l2, audit)) => if !audit.allowed {
                Ok((p2, t1, l2, audit))
            } else if t1.spent_today_lamports + amount > u64::MAX {
                Err(VaultError::ArithmeticOverflow)
            } else {
                Ok(
                    (
                        p2,
                        RecipientSpend {
                            spent_today_lamports: (t1.spent_today_lamports + amount) as u64,
                            ..t1
                        },
                        l2,
                        audit,
                    ),
                )
            },
        }
    }
}

/// Moves `amount` from the vault to the recipient, or nothing at all.
pub fn debit_credit(l: &Ledger, amount: u64) -> (r: Result<Ledger, VaultError>)
    ensures
        r == transferred(*l, amount),
{
    if l.vault_lamports < amount {
        return Err(VaultError::InsufficientFunds);
    }
    match l.recipient_lamports.checked_add(amount) {
        None => Err(VaultError::ArithmeticOverflow),
        Some(to) => Ok(Ledger { vault_lamports: l.vault_lamports - amount, recipient_lamports: to }),
    }
}

/// Runs the rule chain for an authorized caller and computes every updated value,
/// changing nothing.
fn evaluate(p: &Policy, recipient_spent: u64, l: &Ledger, k: &SpendKeys, now: i64, amount: u64) -> (r:
    Result<(Policy, Ledger, AuditEvent), VaultError>)
    ensures
        r == evaluation(*p, recipient_spent, *l, *k, now, amount),
{
    let mut p1 = *p;
    roll_policy(&mut p1, current_day(now));
    let reason = decide(&p1, recipient_spent, now, &k.recipient, amount);
    let audit = AuditEvent {
        policy: k.policy,
        sequence: p.next_sequence,
        ts: now,
        recipient: k.recipient,
        amount,
        allowed: reason == REASON_OK,
        reason_code: reason,
        policy_version: p.policy_version,
    };
    if p.next_sequence == u64::MAX {
        return Err(VaultError::ArithmeticOverflow);
    }
    p1.next_sequence = p.next_sequence + 1;
    if reason != REASON_OK {
        return Ok((p1, *l, audit));
    }
    match debit_credit(l, amount) {
        Err(e) => Err(e),
        Ok(l2) => {
            p1.spent_today_lamports = p1.spent_today_lamports + amount;
            p1.last_spend_ts = now;
            Ok((p1, l2, audit))
        },
    }
}

/// Records a spend intent of `amount` from `keys.caller` to `keys.recipient` at `now`.
///
/// The caller must be the authority or the agent, and the policy must belong to
/// `keys.vault`; otherwise nothing changes. A completed intent, allowed or
/// denied, returns its audit record with the next sequence number. An allowed
/// one also adds to the day's total, restarts the cooldown and moves the funds;
/// if the transfer fails nothing changes. There is no recipient tracker here: the
/// per-recipient cap is held against this amount alone.
pub fn spend_intent(
    policy: &mut Policy,
    ledger: &mut Ledger,
    keys: &SpendKeys,
    now: i64,
    amount: u64,
) -> (r: Result<AuditEvent, VaultError>)
    ensures
        match spend_result(*old(policy), *old(ledger), *keys, now, amount) {
            Ok((p, l, a)) => r == Ok::<AuditEvent, VaultError>(a) && *final(policy) == p
                && *final(ledger) == l,
            Err(e) => r == Err::<AuditEvent, VaultError>(e) && *final(policy) == *old(policy)
                && *final(ledger) == *old(ledger),
        },
{
    if !policy.vault.same(&keys.vault) {
        return Err(VaultError::AccountMismatch);
    }
    if !may_spend(policy, &keys.caller) {
        return Err(VaultError::Unauthorized);
    }
    match evaluate(policy, 0, ledger, keys, now, amount) {
        Err(e) => Err(e),
        Ok((p, l, audit)) => {
            *policy = p;
            *ledger = l;
            Ok(audit)
        },
    }
}

/// Records a spend intent as `spend_intent` does, and also keeps the recipient's
/// own day total in `recipient_spend`, created here when missing and rolled to
/// the current day on its own.
///
/// A completed intent, allowed or denied, leaves the tracker created and rolled;
/// an allowed one adds the amount to it. A tracker of another policy or
/// recipient is refused.
pub fn spend_intent_v2(
    policy: &mut Policy,
    recipient_spend: &mut Option<RecipientSpend>,
    ledger: &mut Ledger,
    keys: &SpendKeys,
    now: i64,
    amount: u64,
) -> (r: Result<AuditEvent, VaultError>)
    ensures
        match spend_v2_result(*old(policy), *old(recipient_spend), *old(ledger), *keys, now, amount) {
            Ok((p, t, l, a)) => r == Ok::<AuditEvent, VaultError>(a) && *final(policy) == p
                && *final(recipient_spend) == Some(t) && *final(ledger) == l,
            Err(e) => r == Err::<AuditEvent, VaultError>(e) && *final(policy) == *old(policy)
                && *final(recipient_spend) == *old(recipient_spend) && *final(ledger) == *old(
                ledger,
            ),
        },
{
    if !policy.vault.same(&keys.vault) {
        return Err(VaultError::AccountMismatch);
    }
    match recipient_spend {
        Some(t) => {
            if !t.policy.same(&keys.policy) || !t.recipient.same(&keys.recipient) {
                return Err(VaultError::AccountMismatch);
            }
        },
        None => {},
    }
    if !may_spend(policy, &keys.caller) {
        return Err(VaultError::Unauthorized);
    }
    let t1 = roll_tracker(*recipient_spend, keys.policy, keys.recipient, current_day(now));
    match evaluate(policy, t1.spent_today_lamports, ledger, keys, now, amount) {
        Err(e) => Err(e),
        Ok((p, l, audit)) => {
            if !audit.allowed {
                *policy = p;
                *recipient_spend = Some(t1);
                *ledger = l;
                return Ok(audit);
            }
            match t1.spent_today_lamports.checked_add(amount) {
                None => Err(VaultError::ArithmeticOverflow),
                Some(spent) => {
                    *policy = p;
                    *recipient_spend = Some(RecipientSpend { spent_today_lamports: spent, ..t1 });
                    *ledger = l;
                    Ok(audit)
                },
            }
        },
    }
}

/// Creates the vault of `owner`.
pub fn initialize_vault(owner: Pubkey) -> (r: Vault)
    ensures
        r.owner == owner,
{
    Vault { owner }
}

/// Creates the policy of the vault at `vault_key`, with `owner` as its authority.
///
/// Only the vault's owner may do so. The day window starts at the day of `now`,
/// every counter at zero, the advanced switches off and the version at one.
pub fn initialize_policy(
    vault_key: Pubkey,
    vault: &Vault,
    owner: Pubkey,
    now: i64,
    daily_budget_lamports: u64,
    cooldown_seconds: u32,
    agent: Option<Pubkey>,
) -> (r: Result<Policy, VaultError>)
    ensures
        vault.owner@ != owner@ ==> r == Err::<Policy, VaultError>(VaultError::Unauthorized),
        vault.owner@ == owner@ ==> r == Ok::<Policy, VaultError>(
            initial_policy(vault_key, owner, now, daily_budget_lamports, cooldown_seconds, agent),
        ),
{
    if !vault.owner.same(&owner) {
        return Err(VaultError::Unauthorized);
    }
    Ok(
        Policy {
            vault: vault_key,
            authority: owner,
            agent,
            daily_budget_lamports,
            spent_today_lamports: 0,
            day_index: current_day(now),
            cooldown_seconds,
            last_spend_ts: 0,
            next_sequence: 0,
            paused: false,
            allowlist_enabled: false,
            allowed_recipient: None,
            per_recipient_daily_cap_lamports: 0,
            policy_version: 1,
        },
    )
}

/// Replaces the budget, cooldown and agent of `policy` and bumps its version.
///
/// Only the authority may do so. The day's total and day window are kept: a
/// lowered budget only constrains later spends.
pub fn set_policy(
    policy: &mut Policy,
    authority: &Pubkey,
    daily_budget_lamports: u64,
    cooldown_seconds: u32,
    agent: Option<Pubkey>,
) -> (r: Result<(), VaultError>)
    ensures
        authority@ != old(policy).authority@ ==> r == Err::<(), VaultError>(
            VaultError::Unauthorized,
        ) && *final(policy) == *old(policy),
        authority@ == old(policy).authority@ ==> r == Ok::<(), VaultError>(()) && *final(policy)
            == reconfigured(
            *old(policy),
            daily_budget_lamports,
            cooldown_seconds,
            agent,
            old(policy).paused,
            old(policy).allowlist_enabled,
            old(policy).allowed_recipient,
            old(policy).per_recipient_daily_cap_lamports,
        ),
{
    if !authority.same(&policy.authority) {
        return Err(VaultError::Unauthorized);
    }
    policy.daily_budget_lamports = daily_budget_lamports;
    policy.cooldown_seconds = cooldown_seconds;
    policy.agent = agent;
    policy.policy_version = policy.policy_version.saturating_add(1);
    Ok(())
}

/// Replaces every parameter of `policy`, the pause, allowlist and
/// per-recipient cap included, and bumps its version.
///
/// Only the authority may do so. The day's total and day window are kept.
pub fn set_policy_advanced(
    policy: &mut Policy,
    authority: &Pubkey,
    daily_budget_lamports: u64,
    cooldown_seconds: u32,
    agent: Option<Pubkey>,
    paused: bool,
    allowlist_enabled: bool,
    allowed_recipient: Option<Pubkey>,
    per_recipient_daily_cap_lamports: u64,
) -> (r: Result<(), VaultError>)
    ensures
        authority@ != old(policy).authority@ ==> r == Err::<(), VaultError>(
            VaultError::Unauthorized,
        ) && *final(policy) == *old(policy),
        authority@ == old(policy).authority@ ==> r == Ok::<(), VaultError>(()) && *final(policy)
            == reconfigured(
            *old(policy),
            daily_budget_lamports,
            cooldown_seconds,
            agent,
            paused,
            allowlist_enabled,
            allowed_recipient,
            per_recipient_daily_cap_lamports,
        ),
{
    if !authority.same(&policy.authority) {
        return Err(VaultError::Unauthorized);
    }
    policy.daily_budget_lamports = daily_budget_lamports;
    policy.cooldown_seconds = cooldown_seconds;
    policy.agent = agent;
    policy.paused = paused;
    policy.allowlist_enabled = allowlist_enabled;
    policy.allowed_recipient = allowed_recipient;
    policy.per_recipient_daily_cap_lamports = per_recipient_daily_cap_lamports;
    policy.policy_version = policy.policy_version.saturating_add(1);
    Ok(())
}

/// Allows the storage of an audit record of the policy at `policy_key` to be
/// reclaimed. Only the authority may do so; the record must belong to the
/// policy. The policy, and so its sequence numbering, is left as it is.
pub fn close_audit_event(
    policy_key: &Pubkey,
    policy: &Policy,
    audit_event: &AuditEvent,
    authority: &Pubkey,
) -> (r: Result<(), VaultError>)
    ensures
        audit_event.policy@ != policy_key@ ==> r == Err::<(), VaultError>(
            VaultError::AccountMismatch,
        ),
        audit_event.policy@ == policy_key@ && authority@ != policy.authority@ ==> r == Err::<
            (),
            VaultError,
        >(VaultError::Unauthorized),
        audit_event.policy@ == policy_key@ && authority@ == policy.authority@ ==> r == Ok::<
            (),
            VaultError,
        >(()),
{
    if !audit_event.policy.same(policy_key) {
        return Err(VaultError::AccountMismatch);
    }
    if !authority.same(&policy.authority) {
        return Err(VaultError::Unauthorized);
    }
    Ok(())
}

/// Allows the storage of the tracker of `recipient` under the policy at
/// `policy_key` to be reclaimed. Only the authority may do so; the tracker must
/// belong to that policy and recipient.
pub fn close_recipient_spend(
    policy_key: &Pubkey,
    policy: &Policy,
    recipient_spend: &RecipientSpend,
    recipient: &Pubkey,
    authority: &Pubkey,
) -> (r: Result<(), VaultError>)
    ensures
        recipient_spend.policy@ != policy_key@ || recipient_spend.recipient@ != recipient@ ==> r
            == Err::<(), VaultError>(VaultError::AccountMismatch),
        recipient_spend.policy@ == policy_key@ && recipient_spend.recipient@ == recipient@
            && authority@ != policy.authority@ ==> r == Err::<(), VaultError>(
            VaultError::Unauthorized,
        ),
        recipient_spend.policy@ == policy_key@ && recipient_spend.recipient@ == recipient@
            && authority@ == policy.authority@ ==> r == Ok::<(), VaultError>(()),
{
    if !recipient_spend.policy.same(policy_key) || !recipient_spend.recipient.same(recipient) {
        return Err(VaultError::AccountMismatch);
    }
    if !authority.same(&policy.authority) {
        return Err(VaultError::Unauthorized);
    }
    Ok(())
}

} // verus!
