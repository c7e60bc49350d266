use policyvault::audit::AuditLog;
use policyvault::key::Pubkey;
use policyvault::model::{
    AuditEvent, Ledger, Policy, RecipientSpend, SpendKeys, VaultError, REASON_BUDGET_EXCEEDED,
    REASON_COOLDOWN, REASON_INVALID_AMOUNT, REASON_OK, REASON_PAUSED,
    REASON_RECIPIENT_CAP_EXCEEDED, REASON_RECIPIENT_NOT_ALLOWED,
};
use policyvault::policyvault::{
    close_audit_event, close_recipient_spend, debit_credit, initialize_policy, initialize_vault,
    set_policy, set_policy_advanced, spend_intent, spend_intent_v2,
};
use policyvault::rules::{current_day, decide};

const DAY: i64 = 86_400;

fn key(n: u8) -> Pubkey {
    Pubkey::new([n; 32])
}

fn owner() -> Pubkey {
    key(1)
}

fn vault_key() -> Pubkey {
    key(2)
}

fn policy_key() -> Pubkey {
    key(3)
}

fn agent() -> Pubkey {
    key(4)
}

fn r1() -> Pubkey {
    key(10)
}

fn r2() -> Pubkey {
    key(11)
}

fn make_policy(now: i64, budget: u64, cooldown: u32) -> Policy {
    let vault = initialize_vault(owner());
    initialize_policy(vault_key(), &vault, owner(), now, budget, cooldown, Some(agent())).unwrap()
}

fn keys(caller: Pubkey, recipient: Pubkey) -> SpendKeys {
    SpendKeys { vault: vault_key(), policy: policy_key(), recipient, caller }
}

fn rich() -> Ledger {
    Ledger { vault_lamports: 1_000_000, recipient_lamports: 0 }
}

fn spend(
    p: &mut Policy,
    t: &mut Option<RecipientSpend>,
    l: &mut Ledger,
    caller: Pubkey,
    recipient: Pubkey,
    now: i64,
    amount: u64,
) -> Result<AuditEvent, VaultError> {
    spend_intent_v2(p, t, l, &keys(caller, recipient), now, amount)
}

#[test]
fn initialize_policy_sets_defaults() {
    let p = make_policy(3 * DAY + 5, 150, 60);
    assert_eq!(p.day_index, 3);
    assert_eq!(p.spent_today_lamports, 0);
    assert_eq!(p.next_sequence, 0);
    assert_eq!(p.last_spend_ts, 0);
    assert_eq!(p.policy_version, 1);
    assert!(!p.paused);
    assert!(!p.allowlist_enabled);
    assert!(p.allowed_recipient.is_none());
    assert_eq!(p.per_recipient_daily_cap_lamports, 0);
    assert!(p.authority.same(&owner()));
    assert!(p.vault.same(&vault_key()));
}

#[test]
fn initialize_policy_rejects_non_owner() {
    let vault = initialize_vault(owner());
    let r = initialize_policy(vault_key(), &vault, key(9), 0, 10, 0, None);
    assert_eq!(r.unwrap_err(), VaultError::Unauthorized);
}

#[test]
fn sequence_advances_once_per_completed_intent() {
    let mut p = make_policy(0, 100, 0);
    let mut t = None;
    let mut l = rich();
    let amounts = [10u64, 0, 500, 20, 0];
    for (i, a) in amounts.iter().enumerate() {
        let e = spend(&mut p, &mut t, &mut l, owner(), r1(), 10 + i as i64, *a).unwrap();
        assert_eq!(e.sequence, i as u64);
    }
    assert_eq!(p.next_sequence, 5);
    // a hard failure takes no number
    assert!(spend(&mut p, &mut t, &mut l, key(9), r1(), 20, 5).is_err());
    assert_eq!(p.next_sequence, 5);
    let e = spend(&mut p, &mut t, &mut l, agent(), r1(), 21, 5).unwrap();
    assert_eq!(e.sequence, 5);
}

#[test]
fn day_rollover_resets_counter() {
    let d = 100 * DAY;
    let mut p = make_policy(d, 150, 0);
    let mut t = None;
    let mut l = rich();
    let e = spend(&mut p, &mut t, &mut l, owner(), r1(), d + 10, 100).unwrap();
    assert!(e.allowed);
    assert_eq!(e.reason_code, REASON_OK);
    let e = spend(&mut p, &mut t, &mut l, owner(), r1(), d + DAY + 10, 100).unwrap();
    assert!(e.allowed);
    assert_eq!(p.spent_today_lamports, 100);
    assert_eq!(p.day_index, 101);
    assert_eq!(t.unwrap().day_index, 101);
}

#[test]
fn budget_boundary() {
    let mut p = make_policy(0, 100, 0);
    let mut t = None;
    let mut l = rich();
    let e = spend(&mut p, &mut t, &mut l, owner(), r1(), 1, 60).unwrap();
    assert!(e.allowed);
    assert_eq!(p.spent_today_lamports, 60);
    let e = spend(&mut p, &mut t, &mut l, owner(), r1(), 2, 41).unwrap();
    assert!(!e.allowed);
    assert_eq!(e.reason_code, REASON_BUDGET_EXCEEDED);
    assert_eq!(p.spent_today_lamports, 60);
    let e = spend(&mut p, &mut t, &mut l, owner(), r1(), 3, 40).unwrap();
    assert!(e.allowed);
    assert_eq!(p.spent_today_lamports, 100);
}

#[test]
fn budget_overflow_counts_as_exceeded() {
    let mut p = make_policy(0, u64::MAX, 0);
    let mut t = None;
    let mut l = Ledger { vault_lamports: u64::MAX, recipient_lamports: 0 };
    let e = spend(&mut p, &mut t, &mut l, owner(), r1(), 1, u64::MAX - 1).unwrap();
    assert!(e.allowed);
    let mut t2 = None;
    let e = spend(&mut p, &mut t2, &mut l, owner(), r2(), 2, 2).unwrap();
    assert_eq!(e.reason_code, REASON_BUDGET_EXCEEDED);
}

#[test]
fn cooldown_ignores_spend_at_time_zero() {
    let mut p = make_policy(0, 1000, 60);
    let mut t = None;
    let mut l = rich();
    // a first spend at t = 0 leaves no recorded spend time to cool down from
    let e = spend(&mut p, &mut t, &mut l, owner(), r1(), 0, 10).unwrap();
    assert!(e.allowed);
    let e = spend(&mut p, &mut t, &mut l, owner(), r1(), 59, 10).unwrap();
    assert!(e.allowed);
    let e = spend(&mut p, &mut t, &mut l, owner(), r1(), 59 + 59, 10).unwrap();
    assert_eq!(e.reason_code, REASON_COOLDOWN);
    let e = spend(&mut p, &mut t, &mut l, owner(), r1(), 59 + 60, 10).unwrap();
    assert!(e.allowed);
}

#[test]
fn cooldown_from_first_recorded_spend() {
    let t0 = 1_000;
    let mut p = make_policy(t0, 1000, 60);
    let mut t = None;
    let mut l = rich();
    assert!(spend(&mut p, &mut t, &mut l, owner(), r1(), t0, 10).unwrap().allowed);
    let e = spend(&mut p, &mut t, &mut l, owner(), r1(), t0 + 59, 10).unwrap();
    assert!(!e.allowed);
    assert_eq!(e.reason_code, REASON_COOLDOWN);
    assert!(spend(&mut p, &mut t, &mut l, owner(), r1(), t0 + 60, 10).unwrap().allowed);
}

fn advanced(p: &mut Policy, paused: bool, allow: bool, allowed: Option<Pubkey>, cap: u64) {
    let budget = p.daily_budget_lamports;
    let cooldown = p.cooldown_seconds;
    let agent = p.agent;
    set_policy_advanced(p, &owner(), budget, cooldown, agent, paused, allow, allowed, cap).unwrap();
}

#[test]
fn allowlist_precedence() {
    let mut p = make_policy(0, 10, 600);
    advanced(&mut p, false, true, Some(r1()), 0);
    let mut t = None;
    let mut l = rich();
    assert!(spend(&mut p, &mut t, &mut l, owner(), r1(), 1000, 10).unwrap().allowed);
    // budget spent and cooldown running: the allowlist still decides
    let mut t2 = None;
    let e = spend(&mut p, &mut t2, &mut l, owner(), r2(), 1001, 50).unwrap();
    assert_eq!(e.reason_code, REASON_RECIPIENT_NOT_ALLOWED);
    assert!(!e.allowed);
}

#[test]
fn allowlist_without_recipient_denies_all() {
    let mut p = make_policy(0, 100, 0);
    advanced(&mut p, false, true, None, 0);
    let mut t = None;
    let mut l = rich();
    let e = spend(&mut p, &mut t, &mut l, owner(), r1(), 5, 1).unwrap();
    assert_eq!(e.reason_code, REASON_RECIPIENT_NOT_ALLOWED);
}

#[test]
fn zero_amount_wins_over_pause() {
    let mut p = make_policy(0, 100, 0);
    advanced(&mut p, true, false, None, 0);
    let mut t = None;
    let mut l = rich();
    let e = spend(&mut p, &mut t, &mut l, owner(), r1(), 5, 0).unwrap();
    assert_eq!(e.reason_code, REASON_INVALID_AMOUNT);
    let e = spend(&mut p, &mut t, &mut l, owner(), r1(), 6, 1).unwrap();
    assert_eq!(e.reason_code, REASON_PAUSED);
}

#[test]
fn recipient_cap() {
    let mut p = make_policy(0, 1000, 0);
    advanced(&mut p, false, false, None, 50);
    let mut t = None;
    let mut l = rich();
    assert!(spend(&mut p, &mut t, &mut l, owner(), r1(), 5, 30).unwrap().allowed);
    let e = spend(&mut p, &mut t, &mut l, owner(), r1(), 6, 21).unwrap();
    assert_eq!(e.reason_code, REASON_RECIPIENT_CAP_EXCEEDED);
    assert_eq!(t.unwrap().spent_today_lamports, 30);
    let mut t2 = None;
    assert!(spend(&mut p, &mut t2, &mut l, owner(), r2(), 7, 21).unwrap().allowed);
    assert_eq!(t2.unwrap().spent_today_lamports, 21);
    assert_eq!(p.spent_today_lamports, 51);
}

#[test]
fn unauthorized_changes_nothing() {
    let mut p = make_policy(0, 100, 0);
    let before = p;
    let mut t = None;
    let mut l = rich();
    let mut log = AuditLog::new();
    let r = spend(&mut p, &mut t, &mut l, key(9), r1(), 5, 10);
    assert_eq!(r.unwrap_err(), VaultError::Unauthorized);
    if let Ok(e) = r {
        log.append(e);
    }
    assert_eq!(log.events.len(), 0);
    assert_eq!(p.next_sequence, before.next_sequence);
    assert_eq!(p.spent_today_lamports, before.spent_today_lamports);
    assert!(t.is_none());
    assert_eq!(l.vault_lamports, 1_000_000);
}

#[test]
fn agent_may_spend_and_loses_right_when_removed() {
    let mut p = make_policy(0, 100, 0);
    let mut t = None;
    let mut l = rich();
    assert!(spend(&mut p, &mut t, &mut l, agent(), r1(), 5, 10).unwrap().allowed);
    set_policy(&mut p, &owner(), 100, 0, None).unwrap();
    let r = spend(&mut p, &mut t, &mut l, agent(), r1(), 6, 10);
    assert_eq!(r.unwrap_err(), VaultError::Unauthorized);
}

#[test]
fn audit_keeps_version_after_update() {
    let mut p = make_policy(0, 100, 0);
    let mut t = None;
    let mut l = rich();
    let mut log = AuditLog::new();
    let e = spend(&mut p, &mut t, &mut l, owner(), r1(), 5, 10).unwrap();
    log.append(e);
    assert_eq!(e.policy_version, 1);
    set_policy(&mut p, &owner(), 10, 5, None).unwrap();
    assert_eq!(p.policy_version, 2);
    assert_eq!(log.get(0).unwrap().policy_version, 1);
    let e = spend(&mut p, &mut t, &mut l, owner(), r1(), 100, 1).unwrap();
    assert_eq!(e.policy_version, 2);
}

#[test]
fn set_policy_keeps_counters_and_checks_authority() {
    let mut p = make_policy(0, 100, 0);
    let mut t = None;
    let mut l = rich();
    assert!(spend(&mut p, &mut t, &mut l, owner(), r1(), 5, 80).unwrap().allowed);
    assert_eq!(set_policy(&mut p, &agent(), 10, 0, None).unwrap_err(), VaultError::Unauthorized);
    assert_eq!(p.policy_version, 1);
    set_policy(&mut p, &owner(), 50, 7, Some(agent())).unwrap();
    assert_eq!(p.spent_today_lamports, 80);
    assert_eq!(p.daily_budget_lamports, 50);
    assert_eq!(p.cooldown_seconds, 7);
    assert_eq!(p.policy_version, 2);
    let e = spend(&mut p, &mut t, &mut l, owner(), r1(), 100, 1).unwrap();
    assert_eq!(e.reason_code, REASON_BUDGET_EXCEEDED);
}

#[test]
fn version_saturates() {
    let mut p = make_policy(0, 100, 0);
    p.policy_version = u16::MAX;
    set_policy(&mut p, &owner(), 1, 1, None).unwrap();
    assert_eq!(p.policy_version, u16::MAX);
}

#[test]
fn insufficient_funds_rolls_back() {
    let mut p = make_policy(0, 100, 0);
    let before = p;
    let mut t = None;
    let mut l = Ledger { vault_lamports: 5, recipient_lamports: 7 };
    let r = spend(&mut p, &mut t, &mut l, owner(), r1(), 5, 10);
    assert_eq!(r.unwrap_err(), VaultError::InsufficientFunds);
    assert_eq!(p.next_sequence, before.next_sequence);
    assert_eq!(p.spent_today_lamports, 0);
    assert!(t.is_none());
    assert_eq!(l.vault_lamports, 5);
    assert_eq!(l.recipient_lamports, 7);
    // a denial needs no funds
    let e = spend(&mut p, &mut t, &mut l, owner(), r1(), 5, 0).unwrap();
    assert!(!e.allowed);
    assert_eq!(p.next_sequence, 1);
}

#[test]
fn allowed_spend_moves_funds() {
    let mut p = make_policy(0, 100, 0);
    let mut t = None;
    let mut l = Ledger { vault_lamports: 50, recipient_lamports: 7 };
    let e = spend(&mut p, &mut t, &mut l, owner(), r1(), 42, 30).unwrap();
    assert!(e.allowed);
    assert_eq!(e.ts, 42);
    assert_eq!(e.amount, 30);
    assert!(e.recipient.same(&r1()));
    assert!(e.policy.same(&policy_key()));
    assert_eq!(l.vault_lamports, 20);
    assert_eq!(l.recipient_lamports, 37);
    assert_eq!(p.last_spend_ts, 42);
    let n = e.notification(vault_key());
    assert_eq!(n.sequence, 0);
    assert!(n.vault.same(&vault_key()));
    assert_eq!(n.policy_version, 1);
}

#[test]
fn ledger_transfer() {
    let l = Ledger { vault_lamports: 10, recipient_lamports: 1 };
    let m = debit_credit(&l, 10).unwrap();
    assert_eq!(m.vault_lamports, 0);
    assert_eq!(m.recipient_lamports, 11);
    assert_eq!(debit_credit(&l, 11).unwrap_err(), VaultError::InsufficientFunds);
    let full = Ledger { vault_lamports: 10, recipient_lamports: u64::MAX };
    assert_eq!(debit_credit(&full, 1).unwrap_err(), VaultError::ArithmeticOverflow);
}

#[test]
fn sequence_overflow_is_hard_failure() {
    let mut p = make_policy(0, 100, 0);
    p.next_sequence = u64::MAX;
    let mut t = None;
    let mut l = rich();
    let r = spend(&mut p, &mut t, &mut l, owner(), r1(), 5, 1);
    assert_eq!(r.unwrap_err(), VaultError::ArithmeticOverflow);
    assert!(t.is_none());
}

#[test]
fn tracker_rolls_on_its_own() {
    let mut p = make_policy(0, 100, 0);
    let mut t = Some(RecipientSpend {
        policy: policy_key(),
        recipient: r1(),
        spent_today_lamports: 99,
        day_index: 2,
    });
    let mut l = rich();
    advanced(&mut p, false, false, None, 100);
    let e = spend(&mut p, &mut t, &mut l, owner(), r1(), 5 * DAY, 0).unwrap();
    assert!(!e.allowed);
    let tr = t.unwrap();
    assert_eq!(tr.day_index, 5);
    assert_eq!(tr.spent_today_lamports, 0);
}

#[test]
fn mismatched_accounts_are_refused() {
    let mut p = make_policy(0, 100, 0);
    let mut t = Some(RecipientSpend {
        policy: policy_key(),
        recipient: r2(),
        spent_today_lamports: 0,
        day_index: 0,
    });
    let mut l = rich();
    let r = spend(&mut p, &mut t, &mut l, owner(), r1(), 5, 1);
    assert_eq!(r.unwrap_err(), VaultError::AccountMismatch);
    let other = SpendKeys { vault: key(77), policy: policy_key(), recipient: r1(), caller: owner() };
    let mut none = None;
    let r = spend_intent_v2(&mut p, &mut none, &mut l, &other, 5, 1);
    assert_eq!(r.unwrap_err(), VaultError::AccountMismatch);
}

#[test]
fn spend_intent_without_tracker() {
    let mut p = make_policy(0, 100, 0);
    let mut l = rich();
    let k = keys(owner(), r1());
    let e = spend_intent(&mut p, &mut l, &k, 5, 60).unwrap();
    assert!(e.allowed);
    let e = spend_intent(&mut p, &mut l, &k, 6, 41).unwrap();
    assert_eq!(e.reason_code, REASON_BUDGET_EXCEEDED);
    assert_eq!(e.sequence, 1);
    advanced(&mut p, true, false, None, 0);
    let e = spend_intent(&mut p, &mut l, &k, 7, 1).unwrap();
    assert_eq!(e.reason_code, REASON_PAUSED);
    let bad = keys(key(9), r1());
    assert_eq!(spend_intent(&mut p, &mut l, &bad, 8, 1).unwrap_err(), VaultError::Unauthorized);
}

#[test]
fn day_index_floors_negative_times() {
    assert_eq!(current_day(0), 0);
    assert_eq!(current_day(DAY - 1), 0);
    assert_eq!(current_day(DAY), 1);
    assert_eq!(current_day(-1), -1);
    assert_eq!(current_day(-DAY), -1);
    assert_eq!(current_day(-DAY - 1), -2);
    assert_eq!(current_day(i64::MIN), i64::MIN.div_euclid(DAY));
}

#[test]
fn decide_cooldown_with_clock_regression() {
    let mut p = make_policy(0, 100, 60);
    p.last_spend_ts = i64::MAX;
    assert_eq!(decide(&p, 0, i64::MIN, &r1(), 1), REASON_COOLDOWN);
    p.last_spend_ts = 1;
    assert_eq!(decide(&p, 0, i64::MAX, &r1(), 1), REASON_OK);
}

#[test]
fn audit_log_purge_keeps_numbers() {
    let mut p = make_policy(0, 100, 0);
    let mut t = None;
    let mut l = rich();
    let mut log = AuditLog::new();
    for i in 0..4i64 {
        let e = spend(&mut p, &mut t, &mut l, owner(), r1(), i, 1).unwrap();
        log.append(e);
    }
    let gone = log.purge(1).unwrap();
    assert_eq!(gone.sequence, 1);
    assert!(log.purge(1).is_none());
    assert!(log.get(1).is_none());
    let seqs: Vec<u64> = log.events.iter().map(|e| e.sequence).collect();
    assert_eq!(seqs, vec![0, 2, 3]);
    let e = spend(&mut p, &mut t, &mut l, owner(), r1(), 9, 1).unwrap();
    assert_eq!(e.sequence, 4);
}

#[test]
fn close_checks() {
    let p = make_policy(0, 100, 0);
    let e = AuditEvent {
        policy: policy_key(),
        sequence: 0,
        ts: 0,
        recipient: r1(),
        amount: 1,
        allowed: true,
        reason_code: REASON_OK,
        policy_version: 1,
    };
    assert!(close_audit_event(&policy_key(), &p, &e, &owner()).is_ok());
    assert_eq!(close_audit_event(&policy_key(), &p, &e, &agent()).unwrap_err(), VaultError::Unauthorized);
    assert_eq!(close_audit_event(&key(50), &p, &e, &owner()).unwrap_err(), VaultError::AccountMismatch);
    let rs = RecipientSpend { policy: policy_key(), recipient: r1(), spent_today_lamports: 0, day_index: 0 };
    assert!(close_recipient_spend(&policy_key(), &p, &rs, &r1(), &owner()).is_ok());
    assert_eq!(
        close_recipient_spend(&policy_key(), &p, &rs, &r2(), &owner()).unwrap_err(),
        VaultError::AccountMismatch
    );
    assert_eq!(
        close_recipient_spend(&policy_key(), &p, &rs, &r1(), &agent()).unwrap_err(),
        VaultError::Unauthorized
    );
}
