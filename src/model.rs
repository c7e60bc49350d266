use vstd::prelude::*;

use crate::key::Pubkey;

verus! {

/// The spend was allowed.
pub const REASON_OK: u16 = 1;

/// The spend would take the day's total over the daily budget.
pub const REASON_BUDGET_EXCEEDED: u16 = 2;

/// Too little time has passed since the last allowed spend.
pub const REASON_COOLDOWN: u16 = 3;

/// The amount was zero.
pub const REASON_INVALID_AMOUNT: u16 = 4;

/// The policy is paused.
pub const REASON_PAUSED: u16 = 5;

/// The allowlist is on and the recipient is not the allowed one.
pub const REASON_RECIPIENT_NOT_ALLOWED: u16 = 6;

/// The spend would take the recipient's day total over its cap.
pub const REASON_RECIPIENT_CAP_EXCEEDED: u16 = 7;

/// Length of one day window, in seconds.
pub const SECONDS_PER_DAY: i64 = 86400;

/// A custodial balance container, owned by one identity.
#[derive(Clone, Copy, Debug)]
pub struct Vault {
    pub owner: Pubkey,
}

/// The spend rules bound to one vault, with the counters they act on.
#[derive(Clone, Copy, Debug)]
pub struct Policy {
    pub vault: Pubkey,
    pub authority: Pubkey,
    pub agent: Option<Pubkey>,
    pub daily_budget_lamports: u64,
    pub spent_today_lamports: u64,
    pub day_index: i64,
    pub cooldown_seconds: u32,
    pub last_spend_ts: i64,
    pub next_sequence: u64,
    pub paused: bool,
    pub allowlist_enabled: bool,
    pub allowed_recipient: Option<Pubkey>,
    /// Zero turns the per-recipient cap off.
    pub per_recipient_daily_cap_lamports: u64,
    pub policy_version: u16,
}

/// What one recipient has received under one policy in its current day window.
#[derive(Clone, Copy, Debug)]
pub struct RecipientSpend {
    pub policy: Pubkey,
    pub recipient: Pubkey,
    pub spent_today_lamports: u64,
    pub day_index: i64,
}

/// The record of one spend decision.
#[derive(Clone, Copy, Debug)]
pub struct AuditEvent {
    pub policy: Pubkey,
    pub sequence: u64,
    pub ts: i64,
    pub recipient: Pubkey,
    pub amount: u64,
    pub allowed: bool,
    pub reason_code: u16,
    pub policy_version: u16,
}

/// The notification sent out for every completed spend intent.
#[derive(Clone, Copy, Debug)]
pub struct SpendRecorded {
    pub vault: Pubkey,
    pub policy: Pubkey,
    pub policy_version: u16,
    pub sequence: u64,
    pub recipient: Pubkey,
    pub amount: u64,
    pub allowed: bool,
    pub reason_code: u16,
    pub ts: i64,
}

/// Balances that the custody side holds for one transfer.
#[derive(Clone, Copy, Debug)]
pub struct Ledger {
    pub vault_lamports: u64,
    pub recipient_lamports: u64,
}

/// The identities that take part in one spend intent.
#[derive(Clone, Copy, Debug)]
pub struct SpendKeys {
    pub vault: Pubkey,
    pub policy: Pubkey,
    pub recipient: Pubkey,
    pub caller: Pubkey,
}

/// Hard failures: the operation aborts and no state changes.
#[derive(Clone, Copy, Debug, PartialEq, Eq, Structural)]
pub enum VaultError {
    /// The caller is neither the authority nor, where allowed, the agent.
    Unauthorized,
    /// The vault cannot cover an allowed spend.
    InsufficientFunds,
    /// A counter or balance would leave its range.
    ArithmeticOverflow,
    /// A record belongs to another policy, vault or recipient.
    AccountMismatch,
}

impl AuditEvent {
    /// The notification for this record, sent on behalf of `vault`.
    pub fn notification(&self, vault: Pubkey) -> (r: SpendRecorded)
        ensures
            r == notification_of(*self, vault),
    {
        SpendRecorded {
            vault,
            policy: self.policy,
            policy_version: self.policy_version,
            sequence: self.sequence,
            recipient: self.recipient,
            amount: self.amount,
            allowed: self.allowed,
            reason_code: self.reason_code,
            ts: self.ts,
        }
    }
}

pub open spec fn notification_of(e: AuditEvent, vault: Pubkey) -> SpendRecorded {
    SpendRecorded {
        vault,
        policy: e.policy,
        policy_version: e.policy_version,
        sequence: e.sequence,
        recipient: e.recipient,
        amount: e.amount,
        allowed: e.allowed,
        reason_code: e.reason_code,
        ts: e.ts,
    }
}

} // verus!
