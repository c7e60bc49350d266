//! Spend-authorization policy engine for a custodial vault.
//!
//! A policy bounds what its authority (and an optional agent) may release from
//! a vault: a daily budget, a cooldown between spends, a kill switch, an
//! optional single-recipient allowlist and an optional per-recipient daily cap.
//! Every decision, allowed or denied, yields one audit record carrying the next
//! sequence number of the policy.
pub mod key;
pub mod model;
pub mod rules;
pub mod policyvault;
pub mod audit;
pub mod laws;
