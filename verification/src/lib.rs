//! A pub/sub notification engine for a blockchain node's RPC surface.
//!
//! Clients open long-lived subscriptions to observe ledger events: account
//! mutations, program-owned account mutations, transaction signature status,
//! transaction logs, and consensus progress (slots, roots, votes). The engine
//! keeps a registry of active subscriptions, evaluates each commitment-aware
//! subscription against the ledger state at the slot its commitment level
//! selects, deduplicates repeated matches per subscription, renders each match
//! as a JSON-RPC notification, and retains recently rendered payloads in a
//! buffer bounded both by item count and by total bytes.
//!
//! The ledger itself (banks, commitment caches) is an external collaborator;
//! the engine consumes it through the plain-data snapshots in [`ledger`].

pub mod engine;
pub mod laws;
pub mod ledger;
pub mod notifier;
pub mod params;
pub mod recent;
pub mod registry;
pub mod subscriptions;
pub mod values;
pub mod wire;
