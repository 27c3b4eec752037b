//! Provisioning orchestrator for composite accounts: each account is a pair of
//! cooperating sub-entities (a controller and a funds-holding proxy) whose
//! addresses are derived deterministically before either exists, whose creation
//! is emitted as an ordered, atomic operation list, and whose outcome is
//! checked by a deferred validation phase before the run is confirmed.

pub mod errors;

pub mod factory;

pub mod funds;

pub mod ident;

pub mod laws;

pub mod modules;

pub mod predict;
