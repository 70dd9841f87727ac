//! A relay for a fixed hierarchy of cooperating agent processes: a
//! coordinator, a mediator and four workers. Roles may only message the
//! roles next to them in the hierarchy; each role has a mailbox, a status
//! record and a pending-notification flag, and all roles share a knowledge
//! base that outlives the session.
//!
//! Every operation is stated over a mathematical model (`store::StoreModel`)
//! and proved against it; `laws` relates the operations to each other.

pub mod text;
pub mod roles;
pub mod types;
pub mod trusted;
pub mod order;
pub mod knowledge;
pub mod store;
pub mod relay;
pub mod laws;
pub mod i18n;
pub mod panes;
pub mod config;
pub mod zellij;
pub mod ritual;
pub mod error;
pub mod dashboard;
