//! Reconciliation engine for a declared package manifest.
//!
//! A manifest declares, per package-management backend, what should be
//! installed on the host.  This crate holds the decision logic of the tool:
//! which action each declared item needs, which command realises it, how the
//! three interaction modes allow or withhold execution, and the read-only drift report.
//! Issuing the commands, fetching manifests and prompting the user are left
//! to the surrounding binary, which drives this crate's plans.

pub mod command;
pub mod config;
pub mod decision;
pub mod doctor;
pub mod engine;
pub mod errors;
pub mod export;
pub mod listing;
pub mod scripts;
pub mod text;
