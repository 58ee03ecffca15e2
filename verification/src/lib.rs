//! Verified command-resolution and workflow-orchestration core for a
//! command-line tool that manages a Ledger-style hardware security device.
//!
//! The library resolves process configuration into exactly one [`operation::Operation`],
//! drives each operation's fixed sequence of device-management steps as a
//! state machine (the device calls themselves are performed by an unverified
//! driver and fed back as plain values), and maps every outcome onto a
//! disjoint error taxonomy with deterministic exit behaviour.

pub mod config;
pub mod operation;
pub mod report;
pub mod resolve;
pub mod workflow;
