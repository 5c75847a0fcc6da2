//! Orchestration core of a load generator for a confidential-asset wallet
//! engine: resource provisioning, randomised workload selection, transfer
//! sequencing, log correlation and report rows, all as verified decisions on
//! plain values. Driving the wallets, the chain node and the files is left to
//! the caller.

pub mod opts;
pub mod regtest;
pub mod text;
pub mod transfer;
pub mod wallet;
pub mod search;
pub mod report;
pub mod scenarios;
pub mod selection;
