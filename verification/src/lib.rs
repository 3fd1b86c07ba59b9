//! A token-vesting ledger: beneficiaries withdraw an entitlement over time,
//! gated by a cliff, a vesting window, an administrator-controlled release
//! percentage, and a terminal revocation switch.
//!
//! The library is the decision core alone. It computes, from plain values,
//! what each operation does to the vesting state and which transfer the
//! caller must request from the asset ledger; the surrounding program
//! performs the transfers and commits the returned state only when they
//! succeed, so that every operation is all-or-nothing.

pub mod calculator;
pub mod engine;
pub mod errors;
pub mod laws;
pub mod state;
