//! A token-weighted organization with a treasury, proposals decided by vote, and
//! fixed-rate annuities that it can issue, buy and claim payouts on.

pub mod annuity;
pub mod dao;
pub mod decimal;
pub mod error;
pub mod laws;
pub mod proposal;
pub mod registry;
