//! Verified core of a chain-data acquisition bot for a lending/yield protocol.
//!
//! The library covers the logic that decides what to fetch and what the
//! fetched data means: the requirement catalog and its selector, the
//! freshness cache that arbitrates refreshes and coalesces in-flight
//! fetches, the transaction-log scanners that mine fee and deposit data
//! out of semi-structured event logs, and the yield engine that derives
//! an annualized rate from two exchange-rate snapshots.
//!
//! Network access, JSON decoding into these types, and floating-point
//! scale factors live outside the library; callers hand in plain values
//! and drive the scan state machines.

pub mod error;
pub mod text;
pub mod dec;
pub mod txmodel;
pub mod time;
pub mod scanner;
pub mod deposit;
pub mod apy;
pub mod requirements;
pub mod cache;
pub mod contracts;
