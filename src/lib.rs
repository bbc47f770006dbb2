//! Watches the address records of one domain name and reports the first change.
//!
//! The library holds the logic: address sets and their difference, the choice of
//! upstream servers, and the polling monitor as a state machine. Network and file
//! access stay with the caller, which performs the actions the monitor asks for.

pub mod address;
pub mod differ;
pub mod config;
pub mod monitor;
