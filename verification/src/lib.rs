//! A small bulletin board: timestamped messages with a priority and an
//! optional expiry, the presence of connected clients, and aggregate
//! statistics, kept in one in-memory snapshot.
//!
//! Every operation on the snapshot is verified against a mathematical model
//! of it. Reading the clock, drawing identifiers and parsing them are the
//! only steps taken on trust.

pub mod time;
pub mod models;
pub mod handlers;
pub mod ids;
pub mod laws;
pub mod listing;
pub mod storage;
