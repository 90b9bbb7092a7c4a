//! The daily check-in: a ledger with one row for each user and calendar
//! day, and the status computed from the days of one user.
//!
//! Days are numbers as chrono counts them from the start of the Common Era.

pub mod laws;
pub mod ledger;
pub mod status;
