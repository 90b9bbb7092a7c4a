//! A learner's progress through a shared pool of vocabulary: which card to
//! present next, how a review changes the record of a card, the statistics
//! over a catalog, and the daily check-in streak.

pub mod auth;
pub mod checkin;
pub mod config;
pub mod entries;
pub mod error;
pub mod flashcard;
pub mod json;
pub mod model;
pub mod text;
pub mod timefmt;
pub mod woeter;
