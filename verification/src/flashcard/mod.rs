//! The flashcard engine: scheduling, reviews and statistics.

pub mod dto;
pub mod laws;
pub mod review;
pub mod schedule;
pub mod service;
pub mod stats;
