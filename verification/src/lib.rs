//! Timed practice-exam attempts: the attempt state machine, its timing
//! model, answer bookkeeping, question navigation and scoring.

pub mod texto;
pub mod domain;
pub mod relogio;
pub mod state;
pub mod services;
