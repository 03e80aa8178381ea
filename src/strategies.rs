//! The strategy families: the classic table, continuous variants and detente.
//!
//! A random decision is made against a draw: a value taken uniformly from
//! `[0, MOVE_SCALE)` that the caller hands in, one per decision.
pub mod classic;
pub mod continuous;
pub mod tsvrn9;
pub mod utils;
