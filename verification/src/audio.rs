//! Paced sending of encoded audio.
pub mod counters;
pub mod executor;
pub mod failure;
pub mod laws;
pub mod source;
pub mod store;
pub mod validity;
pub mod wake;
