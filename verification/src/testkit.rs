//! Deterministic, bounded peers and packet oracles for tests of a voice client.
pub mod capture;
pub mod clock;
pub mod crypto;
pub mod fault;
pub mod gateway;
pub mod rng;
pub mod udp;
