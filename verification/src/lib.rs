//! An exchange contract that swaps a non-fungible asset for a fungible
//! utility token on a one-to-one basis and back.
//!
//! The library is the exchange state machine: it validates an incoming
//! request against the stored configuration and computes the effects
//! (a mint request or a transfer request) that the host environment is
//! expected to apply atomically. It performs no I/O itself.

pub mod contract;
pub mod error;
pub mod msg;
pub mod state;
