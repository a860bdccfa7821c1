//! A verified name-registration service: names are registered against a
//! purchase fee, transferred by their owner against a transfer fee, and
//! resolved to the address that owns them.
//!
//! The registry itself is a deterministic state machine; the surrounding
//! host (storage, message decoding, address validation) stays outside and
//! hands the registry plain values.

pub mod coins;
pub mod contract;
pub mod error;
pub mod msg;
pub mod state;
pub mod token;
