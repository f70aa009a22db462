//! A minimal keyed time-locked message store.
//!
//! A depositor stores one text message together with a future unlock
//! timestamp, keyed by their own identity. Anyone may later query that
//! record: once the current time has reached the unlock timestamp the
//! stored text is returned, before that a fixed placeholder is returned
//! in its place. A second store under the same identity overwrites the
//! first record completely.
//!
//! The host environment supplies identity authentication and validation,
//! the current time, transport and durable persistence; this crate holds
//! the state-transition and query logic itself.

pub mod contract;
pub mod error;
pub mod laws;
pub mod msg;
pub mod state;
