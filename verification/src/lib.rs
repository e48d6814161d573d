//! Core runtime of a network-attached actuator device: the persisted state
//! machine, the command dispatcher, the registration-reply handling and the
//! liveness monitor, each with a verified contract. Transport, persistence
//! and process bootstrap live outside this crate and drive it with plain
//! values.

pub mod dispatch;
pub mod liveness;
pub mod registration;
pub mod state;
pub mod store;
