//! Device controller backend: a small persisted device state (a USB flag and
//! a headphone connection mode), the decisions of saving and loading it, and
//! the stateless endpoints that sit beside it.

pub mod codec;
pub mod endpoints;
pub mod error;
pub mod json;
pub mod state;
pub mod store;
