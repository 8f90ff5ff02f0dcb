//! An administrator registry with even donation splitting, written as a pure
//! state-transition core: the host stores the state, validates identities and
//! carries out transfers; this library decides what happens.

pub mod contract;
pub mod decimal;
pub mod laws;
pub mod msg;
pub mod payment;
pub mod state;

pub use contract::{execute, instantiate, query};
