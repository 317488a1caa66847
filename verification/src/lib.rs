//! A canister execution engine: the state of one simulated canister, the
//! system calls its handlers may make, and the rules that decide each call.
//!
//! [`canister`] holds the engine and its system calls, [`dispatch`] the
//! requests and answers of one invocation, [`model`] the same engine as a
//! state machine over mathematical values, and [`laws`] what is proved of
//! that machine. [`entry`] decides what is generated around a handler
//! function, [`storage`] and [`ic`] keep a canister's own state, [`memory`]
//! bounds every copy, and [`fault`] describes a task that did not return.

pub mod canister;
pub mod dispatch;
pub mod entry;
pub mod fault;
pub mod ic;
pub mod laws;
pub mod memory;
pub mod model;
pub mod storage;
pub mod types;

pub use canister::{Canister, CanisterMethod};
