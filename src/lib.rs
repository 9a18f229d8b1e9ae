//! The core of a multi-user command server: a length-prefixed envelope codec, a read-only
//! registry of roles and accounts, a shared roster of live sessions, a role-gated command
//! dispatcher, and the per-connection session state machine that drives them.
//!
//! Everything that touches the network, the filesystem or a serialization format stays with
//! the caller, which hands the library plain values and carries out the actions it returns.
use vstd::prelude::*;

pub mod codec;
pub mod dispatch;
pub mod errors;
pub mod members;
pub mod messages;
pub mod models;
pub mod session;
pub mod shared;
pub mod world;

verus! {

} // verus!
