//! A realtime tug-of-war session: clients pull a shared rope left or right,
//! and every accepted pull is broadcast to all of them.
//!
//! The library holds the session's logic. `game` is the shared state and its
//! arithmetic, `request` reads what a client asks for, `limiter` is the
//! per-identity sliding-window guard, `counters` is what the shared store
//! does to the three counters, and `reader` and `writer` are the two halves of
//! a connection as state machines: a driver performs each action they ask for
//! against the store and the client channel, and hands back what happened.
//! This variant keeps both the rate limiter and the connected-user count in
//! every broadcast.
use vstd::prelude::*;

pub mod game;
pub mod request;
pub mod limiter;
pub mod counters;
pub mod reader;
pub mod writer;

verus! {

} // verus!
