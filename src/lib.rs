//! An HTTP client adapter over a host `fetch` primitive.
//!
//! The library holds the translation of requests and responses between the
//! abstract HTTP types and the plain values that describe the host's native
//! objects, and the state machine that turns the host's incremental body
//! reader into a lazy sequence of chunks. Driving the host itself (building
//! its objects, awaiting its promises) is left to the caller.
use vstd::prelude::*;

pub mod error;
pub mod text;
pub mod request;
pub mod response;
pub mod body;
pub mod client;
