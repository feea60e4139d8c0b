//! The traffic pipeline of a mixnet client.
//!
//! A client of a mix network hides when it talks by sending packets on a
//! schedule of its own: real messages ride on that schedule when there are
//! any, cover packets fill it when there are none, and whatever comes back
//! from the provider is stripped of cover before the application reads it.
//!
//! Each long-running task of the client is split in two. What it decides
//! lives here, as functions from what was observed to what has to be done
//! next, with contracts that say exactly which. The waiting itself (timers,
//! sockets, the provider) is left to the program that drives them.
use vstd::prelude::*;

pub mod buffer;
pub mod channel;
pub mod client;
pub mod cover_traffic;
pub mod message;
pub mod mix_traffic;
pub mod out_queue;
pub mod poller;
pub mod timing;

verus! {

} // verus!
