//! A verified core for a DMX-512 lighting controller: the channel state
//! model, the recovery synchronizer that mirrors state to a key/value
//! store, and the dispatch logic that serializes external commands.

pub mod dmx;
pub mod codec;
pub mod communication;
pub mod store;
pub mod backup;
pub mod dispatch;
