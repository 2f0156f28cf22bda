//! The networking core of a beacon node: the façade that multiplexes gossip,
//! discovery, peer management and request/response traffic into one ordered
//! event stream. Every decision is a verified state transition; what the
//! subsystems must do is issued as commands, in order, for a driver to carry
//! out.

pub mod command;
pub mod event;
pub mod gossip;
pub mod gossip_cache;
pub mod laws;
pub mod logging;
pub mod network;
pub mod peers;
pub mod poll;
pub mod rpc;
pub mod rpc_handler;
pub mod startup;
pub mod topics;
pub mod types;
