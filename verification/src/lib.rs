//! Host-side protocol engine for CMSIS-DAP debug probes.

pub mod batch;
pub mod command;
pub mod dump;
pub mod error;
pub mod interface;
pub mod link;
pub mod transfer;
pub mod transport;
pub mod wire;
