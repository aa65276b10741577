pub mod access;
pub mod arbiter;
pub mod command;
pub mod framing;
pub mod heartbeat;
pub mod rendezvous;
