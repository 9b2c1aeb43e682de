//! Wire-level library for the Synergy/Barrier keyboard-and-mouse sharing
//! protocol family: a verified binary codec for every protocol message, the
//! screen-topology registry a server validates client placement with, address
//! parsing, and the pure decision logic of connection establishment and
//! per-connection sessions.

pub mod protocol;
pub mod topology;
pub mod client;
pub mod server;
