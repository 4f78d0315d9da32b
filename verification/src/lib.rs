//! A minimal point-to-point transport protocol layered on unreliable
//! datagrams: a TCP-like connection handshake and a framed message
//! abstraction over a single unreliable channel.
//!
//! This crate holds the protocol core — the packet codec, the flag set, the
//! connection state machine and the per-datagram dispatch logic — as verified
//! code. Socket I/O, thread spawning, argument parsing and log-sink setup are
//! plumbing around this core and live outside it.

pub mod config;
pub mod endpoint;
pub mod flags;
pub mod packet;
pub mod state;

pub use config::AzukiWorkMode;
pub use config::Config;
pub use config::ConfigError;
pub use endpoint::Azuki;
pub use endpoint::AzukiError;
pub use flags::AzukiFlags;
pub use packet::AzukiPack;
pub use packet::CorruptPacket;
pub use state::AzukiStatus;
pub use state::IpAddress;
pub use state::SockAddr;
