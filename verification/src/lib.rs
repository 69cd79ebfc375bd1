//! Verified core of a low-latency remote input sharing tool: the wire format,
//! authentication and replay protection, the server's handling of input
//! datagrams and key tracking, the key tables and capture decisions,
//! discovery, trust on first use, and the state behind the user interface.

pub mod net;
pub mod crypto;
pub mod text;
pub mod input;
pub mod session;
pub mod icons;
pub mod config;
pub mod assoc;
pub mod cert;
pub mod discovery;
pub mod views;
pub mod shell;
