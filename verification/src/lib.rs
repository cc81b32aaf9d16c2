//! Verified core of a SOCKS5 proxy server.
//!
//! The crate holds the pure protocol logic: the byte-exact codec for
//! handshake, request and reply messages, the authentication-method
//! negotiator, the per-connection state machine, and the relay model.
//! Socket I/O, name resolution and task scheduling live outside, in the
//! surrounding application, which drives these functions with the bytes
//! it reads and performs the actions they decide.

pub mod auth;
pub mod codec;
pub mod conn;
pub mod msg;
pub mod relay;

use vstd::prelude::*;

verus! {

/// Process-wide immutable configuration: listen port and address, the
/// server's supported authentication methods in priority order, and an
/// optional idle timeout in milliseconds.
pub struct ProxyConfig {
    pub port: u16,
    pub ip: String,
    pub auth_methods: Vec<u8>,
    pub timeout_ms: Option<u64>,
}

impl ProxyConfig {
    /// Builds the configuration exactly from its parts; never fails.
    pub fn new(port: u16, ip: String, auth_methods: Vec<u8>, timeout_ms: Option<u64>) -> (c:
        ProxyConfig)
        ensures
            c.port == port,
            c.ip@ == ip@,
            c.auth_methods@ == auth_methods@,
            c.timeout_ms == timeout_ms,
    {
        ProxyConfig { port, ip, auth_methods, timeout_ms }
    }
}

} // verus!
