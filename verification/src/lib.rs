//! A non-blocking TLS acceptance layer: deferred-handshake connection state
//! machine, a write-once peer-certificate cell, and a certificate resolver
//! with hot reload of the active certificate chain and private key.

pub mod cert;
pub mod config;
pub mod listener;
pub mod resolver;
pub mod stream;
