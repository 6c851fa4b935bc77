//! A local credential-and-session broker with an embedded request gateway:
//! deployment records resolve — from inline data, a remote secret, or a
//! password-encrypted blob — into live sessions held in a registry keyed by
//! deployment identity, and proxy-style requests addressed to a deployment
//! are planned for forwarding to its remote API.

pub mod commands;
pub mod config;
pub mod encryption;
pub mod gateway;
pub mod migrations;
pub mod registry;
pub mod server;
