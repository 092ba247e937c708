//! The decisions of a bot that liquidates positions on NEAR lending markets.
//!
//! Nothing here talks to a node or waits: each step takes what came back from the network, and
//! the time, and says what to do next.

pub mod account;
pub mod bot;
pub mod clock;
pub mod crypto;
pub mod deployments;
pub mod encoding;
pub mod error;
pub mod json;
pub mod json_read;
pub mod near;
pub mod laws;
pub mod network;
pub mod send_tx;
pub mod swap;
pub mod text;
pub mod transaction;
