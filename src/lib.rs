//! A line-oriented chat relay: message values, a per-connection file
//! registry, the decisions a server connection makes for each inbound line
//! or hub message, and the client's parsing of console input.

pub mod user;
pub mod text;
pub mod message;
pub mod registry;
pub mod stamp;
pub mod connection;
pub mod client;
