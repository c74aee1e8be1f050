//! Peer-to-peer sharing over authenticated connections: catalog search, file
//! download and chat.
pub mod catalog;
pub mod chat;
