//! Networking and data core of a serverless LAN messenger: peer discovery,
//! signaling with address binding, session encryption, chunked file transfer,
//! media registry and the rules that tie them to the message store.

pub mod commands;
pub mod crypto;
pub mod db;
pub mod discovery;
pub mod file_server;
pub mod file_transfer;
pub mod hex;
pub mod primitives;
pub mod signaling;
pub mod table;
pub mod text;
pub mod tray;
