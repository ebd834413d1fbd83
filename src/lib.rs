//! Reads the configuration of an Ultimate Hacking Keyboard: the command
//! frames and responses of its USB protocol, the chunked transfer of a
//! configuration buffer, and the decoder of that buffer into typed values.

pub mod consts;
pub mod cursor;
pub mod error;
pub mod config;
pub mod device;
pub mod models;
