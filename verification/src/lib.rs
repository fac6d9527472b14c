//! Verified HSES (High Speed Ethernet Server) protocol library.

pub mod commands;
pub mod constants;
pub mod encoding;
pub mod encoding_utils;
pub mod error;
pub mod message;
pub mod mock;
pub mod payload;
pub mod types;
pub mod wire;
