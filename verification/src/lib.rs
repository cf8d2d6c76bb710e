//! Core address construction and device classification for a LAN
//! file-transfer protocol.
//!
//! `url` renders a logical target (scheme, host, port, API version, path)
//! into the canonical endpoint address string; `discovery` defines the
//! closed set of device categories and their wire-format tokens.

pub mod discovery;
pub mod url;
