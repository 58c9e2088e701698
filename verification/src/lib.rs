//! Host-side logic of a headless-browser music remote: configuration,
//! pairing and authorization, CDP message framing, and phone control handling.

pub mod text;
pub mod json;
pub mod encoding;
pub mod config;
pub mod auth;
pub mod qr;
pub mod cdp;
pub mod input;
pub mod control;
pub mod tabs;
pub mod audio;
pub mod access;
