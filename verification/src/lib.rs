//! Verified core of an Unsplash image-discovery service: query encoding,
//! endpoint paths, the JSON shapes the service reads and writes, the
//! decisions of the bot-check/browser session, and the tool argument rules.

pub mod text;
pub mod number;
pub mod encode;
pub mod json;
pub mod napi;
pub mod browser;
pub mod tools;
