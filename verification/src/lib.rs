//! Cache lifecycle and page resolution for a local collection of command
//! cheat sheets.
//!
//! The library decides; its caller touches the disk and the network. Every
//! function here takes what was observed as plain values and says, in its
//! contract, what follows from it.

pub mod age;
pub mod cache;
pub mod catalog;
pub mod error;
pub mod fetcher;
pub mod lifecycle;
pub mod locator;
pub mod paths;
pub mod resolver;
pub mod text;
pub mod types;
