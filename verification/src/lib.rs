//! Redistribution of ArtNet lighting frames to registered fixtures.
//!
//! A universe carries up to 512 channels. Fixtures register for a contiguous
//! range of channels of one universe; each incoming frame is compared with
//! the one before it, and only the fixtures whose range holds a changed
//! channel are handed on for an update.

pub mod command;
pub mod dispatch;
pub mod error;
pub mod fixture;
pub mod laws;
pub mod receiver;
pub mod registry;
pub mod universe;
