//! Locating a Firefox profile's places database, tracking the lifecycle of a
//! connection to a private snapshot of it, and rendering bookmark and
//! history records as delimited text.

pub mod cli;
pub mod config;
pub mod database;
pub mod export;
pub mod ini;
pub mod locator;
pub mod manifest;
pub mod text;
