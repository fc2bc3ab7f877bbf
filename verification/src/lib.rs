//! Verified core of the Audido terminal audio player: the playback queue,
//! the PCM stream cache format, browser listings, search paging and the
//! navigation state machines behind the terminal interface.

pub mod browser;
pub mod browser_state;
pub mod cache;
pub mod eq;
pub mod key_detection;
pub mod keys;
pub mod layout;
pub mod logger;
pub mod normalization;
pub mod queue;
pub mod routes;
pub mod screens;
pub mod settings;
pub mod source;
pub mod spectrum;
pub mod text;
pub mod themes;
pub mod youtube;
