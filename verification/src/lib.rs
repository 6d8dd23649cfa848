//! Breezer: the verified core of a lightweight Deezer client.
//!
//! The playback queue, the stream decryption scheme, translations, dock
//! layouts, the Deezer data models and the update decision live here with
//! their contracts; `app/` holds the network, file and audio plumbing.

pub mod api;
pub mod cli;
pub mod config;
pub mod error;
pub mod i18n;
pub mod media;
pub mod player;
pub mod services;
pub mod plugin_api;
pub mod plugins;
pub mod text;
pub mod updater;
