//! Playback state and event handling of a Spotify player.

pub mod handlers;
pub mod ids;
pub mod laws;
pub mod model;
pub mod player;
pub mod request;
pub mod run_loop;
pub mod time;
