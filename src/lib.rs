//! Locates identifier strings (GUIDs, short IDs, media IDs) inside the XML
//! unit files of an audio-middleware project.
pub mod config;
pub mod find_id;
pub mod laws;
pub mod text;
pub mod xml;

pub use config::Config;
pub use find_id::{find_id, MatchInfo};

