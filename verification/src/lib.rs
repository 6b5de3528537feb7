//! Resolution and configuration logic for Playdate development support in an
//! editor: platform descriptors, SDK discovery, asset naming, debug-session
//! resolution and language-server settings.

pub mod assets;
pub mod debug;
pub mod error;
pub mod extension;
pub mod labels;
pub mod luacats;
pub mod platform;
pub mod sdk;
pub mod settings;
pub mod text;
