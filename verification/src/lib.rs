//! Verified core of a Minecraft mod manager: mod metadata reading,
//! file hashing, update decisions and mod list bookkeeping.

pub mod backend;
pub mod cdn_file;
pub mod error;
pub mod foreign;
pub mod messages;
pub mod mc_mod_meta;
pub mod mod_file;
pub mod modrinth;
pub mod paths;
pub mod persistence;
pub mod settings;
pub mod text;
pub mod ui;
