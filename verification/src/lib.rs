//! Verified core of the Mezeporta launcher.
pub mod altclient;
pub mod cli;
pub mod crypto;
pub mod detect;
pub mod endpoint;
pub mod entries;
pub mod friends;
pub mod global_data;
pub mod inject;
pub mod launch;
pub mod launcher;
pub mod manifest;
pub mod migrate;
pub mod mhf;
pub mod cursor;
pub mod packet;
pub mod patcher;
pub mod prefs;
pub mod savedata;
pub mod server;
pub mod server_info;
pub mod session;
pub mod settings;
pub mod sign;
pub mod tables;
pub mod text;
pub mod user;
pub mod version;
pub mod window;
pub mod wine;
