//! Download-orchestration core of a chat-driven torrent assistant.

pub mod commands;
pub mod crypto;
pub mod db_config;
pub mod directories;
pub mod errors;
pub mod flaresolver;
pub mod friends;
pub mod intake;
pub mod magnet;
pub mod messages;
pub mod models;
pub mod payload;
pub mod poll;
pub mod refs;
pub mod removal;
pub mod router;
pub mod rutracker;
pub mod servers;
pub mod submit;
pub mod tasks;
pub mod text;
pub mod trans_url;
pub mod ui;
pub mod uri;
