//! Server core of a self-hosted real-time chat platform: validation rules,
//! the role lattice, the in-memory state hub, the message pipeline, the
//! link-preview worker's decisions and the SFU connection registry.

pub mod ids;
pub mod shared;
pub mod models;
pub mod permissions;
pub mod sfu;
pub mod events;
pub mod tables;
pub mod state;
pub mod services;
pub mod signing;
pub mod link_preview;
pub mod routes;
pub mod websocket;
pub mod voice;
pub mod admin;
pub mod auth;
pub mod database;
pub mod storage;
