//! The SFU coordination layer: which transports, producers and consumers
//! exist, and who owns them.

pub mod codec;
pub mod models;
pub mod service;
pub mod tables;
