//! The decisions of the request surface that go beyond fetching and
//! storing.

pub mod attachments;
pub mod custom_emojis;
pub mod init;
pub mod messages;
pub mod proxy;
pub mod soundboard;
