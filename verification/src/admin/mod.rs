//! Moderation and administration: kicks, bans, mutes, roles, invites,
//! settings and the moderation log.

pub mod invites;
pub mod moderation;
pub mod modlog;
pub mod settings;
pub mod users;
