//! The bootstrap bundle a client loads after it logged in.

use vstd::prelude::*;
use crate::models::{Channel, UserPresence, UserSummary, VoiceState};
use crate::permissions::{level_of, Role};

verus! {

/// What a client needs to start.
#[derive(Debug)]
pub struct InitResponse {
    pub server_name: String,
    pub version: String,
    pub channels: Vec<Channel>,
    pub online_users: Vec<UserPresence>,
    pub voice_states: Vec<VoiceState>,
    /// The list of all users, for moderators and above.
    pub users: Option<Vec<UserSummary>>,
}

/// Whether the bundle of a user with this role holds the list of users:
/// it does for a moderator and anyone above.
pub fn includes_users(role: Role) -> (r: bool)
    ensures
        r == (level_of(role) >= level_of(Role::Moderator)),
{
    role.level() >= Role::Moderator.level()
}

} // verus!
