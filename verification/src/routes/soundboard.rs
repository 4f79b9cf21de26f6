//! The rules of the soundboard: who may change a sound, who may play one,
//! and how long a sound rests between two plays.

use vstd::prelude::*;
use crate::ids::Id;
use crate::permissions::{level_of, Role};
use crate::shared::error::{AppError, ErrorKind};
use crate::shared::text::str_eq;
use crate::state::{in_channel, AppState};

verus! {

/// The seconds a sound rests after it was played.
pub const SOUND_COOLDOWN_SECS: u64 = 5;

/// What is done to a sound by someone who may not have uploaded it.
#[derive(Debug, Clone, Copy, PartialEq, Eq, Structural)]
pub enum SoundChange {
    Edit,
    Delete,
}

/// What a refused change of a sound is answered with.
pub open spec fn change_refusal(change: SoundChange) -> Seq<char> {
    match change {
        SoundChange::Edit => "Only the uploader or moderators can edit sounds"@,
        SoundChange::Delete => "Only the uploader or moderators can delete sounds"@,
    }
}

/// Checks that a user may change a sound: its uploader may, and so may a
/// moderator or anyone above.
pub fn authorize_sound_change(created_by: Id, user_id: Id, role: Role, change: SoundChange) -> (r:
    Result<(), AppError>)
    ensures
        created_by == user_id || level_of(role) >= level_of(Role::Moderator) ==> r is Ok,
        created_by != user_id && level_of(role) < level_of(Role::Moderator) ==> r is Err
            && r->Err_0.is(ErrorKind::Forbidden, change_refusal(change)),
{
    if created_by != user_id && role.level() < Role::Moderator.level() {
        return match change {
            SoundChange::Edit => Err(
                AppError::forbidden("Only the uploader or moderators can edit sounds"),
            ),
            SoundChange::Delete => Err(
                AppError::forbidden("Only the uploader or moderators can delete sounds"),
            ),
        };
    }
    Ok(())
}

/// Checks that a user may play a sound into a voice channel: they must
/// sit in it, and must not be deafened.
pub fn check_can_play(hub: &AppState, channel_id: Id, user_id: Id) -> (r: Result<(), AppError>)
    requires
        hub.wf(),
    ensures
        !hub.voice().contains_key(channel_id) ==> r is Err && r->Err_0.is(
            ErrorKind::BadRequest,
            "You are not in a voice channel"@,
        ),
        hub.voice().contains_key(channel_id) && !in_channel(hub.voice(), channel_id, user_id)
            ==> r is Err && r->Err_0.is(ErrorKind::BadRequest, "You are not in this voice channel"@),
        in_channel(hub.voice(), channel_id, user_id) && hub.voice()[channel_id][user_id].is_deafened
            ==> r is Err && r->Err_0.is(ErrorKind::BadRequest, "Cannot play sounds while deafened"@),
        in_channel(hub.voice(), channel_id, user_id) && !hub.voice()[channel_id][user_id].is_deafened
            ==> r is Ok,
{
    match hub.get_voice_state(channel_id, user_id) {
        Some(state) => {
            if state.is_deafened {
                Err(AppError::bad_request("Cannot play sounds while deafened"))
            } else {
                Ok(())
            }
        },
        None => {
            let members = hub.get_voice_states(channel_id);
            if members.len() == 0 {
                proof {
                    if hub.voice().contains_key(channel_id) {
                        let u = choose|u: Id| #[trigger] hub.voice()[channel_id].contains_key(u);
                        assert(in_channel(hub.voice(), channel_id, u));
                        assert(members@.contains(hub.voice()[channel_id][u]));
                    }
                }
                Err(AppError::bad_request("You are not in a voice channel"))
            } else {
                assert(in_channel(hub.voice(), channel_id, members@[0].user_id));
                Err(AppError::bad_request("You are not in this voice channel"))
            }
        },
    }
}

/// Checks that a sound has rested since it was last played, both instants
/// in seconds of a monotonic clock.
pub fn check_cooldown(last_played: Option<u64>, now: u64) -> (r: Result<(), AppError>)
    ensures
        last_played is Some && now - last_played->Some_0 < SOUND_COOLDOWN_SECS ==> r is Err
            && r->Err_0.is(ErrorKind::BadRequest, "This sound is on cooldown"@),
        !(last_played is Some && now - last_played->Some_0 < SOUND_COOLDOWN_SECS) ==> r is Ok,
{
    match last_played {
        Some(t) => {
            if now < t || now - t < SOUND_COOLDOWN_SECS {
                return Err(AppError::bad_request("This sound is on cooldown"));
            }
        },
        None => {},
    }
    Ok(())
}

/// The file extension a sound of a content type is stored with.
pub fn sound_extension(content_type: &str) -> (ext: &'static str)
    ensures
        ext@ == (if content_type@ == "audio/ogg"@ {
            "ogg"@
        } else if content_type@ == "audio/wav"@ {
            "wav"@
        } else {
            "mp3"@
        }),
{
    if str_eq(content_type, "audio/ogg") {
        "ogg"
    } else if str_eq(content_type, "audio/wav") {
        "wav"
    } else {
        "mp3"
    }
}

} // verus!
