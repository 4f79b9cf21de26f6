//! The rules of the message routes: who may change a message, how many
//! messages a page holds, and what an emoji may be.

use vstd::prelude::*;
use crate::ids::Id;
use crate::models::Message;
use crate::permissions::{level_of, Role};
use crate::shared::error::{AppError, ErrorKind};
use crate::shared::text::{byte_len, byte_length};
use crate::shared::validation::MAX_EMOJI_LENGTH;

verus! {

/// The page size used when none is asked for.
pub const DEFAULT_MESSAGE_LIMIT: i64 = 50;

/// The largest page size.
pub const MAX_MESSAGE_LIMIT: i64 = 100;

/// The query of a request for a page of messages.
#[derive(Debug, Clone, Copy)]
pub struct MessageQuery {
    pub limit: Option<i64>,
    /// Only messages older than this instant, in microseconds.
    pub before: Option<i64>,
}

/// The page size for a requested limit: 50 by default, and between 1 and
/// 100.
pub open spec fn page_limit(limit: Option<i64>) -> int {
    let asked = match limit {
        Some(l) => l as int,
        None => DEFAULT_MESSAGE_LIMIT as int,
    };
    if asked < 1 {
        1
    } else if asked > MAX_MESSAGE_LIMIT {
        MAX_MESSAGE_LIMIT as int
    } else {
        asked
    }
}

/// The page size for a requested limit.
pub fn message_limit(limit: Option<i64>) -> (r: i64)
    ensures
        r == page_limit(limit),
{
    let asked = match limit {
        Some(l) => l,
        None => DEFAULT_MESSAGE_LIMIT,
    };
    if asked < 1 {
        1
    } else if asked > MAX_MESSAGE_LIMIT {
        MAX_MESSAGE_LIMIT
    } else {
        asked
    }
}

/// Checks that a message exists in the channel it is addressed through.
pub fn verify_message_in_channel(message: &Option<Message>, channel_id: Id) -> (r: Result<
    (),
    AppError,
>)
    ensures
        message is None ==> r is Err && r->Err_0.is(ErrorKind::NotFound, "Message not found"@),
        message is Some && message->Some_0.channel_id != channel_id ==> r is Err && r->Err_0.is(
            ErrorKind::NotFound,
            "Message not found in this channel"@,
        ),
        message is Some && message->Some_0.channel_id == channel_id ==> r is Ok,
{
    match message {
        None => Err(AppError::not_found("Message not found")),
        Some(m) => {
            if m.channel_id != channel_id {
                Err(AppError::not_found("Message not found in this channel"))
            } else {
                Ok(())
            }
        },
    }
}

/// Checks that a message exists, belongs to the user, and is in the
/// channel it is addressed through.
pub fn verify_message_ownership(message: &Option<Message>, channel_id: Id, user_id: Id) -> (r:
    Result<(), AppError>)
    ensures
        message is None ==> r is Err && r->Err_0.is(ErrorKind::NotFound, "Message not found"@),
        message is Some && message->Some_0.author_id != user_id ==> r is Err && r->Err_0.is(
            ErrorKind::Forbidden,
            "You can only modify your own messages"@,
        ),
        message is Some && message->Some_0.author_id == user_id && message->Some_0.channel_id
            != channel_id ==> r is Err && r->Err_0.is(
            ErrorKind::NotFound,
            "Message not found in this channel"@,
        ),
        message is Some && message->Some_0.author_id == user_id && message->Some_0.channel_id
            == channel_id ==> r is Ok,
{
    match message {
        None => Err(AppError::not_found("Message not found")),
        Some(m) => {
            if m.author_id != user_id {
                Err(AppError::forbidden("You can only modify your own messages"))
            } else if m.channel_id != channel_id {
                Err(AppError::not_found("Message not found in this channel"))
            } else {
                Ok(())
            }
        },
    }
}

/// Whether a user may delete a message of a channel: its author may, and
/// so may a moderator or anyone above.
pub open spec fn may_delete(message: Message, channel_id: Id, user_id: Id, role: Role) -> bool {
    message.channel_id == channel_id && (message.author_id == user_id || level_of(role)
        >= level_of(Role::Moderator))
}

/// Checks that a user may delete a message: moderators and above may
/// delete any message of the channel, others only their own.
pub fn authorize_delete(message: &Option<Message>, channel_id: Id, user_id: Id, role: Role) -> (r:
    Result<(), AppError>)
    ensures
        r is Ok <==> message is Some && may_delete(message->Some_0, channel_id, user_id, role),
        message is None ==> r is Err && r->Err_0.is(ErrorKind::NotFound, "Message not found"@),
        message is Some && level_of(role) < level_of(Role::Moderator) && message->Some_0.author_id
            != user_id ==> r is Err && r->Err_0.is(
            ErrorKind::Forbidden,
            "You can only modify your own messages"@,
        ),
        message is Some && (level_of(role) >= level_of(Role::Moderator)
            || message->Some_0.author_id == user_id) && message->Some_0.channel_id != channel_id
            ==> r is Err && r->Err_0.is(ErrorKind::NotFound, "Message not found in this channel"@),
{
    if role.level() >= Role::Moderator.level() {
        verify_message_in_channel(message, channel_id)
    } else {
        verify_message_ownership(message, channel_id, user_id)
    }
}

/// Accepts an emoji that is not empty and takes at most 32 bytes.
pub fn validate_emoji(emoji: &str) -> (r: Result<(), AppError>)
    ensures
        0 < emoji@.len() && byte_len(emoji@) <= MAX_EMOJI_LENGTH ==> r is Ok,
        !(0 < emoji@.len() && byte_len(emoji@) <= MAX_EMOJI_LENGTH) ==> r is Err && r->Err_0.is(
            ErrorKind::BadRequest,
            "Emoji must be between 1 and 32 characters"@,
        ),
{
    if emoji.unicode_len() == 0 || byte_length(emoji) > MAX_EMOJI_LENGTH {
        return Err(AppError::bad_request("Emoji must be between 1 and 32 characters"));
    }
    Ok(())
}

/// A message is deleted only by its author or by a moderator or anyone
/// above, and only through its own channel.
pub proof fn only_author_or_moderator_deletes(
    message: Message,
    channel_id: Id,
    user_id: Id,
    role: Role,
)
    requires
        may_delete(message, channel_id, user_id, role),
    ensures
        message.author_id == user_id || role == Role::Moderator || role == Role::Admin || role
            == Role::Owner,
        message.channel_id == channel_id,
{
}

} // verus!
