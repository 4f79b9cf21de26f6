//! The rules of custom emojis: who may delete one.

use vstd::prelude::*;
use crate::ids::Id;
use crate::models::CustomEmoji;
use crate::permissions::{level_of, Role};
use crate::shared::error::{AppError, ErrorKind};

verus! {

/// Checks that a user may delete a custom emoji: its uploader may, and so
/// may a moderator or anyone above.
pub fn authorize_emoji_delete(emoji: &CustomEmoji, user_id: Id, role: Role) -> (r: Result<
    (),
    AppError,
>)
    ensures
        emoji.uploaded_by == user_id || level_of(role) >= level_of(Role::Moderator) ==> r is Ok,
        emoji.uploaded_by != user_id && level_of(role) < level_of(Role::Moderator) ==> r is Err
            && r->Err_0.is(
            ErrorKind::Forbidden,
            "Only the uploader or moderators can delete custom emojis"@,
        ),
{
    if emoji.uploaded_by != user_id && role.level() < Role::Moderator.level() {
        return Err(AppError::forbidden("Only the uploader or moderators can delete custom emojis"));
    }
    Ok(())
}

} // verus!
