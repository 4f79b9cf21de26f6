//! The entities of the platform, as plain data. Identifiers are 128-bit
//! values; instants are microseconds since the Unix epoch.

use vstd::prelude::*;
use crate::ids::{fresh_id, id_text, now, uuid_text, Id, Timestamp};
use crate::permissions::Role;

verus! {

/// A copy of an optional string.
pub fn copy_opt_string(o: &Option<String>) -> (r: Option<String>)
    ensures
        r == *o,
{
    match o {
        Some(s) => Some(s.clone()),
        None => None,
    }
}

/// The two kinds of channel.
#[derive(Debug, Clone, Copy, PartialEq, Eq, Structural)]
pub enum ChannelType {
    Text,
    Voice,
}

impl ChannelType {
    /// The lower-case name of a channel type.
    pub open spec fn name(self) -> Seq<char> {
        match self {
            ChannelType::Text => "text"@,
            ChannelType::Voice => "voice"@,
        }
    }

    /// The lower-case name of this channel type.
    pub fn as_str(self) -> (s: &'static str)
        ensures
            s@ == self.name(),
    {
        match self {
            ChannelType::Text => "text",
            ChannelType::Voice => "voice",
        }
    }

    /// The lower-case name of this channel type, owned.
    pub fn to_string(self) -> (s: String)
        ensures
            s@ == self.name(),
    {
        String::from_str(self.as_str())
    }
}

/// A text or voice channel.
#[derive(Debug)]
pub struct Channel {
    pub id: Id,
    pub name: String,
    pub channel_type: ChannelType,
}

/// A snapshot of the message that another message replies to.
#[derive(Debug)]
pub struct ReplyPreview {
    pub id: Id,
    pub author: String,
    /// At most 200 characters of the body, plus an ellipsis when cut.
    pub content: String,
}

impl Clone for ReplyPreview {
    fn clone(&self) -> (r: Self)
        ensures
            r == *self,
    {
        ReplyPreview { id: self.id, author: self.author.clone(), content: self.content.clone() }
    }
}

/// One emoji's reactions on a message, as shown to one requester.
#[derive(Debug)]
pub struct Reaction {
    pub emoji: String,
    pub count: i64,
    pub reacted: bool,
}

impl Clone for Reaction {
    fn clone(&self) -> (r: Self)
        ensures
            r == *self,
    {
        Reaction { emoji: self.emoji.clone(), count: self.count, reacted: self.reacted }
    }
}

/// A stored preview of a linked page.
#[derive(Debug)]
pub struct LinkPreview {
    pub id: Id,
    pub url: String,
    pub title: Option<String>,
    pub description: Option<String>,
    pub image_url: Option<String>,
    pub site_name: Option<String>,
}

impl Clone for LinkPreview {
    fn clone(&self) -> (r: Self)
        ensures
            r == *self,
    {
        LinkPreview {
            id: self.id,
            url: self.url.clone(),
            title: copy_opt_string(&self.title),
            description: copy_opt_string(&self.description),
            image_url: copy_opt_string(&self.image_url),
            site_name: copy_opt_string(&self.site_name),
        }
    }
}

/// An uploaded file. It is created without a message and linked to one
/// when its uploader posts it.
#[derive(Debug)]
pub struct Attachment {
    pub id: Id,
    pub filename: String,
    pub content_type: String,
    pub size: i64,
    pub storage_path: String,
    pub uploader_id: Id,
    pub message_id: Option<Id>,
    pub created_at: Timestamp,
}

impl Clone for Attachment {
    fn clone(&self) -> (r: Self)
        ensures
            r == *self,
    {
        Attachment {
            id: self.id,
            filename: self.filename.clone(),
            content_type: self.content_type.clone(),
            size: self.size,
            storage_path: self.storage_path.clone(),
            uploader_id: self.uploader_id,
            message_id: self.message_id,
            created_at: self.created_at,
        }
    }
}

/// A custom emoji.
#[derive(Debug)]
pub struct CustomEmoji {
    pub id: Id,
    pub name: String,
    pub uploaded_by: Id,
    pub storage_path: String,
    pub content_type: String,
    pub created_at: Timestamp,
}

/// A chat message, with what was joined to it at read time.
#[derive(Debug)]
pub struct Message {
    pub id: Id,
    pub content: String,
    /// The author's username when the message was sent.
    pub author: String,
    pub author_id: Id,
    pub channel_id: Id,
    pub timestamp: Timestamp,
    pub edited_at: Option<Timestamp>,
    pub reply_to_id: Option<Id>,
    pub reply_to: Option<ReplyPreview>,
    pub reactions: Option<Vec<Reaction>>,
    pub link_previews: Option<Vec<LinkPreview>>,
    pub attachments: Option<Vec<Attachment>>,
}

impl Message {
    /// A new message with the given identity and nothing joined to it.
    pub fn with_identity(
        id: Id,
        timestamp: Timestamp,
        content: String,
        author: String,
        author_id: Id,
        channel_id: Id,
        reply_to_id: Option<Id>,
        reply_to: Option<ReplyPreview>,
    ) -> (m: Self)
        ensures
            m == (Message {
                id,
                content,
                author,
                author_id,
                channel_id,
                timestamp,
                edited_at: None,
                reply_to_id,
                reply_to,
                reactions: None,
                link_previews: None,
                attachments: None,
            }),
    {
        Message {
            id,
            content,
            author,
            author_id,
            channel_id,
            timestamp,
            edited_at: None,
            reply_to_id,
            reply_to,
            reactions: None,
            link_previews: None,
            attachments: None,
        }
    }

    /// A new message, with a fresh identifier and the current time.
    pub fn new(
        content: String,
        author: String,
        author_id: Id,
        channel_id: Id,
        reply_to_id: Option<Id>,
        reply_to: Option<ReplyPreview>,
    ) -> (m: Self)
        ensures
            m == (Message {
                id: m.id,
                content,
                author,
                author_id,
                channel_id,
                timestamp: m.timestamp,
                edited_at: None,
                reply_to_id,
                reply_to,
                reactions: None,
                link_previews: None,
                attachments: None,
            }),
    {
        Message::with_identity(
            fresh_id(),
            now(),
            content,
            author,
            author_id,
            channel_id,
            reply_to_id,
            reply_to,
        )
    }
}

/// The body of a request to post a message.
#[derive(Debug)]
pub struct SendMessageRequest {
    pub content: Option<String>,
    pub reply_to_id: Option<Id>,
    pub attachment_ids: Vec<Id>,
}

/// The body of a request to edit a message.
#[derive(Debug)]
pub struct EditMessageRequest {
    pub content: String,
}

/// A user's membership of a voice channel. It lives as long as the
/// membership does.
#[derive(Debug)]
pub struct VoiceState {
    pub user_id: Id,
    pub username: String,
    pub avatar_url: Option<String>,
    pub channel_id: Id,
    pub session_id: Id,
    pub is_muted: bool,
    pub is_deafened: bool,
    pub is_screen_sharing: bool,
    pub is_camera_sharing: bool,
    pub joined_at: Timestamp,
}

impl Clone for VoiceState {
    fn clone(&self) -> (r: Self)
        ensures
            r == *self,
    {
        VoiceState {
            user_id: self.user_id,
            username: self.username.clone(),
            avatar_url: copy_opt_string(&self.avatar_url),
            channel_id: self.channel_id,
            session_id: self.session_id,
            is_muted: self.is_muted,
            is_deafened: self.is_deafened,
            is_screen_sharing: self.is_screen_sharing,
            is_camera_sharing: self.is_camera_sharing,
            joined_at: self.joined_at,
        }
    }
}

/// The body of a request to join a voice channel.
#[derive(Debug, Clone, Copy)]
pub struct JoinVoiceRequest {
    pub channel_id: Id,
}

/// The body of a request to leave a voice channel.
#[derive(Debug, Clone, Copy)]
pub struct LeaveVoiceRequest {
    pub channel_id: Id,
}

/// A connected user. It lives as long as the user's socket does.
#[derive(Debug)]
pub struct UserPresence {
    pub user_id: Id,
    pub username: String,
    pub avatar_url: Option<String>,
    pub connected_at: Timestamp,
}

impl Clone for UserPresence {
    fn clone(&self) -> (r: Self)
        ensures
            r == *self,
    {
        UserPresence {
            user_id: self.user_id,
            username: self.username.clone(),
            avatar_url: copy_opt_string(&self.avatar_url),
            connected_at: self.connected_at,
        }
    }
}

/// The body of a request to create a channel.
#[derive(Debug)]
pub struct CreateChannelRequest {
    pub name: String,
    pub channel_type: ChannelType,
}

/// The body of a request to rename a channel.
#[derive(Debug)]
pub struct UpdateChannelRequest {
    pub name: String,
}

/// A user, as listed for moderators.
#[derive(Debug)]
pub struct UserSummary {
    pub id: Id,
    pub username: String,
    pub email: String,
    pub role: Role,
    pub created_at: Timestamp,
    pub avatar_url: Option<String>,
}

/// The path under which a user's avatar is served.
pub open spec fn avatar_url_of(user_id: Id) -> Seq<char> {
    "/api/users/"@ + uuid_text(user_id) + "/avatar"@
}

/// The URL of a user's avatar: present exactly when an avatar is stored.
pub fn avatar_url_from_path(user_id: Id, path: &Option<String>) -> (url: Option<String>)
    ensures
        path is None ==> url is None,
        path is Some ==> url is Some && url->Some_0@ == avatar_url_of(user_id),
{
    match path {
        Some(_) => {
            let mut url = String::from_str("/api/users/");
            url.append(id_text(user_id).as_str());
            url.append("/avatar");
            Some(url)
        },
        None => None,
    }
}

/// A ban: while it is active the user may not log in or connect.
#[derive(Debug)]
pub struct Ban {
    pub id: Id,
    pub user_id: Id,
    pub banned_by: Id,
    pub reason: Option<String>,
    /// `None` means permanent.
    pub expires_at: Option<Timestamp>,
    pub created_at: Timestamp,
}

/// A mute: while it is active the user may not post.
#[derive(Debug)]
pub struct Mute {
    pub id: Id,
    pub user_id: Id,
    pub muted_by: Id,
    pub reason: Option<String>,
    /// `None` means permanent.
    pub expires_at: Option<Timestamp>,
    pub created_at: Timestamp,
}

/// An invite code and its use so far.
#[derive(Debug)]
pub struct Invite {
    pub id: Id,
    pub code: String,
    pub created_by: Id,
    /// `None` means unlimited.
    pub max_uses: Option<i32>,
    pub uses: i32,
    /// `None` means it never expires.
    pub expires_at: Option<Timestamp>,
    pub revoked: bool,
    pub created_at: Timestamp,
}

/// The moderation actions that are logged.
#[derive(Debug, Clone, Copy, PartialEq, Eq, Structural)]
pub enum ModAction {
    Kick,
    Ban,
    Unban,
    Mute,
    Unmute,
    RoleChange,
}

impl ModAction {
    /// The snake-case name of an action.
    pub open spec fn name(self) -> Seq<char> {
        match self {
            ModAction::Kick => "kick"@,
            ModAction::Ban => "ban"@,
            ModAction::Unban => "unban"@,
            ModAction::Mute => "mute"@,
            ModAction::Unmute => "unmute"@,
            ModAction::RoleChange => "role_change"@,
        }
    }

    /// The snake-case name of this action.
    pub fn as_str(self) -> (s: &'static str)
        ensures
            s@ == self.name(),
    {
        match self {
            ModAction::Kick => "kick",
            ModAction::Ban => "ban",
            ModAction::Unban => "unban",
            ModAction::Mute => "mute",
            ModAction::Unmute => "unmute",
            ModAction::RoleChange => "role_change",
        }
    }

    /// The snake-case name of this action, owned.
    pub fn to_string(self) -> (s: String)
        ensures
            s@ == self.name(),
    {
        String::from_str(self.as_str())
    }
}

/// One line of the append-only moderation log.
#[derive(Debug)]
pub struct ModLogEntry {
    pub id: Id,
    pub action: ModAction,
    pub moderator_id: Id,
    pub target_user_id: Id,
    pub reason: Option<String>,
    pub details: Option<String>,
    pub created_at: Timestamp,
}

impl ModLogEntry {
    /// A log entry with the given identity.
    pub fn with_identity(
        id: Id,
        created_at: Timestamp,
        action: ModAction,
        moderator_id: Id,
        target_user_id: Id,
        reason: Option<String>,
        details: Option<String>,
    ) -> (e: Self)
        ensures
            e == (ModLogEntry {
                id,
                action,
                moderator_id,
                target_user_id,
                reason,
                details,
                created_at,
            }),
    {
        ModLogEntry { id, action, moderator_id, target_user_id, reason, details, created_at }
    }

    /// A log entry with a fresh identifier and the current time.
    pub fn new(
        action: ModAction,
        moderator_id: Id,
        target_user_id: Id,
        reason: Option<String>,
        details: Option<String>,
    ) -> (e: Self)
        ensures
            e == (ModLogEntry {
                id: e.id,
                action,
                moderator_id,
                target_user_id,
                reason,
                details,
                created_at: e.created_at,
            }),
    {
        ModLogEntry::with_identity(
            fresh_id(),
            now(),
            action,
            moderator_id,
            target_user_id,
            reason,
            details,
        )
    }
}

/// The body of a request to ban a user.
#[derive(Debug)]
pub struct BanRequest {
    pub user_id: Id,
    pub reason: Option<String>,
    pub duration_hours: Option<i64>,
}

/// The body of a request to mute a user.
#[derive(Debug)]
pub struct MuteRequest {
    pub user_id: Id,
    pub reason: Option<String>,
    pub duration_hours: Option<i64>,
}

/// The body of a request to kick a user.
#[derive(Debug)]
pub struct KickRequest {
    pub user_id: Id,
    pub reason: Option<String>,
}

/// The body of a request to change a user's role.
#[derive(Debug, Clone, Copy)]
pub struct RoleChangeRequest {
    pub role: Role,
}

/// The body of a request to create an invite.
#[derive(Debug, Clone, Copy)]
pub struct CreateInviteRequest {
    pub max_uses: Option<i32>,
    pub expires_in_hours: Option<i64>,
}

/// The body of a request to change a server setting.
#[derive(Debug)]
pub struct ServerSettingUpdate {
    pub key: String,
    pub value: String,
}

/// A user's token bucket for messages. Tokens are counted in billionths, so
/// that one nanosecond of waiting refills one unit.
#[derive(Debug, Clone, Copy)]
pub struct RateLimitState {
    /// Billionths of a token.
    pub tokens: u64,
    /// When the bucket was last refilled, in nanoseconds of a monotonic clock.
    pub last_refill: u64,
}

} // verus!
