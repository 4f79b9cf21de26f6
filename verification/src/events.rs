//! The events the server sends to its clients, and the plane each travels on.

use vstd::prelude::*;
use crate::ids::{Id, Timestamp};
use crate::models::{Channel, LinkPreview, Message, VoiceState};
use crate::permissions::Role;
use crate::sfu::models::ProducerInfo;

verus! {

/// The two broadcast planes.
#[derive(Debug, Clone, Copy, PartialEq, Eq, Structural)]
pub enum Plane {
    /// Reaches every connection.
    Global,
    /// Reaches the connections subscribed to one channel.
    Channel(Id),
}

/// A reaction that was added or removed.
#[derive(Debug)]
pub struct ReactionEvent {
    pub message_id: Id,
    pub emoji: String,
    pub user_id: Id,
    pub username: String,
}

/// An event sent from the server to clients.
#[derive(Debug)]
pub enum ServerEvent {
    Message(Message),
    MessageEdited(Message),
    MessageDeleted { id: Id, channel_id: Id },
    ReactionAdded(ReactionEvent),
    ReactionRemoved(ReactionEvent),
    Typing { user_id: Id, username: String, channel_id: Id },
    UserOnline { user_id: Id, username: String },
    UserOffline { user_id: Id, username: String },
    UserRenamed { user_id: Id, old_username: String, new_username: String },
    UserProfileUpdated {
        user_id: Id,
        username: String,
        display_name: Option<String>,
        avatar_url: Option<String>,
    },
    UserAvatarUpdated { user_id: Id, avatar_url: Option<String> },
    ChannelCreated(Channel),
    ChannelUpdated(Channel),
    ChannelDeleted { id: Id },
    VoiceUserJoined(VoiceState),
    VoiceUserLeft { user_id: Id, channel_id: Id },
    VoiceStateUpdated(VoiceState),
    VoiceSpeaking { user_id: Id, channel_id: Id, is_speaking: bool },
    ScreenShareUpdated(VoiceState),
    CameraUpdated(VoiceState),
    NewProducer(ProducerInfo),
    LinkPreviewReady { message_id: Id, channel_id: Id, link_previews: Vec<LinkPreview> },
    UserKicked { user_id: Id, reason: Option<String> },
    UserBanned { user_id: Id, reason: Option<String> },
    UserUnbanned { user_id: Id },
    UserMuted { user_id: Id, reason: Option<String>, expires_at: Option<Timestamp> },
    UserUnmuted { user_id: Id },
    UserRoleChanged { user_id: Id, new_role: Role },
    SettingsUpdated { key: String, value: String },
    SyncRequired,
    Pong,
}

/// An event together with the plane it is published on.
#[derive(Debug)]
pub struct Outbound {
    pub plane: Plane,
    pub event: ServerEvent,
}

impl ServerEvent {
    /// The `type` tag an event carries on the wire.
    pub open spec fn wire_name(&self) -> Seq<char> {
        match self {
            ServerEvent::Message(_) => "message"@,
            ServerEvent::MessageEdited(_) => "message_edited"@,
            ServerEvent::MessageDeleted { .. } => "message_deleted"@,
            ServerEvent::ReactionAdded(_) => "reaction_added"@,
            ServerEvent::ReactionRemoved(_) => "reaction_removed"@,
            ServerEvent::Typing { .. } => "typing"@,
            ServerEvent::UserOnline { .. } => "user_online"@,
            ServerEvent::UserOffline { .. } => "user_offline"@,
            ServerEvent::UserRenamed { .. } => "user_renamed"@,
            ServerEvent::UserProfileUpdated { .. } => "user_profile_updated"@,
            ServerEvent::UserAvatarUpdated { .. } => "user_avatar_updated"@,
            ServerEvent::ChannelCreated(_) => "channel_created"@,
            ServerEvent::ChannelUpdated(_) => "channel_updated"@,
            ServerEvent::ChannelDeleted { .. } => "channel_deleted"@,
            ServerEvent::VoiceUserJoined(_) => "voice_user_joined"@,
            ServerEvent::VoiceUserLeft { .. } => "voice_user_left"@,
            ServerEvent::VoiceStateUpdated(_) => "voice_state_updated"@,
            ServerEvent::VoiceSpeaking { .. } => "voice_speaking"@,
            ServerEvent::ScreenShareUpdated(_) => "screen_share_updated"@,
            ServerEvent::CameraUpdated(_) => "camera_updated"@,
            ServerEvent::NewProducer(_) => "new_producer"@,
            ServerEvent::LinkPreviewReady { .. } => "link_preview_ready"@,
            ServerEvent::UserKicked { .. } => "user_kicked"@,
            ServerEvent::UserBanned { .. } => "user_banned"@,
            ServerEvent::UserUnbanned { .. } => "user_unbanned"@,
            ServerEvent::UserMuted { .. } => "user_muted"@,
            ServerEvent::UserUnmuted { .. } => "user_unmuted"@,
            ServerEvent::UserRoleChanged { .. } => "user_role_changed"@,
            ServerEvent::SettingsUpdated { .. } => "settings_updated"@,
            ServerEvent::SyncRequired => "sync_required"@,
            ServerEvent::Pong => "pong"@,
        }
    }

    /// The `type` tag this event carries on the wire.
    pub fn event_type(&self) -> (name: &'static str)
        ensures
            name@ == self.wire_name(),
    {
        match self {
            ServerEvent::Message(_) => "message",
            ServerEvent::MessageEdited(_) => "message_edited",
            ServerEvent::MessageDeleted { .. } => "message_deleted",
            ServerEvent::ReactionAdded(_) => "reaction_added",
            ServerEvent::ReactionRemoved(_) => "reaction_removed",
            ServerEvent::Typing { .. } => "typing",
            ServerEvent::UserOnline { .. } => "user_online",
            ServerEvent::UserOffline { .. } => "user_offline",
            ServerEvent::UserRenamed { .. } => "user_renamed",
            ServerEvent::UserProfileUpdated { .. } => "user_profile_updated",
            ServerEvent::UserAvatarUpdated { .. } => "user_avatar_updated",
            ServerEvent::ChannelCreated(_) => "channel_created",
            ServerEvent::ChannelUpdated(_) => "channel_updated",
            ServerEvent::ChannelDeleted { .. } => "channel_deleted",
            ServerEvent::VoiceUserJoined(_) => "voice_user_joined",
            ServerEvent::VoiceUserLeft { .. } => "voice_user_left",
            ServerEvent::VoiceStateUpdated(_) => "voice_state_updated",
            ServerEvent::VoiceSpeaking { .. } => "voice_speaking",
            ServerEvent::ScreenShareUpdated(_) => "screen_share_updated",
            ServerEvent::CameraUpdated(_) => "camera_updated",
            ServerEvent::NewProducer(_) => "new_producer",
            ServerEvent::LinkPreviewReady { .. } => "link_preview_ready",
            ServerEvent::UserKicked { .. } => "user_kicked",
            ServerEvent::UserBanned { .. } => "user_banned",
            ServerEvent::UserUnbanned { .. } => "user_unbanned",
            ServerEvent::UserMuted { .. } => "user_muted",
            ServerEvent::UserUnmuted { .. } => "user_unmuted",
            ServerEvent::UserRoleChanged { .. } => "user_role_changed",
            ServerEvent::SettingsUpdated { .. } => "settings_updated",
            ServerEvent::SyncRequired => "sync_required",
            ServerEvent::Pong => "pong",
        }
    }
}

/// An event for every connection.
pub fn broadcast_global(event: ServerEvent) -> (out: Outbound)
    ensures
        out == (Outbound { plane: Plane::Global, event }),
{
    Outbound { plane: Plane::Global, event }
}

/// An event for the subscribers of one channel.
pub fn broadcast_channel(channel_id: Id, event: ServerEvent) -> (out: Outbound)
    ensures
        out == (Outbound { plane: Plane::Channel(channel_id), event }),
{
    Outbound { plane: Plane::Channel(channel_id), event }
}

} // verus!
