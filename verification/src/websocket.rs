//! The fan-out fabric, as seen from one connection. The connection decides
//! what to do with each thing that reaches it: a frame from its client, a
//! keepalive tick, an event on its channel or on the global plane. Its
//! caller reads the sources, hands each item in, and carries the actions
//! out.

use vstd::prelude::*;
use crate::events::{Outbound, Plane, ServerEvent};
use crate::ids::{id_text, uuid_text, Id, Timestamp};
use crate::models::{copy_opt_string, UserPresence, VoiceState};
use crate::services::message::{CreateMessageParams, CreateMessageResult};
use crate::sfu::models::ParticipantConnection;
use crate::sfu::service::{closed_from, SfuService};
use crate::shared::error::AppError;
use crate::shared::text::str_eq;
use crate::state::{
    channel_of, departures, in_channel, with_flags, without_user, AppState,
};
use crate::tables::voice_with;

verus! {

/// The seconds between two keepalive pings.
pub const PING_INTERVAL_SECS: u64 = 30;

/// The frame that tells a client to reload after it missed events.
pub const SYNC_REQUIRED_FRAME: &'static str =
    "{\"type\":\"sync_required\",\"data\":{\"reason\":\"lagged\"}}";

/// The frame that answers a client's ping command.
pub const PONG_FRAME: &'static str = "{\"type\":\"pong\"}";

/// The string that a JSON document holds at a JSON pointer, if the
/// document parses and holds a string there.
pub uninterp spec fn json_text_at(document: Seq<char>, pointer: Seq<char>) -> Option<Seq<char>>;

/// `serde_json::from_str`, then `Value::pointer` and `Value::as_str`: the
/// string found depends on the two texts alone.
#[verifier::external_body]
pub(crate) fn json_string_at(document: &str, pointer: &str) -> (found: Option<String>)
    ensures
        found is Some == json_text_at(document@, pointer@) is Some,
        found is Some ==> found->Some_0@ == json_text_at(document@, pointer@)->Some_0,
{
    let value: serde_json::Value = serde_json::from_str(document).ok()?;
    value.pointer(pointer).and_then(|v| v.as_str()).map(|s| s.to_string())
}

/// The query of the socket upgrade.
#[derive(Debug)]
pub struct WsQuery {
    pub token: String,
}

/// Why an upgrade to a socket is refused.
#[derive(Debug)]
pub struct Refusal {
    pub status: u16,
    pub body: &'static str,
}

/// The refusal of an upgrade whose token does not decode.
pub fn invalid_token() -> (r: Refusal)
    ensures
        r.status == 401,
        r.body@ == "Invalid token"@,
{
    Refusal { status: 401, body: "Invalid token" }
}

/// Decides an upgrade from the ban check of its user: a banned user is
/// refused, a failed check is a server error, and anyone else is upgraded.
pub fn decide_upgrade(ban_check: &Result<(), AppError>) -> (r: Result<(), Refusal>)
    ensures
        ban_check is Ok ==> r is Ok,
        ban_check is Err && ban_check->Err_0.kind() == crate::shared::error::ErrorKind::Forbidden
            ==> r is Err && r->Err_0.status == 403 && r->Err_0.body@ == "You are banned"@,
        ban_check is Err && ban_check->Err_0.kind() != crate::shared::error::ErrorKind::Forbidden
            ==> r is Err && r->Err_0.status == 500 && r->Err_0.body@ == "Server error"@,
{
    match ban_check {
        Ok(()) => Ok(()),
        Err(AppError::Forbidden(_)) => Err(Refusal { status: 403, body: "You are banned" }),
        Err(_) => Err(Refusal { status: 500, body: "Server error" }),
    }
}

/// The kinds of command a client sends.
#[derive(Debug, Clone, Copy, PartialEq, Eq, Structural)]
pub enum CommandKind {
    Message,
    Join,
    Leave,
    Typing,
    VoiceStateUpdate,
    VoiceSpeaking,
    ScreenShareUpdate,
    CameraUpdate,
    Ping,
}

/// The command kind that a `message_type` names, if any.
pub open spec fn kind_named(message_type: Seq<char>) -> Option<CommandKind> {
    if message_type == "message"@ {
        Some(CommandKind::Message)
    } else if message_type == "join"@ {
        Some(CommandKind::Join)
    } else if message_type == "leave"@ {
        Some(CommandKind::Leave)
    } else if message_type == "typing"@ {
        Some(CommandKind::Typing)
    } else if message_type == "voice_state_update"@ {
        Some(CommandKind::VoiceStateUpdate)
    } else if message_type == "voice_speaking"@ {
        Some(CommandKind::VoiceSpeaking)
    } else if message_type == "screen_share_update"@ {
        Some(CommandKind::ScreenShareUpdate)
    } else if message_type == "camera_update"@ {
        Some(CommandKind::CameraUpdate)
    } else if message_type == "ping"@ {
        Some(CommandKind::Ping)
    } else {
        None
    }
}

/// Reads the kind of a command from its `message_type`. A frame of an
/// unknown type is ignored.
pub fn command_kind(message_type: &str) -> (kind: Option<CommandKind>)
    ensures
        kind == kind_named(message_type@),
{
    if str_eq(message_type, "message") {
        Some(CommandKind::Message)
    } else if str_eq(message_type, "join") {
        Some(CommandKind::Join)
    } else if str_eq(message_type, "leave") {
        Some(CommandKind::Leave)
    } else if str_eq(message_type, "typing") {
        Some(CommandKind::Typing)
    } else if str_eq(message_type, "voice_state_update") {
        Some(CommandKind::VoiceStateUpdate)
    } else if str_eq(message_type, "voice_speaking") {
        Some(CommandKind::VoiceSpeaking)
    } else if str_eq(message_type, "screen_share_update") {
        Some(CommandKind::ScreenShareUpdate)
    } else if str_eq(message_type, "camera_update") {
        Some(CommandKind::CameraUpdate)
    } else if str_eq(message_type, "ping") {
        Some(CommandKind::Ping)
    } else {
        None
    }
}

/// A command from the client, decoded.
#[derive(Debug)]
pub enum ClientCommand {
    Message { channel_id: Id, content: String, reply_to_id: Option<Id> },
    Join { channel_id: Id },
    Leave,
    Typing { channel_id: Id },
    VoiceStateUpdate { channel_id: Id, is_muted: Option<bool>, is_deafened: Option<bool> },
    VoiceSpeaking { channel_id: Id, is_speaking: bool },
    ScreenShareUpdate { channel_id: Id, is_screen_sharing: bool },
    CameraUpdate { channel_id: Id, is_camera_sharing: bool },
    Ping,
}

/// What a broadcast receiver yields.
#[derive(Debug)]
pub enum Received {
    /// An event, as the text that goes on the wire.
    Event(String),
    /// The receiver fell behind and lost this many events.
    Lagged(u64),
    /// The sender is gone.
    Closed,
}

/// One thing that reaches a connection.
#[derive(Debug)]
pub enum SocketInput {
    /// A text frame that holds a command.
    Command(ClientCommand),
    /// A text frame that holds no command: it does not parse, its type is
    /// unknown, or its fields do not fit its type.
    Malformed,
    /// A ping frame.
    Ping(Vec<u8>),
    /// A close frame, or the end of the stream.
    Closed,
    /// Any other frame, or a failed read.
    Other,
    /// The keepalive timer fired.
    Tick,
    /// The channel receiver yielded.
    Channel(Received),
    /// The global receiver yielded.
    Global(Received),
    /// The pipeline ran for a message of this connection.
    Created(Result<CreateMessageResult, AppError>),
    /// A send that had to succeed failed.
    SendFailed,
}

/// A frame to the client.
#[derive(Debug)]
pub enum Frame {
    Text(String),
    Ping(Vec<u8>),
    Pong(Vec<u8>),
}

/// What a failed send means.
#[derive(Debug, Clone, Copy, PartialEq, Eq, Structural)]
pub enum OnFailure {
    /// Nothing: the loop goes on.
    Ignore,
    /// The connection is over: hand in `SocketInput::SendFailed`.
    Disconnect,
}

/// One thing a connection asks of its caller.
#[derive(Debug)]
pub enum SocketAction {
    /// Send a frame to the client.
    Send { frame: Frame, on_failure: OnFailure },
    /// Replace the channel subscription by one to this channel, creating
    /// the channel's plane if it has none.
    Subscribe(Id),
    /// Drop the channel subscription.
    Unsubscribe,
    /// Publish an event.
    Publish(Outbound),
    /// Run the message pipeline, and hand in `SocketInput::Created`.
    CreateMessage(CreateMessageParams),
}

/// One authenticated socket.
#[derive(Debug)]
pub struct Connection {
    pub user_id: Id,
    pub username: String,
    /// The channel the client last joined or posted to.
    pub current_channel: Option<Id>,
    /// Whether a channel receiver is held.
    pub subscribed: bool,
    /// Whether the loop goes on.
    pub open: bool,
}

/// What a connection hands back when it ends.
#[derive(Debug)]
pub struct Disconnection {
    /// The events to publish, in order.
    pub events: Vec<Outbound>,
    /// The SFU connections that were closed.
    pub closed: Vec<ParticipantConnection>,
}

/// Whether a global event is a kick or a ban of this user.
pub open spec fn targets(event: Seq<char>, user_id: Id) -> bool {
    (json_text_at(event, "/type"@) == Some("user_kicked"@) || json_text_at(event, "/type"@)
        == Some("user_banned"@)) && json_text_at(event, "/data/user_id"@) == Some(
        uuid_text(user_id),
    )
}

/// Tells whether a global event is a kick or a ban of this user.
pub fn is_targeted(event: &str, user_id: Id) -> (r: bool)
    ensures
        r == targets(event@, user_id),
{
    let kind = match json_string_at(event, "/type") {
        Some(k) => k,
        None => {
            return false;
        },
    };
    if !(str_eq(kind.as_str(), "user_kicked") || str_eq(kind.as_str(), "user_banned")) {
        return false;
    }
    match json_string_at(event, "/data/user_id") {
        Some(target) => str_eq(target.as_str(), id_text(user_id).as_str()),
        None => false,
    }
}

/// Whether an action sends an empty ping that has to succeed.
pub open spec fn is_keepalive(action: SocketAction) -> bool {
    match action {
        SocketAction::Send { frame: Frame::Ping(data), on_failure } => data@.len() == 0
            && on_failure == OnFailure::Disconnect,
        _ => false,
    }
}

/// Whether an action sends this text with this policy.
pub open spec fn sends_text(action: SocketAction, text: Seq<char>, policy: OnFailure) -> bool {
    match action {
        SocketAction::Send { frame: Frame::Text(t), on_failure } => t@ == text && on_failure
            == policy,
        _ => false,
    }
}

/// Whether the actions are one send of this text with this policy.
pub open spec fn one_text(actions: Seq<SocketAction>, text: Seq<char>, policy: OnFailure) -> bool {
    actions.len() == 1 && sends_text(actions[0], text, policy)
}

/// Whether the actions are one publication of this event on this plane.
pub open spec fn one_event(actions: Seq<SocketAction>, plane: Plane, event: ServerEvent) -> bool {
    actions.len() == 1 && actions[0] == SocketAction::Publish(Outbound { plane, event })
}

/// Whether an action asks for the pipeline to run on a chat command of
/// this connection: as this user, with no attachment, and without the
/// check of the reply's channel.
pub open spec fn asks_to_post(
    action: SocketAction,
    c: Connection,
    channel_id: Id,
    content: String,
    reply_to_id: Option<Id>,
) -> bool {
    match action {
        SocketAction::CreateMessage(p) => {
            &&& p.user_id == c.user_id
            &&& p.username == c.username
            &&& p.channel_id == channel_id
            &&& p.content == Some(content)
            &&& p.reply_to_id == reply_to_id
            &&& p.attachment_ids@.len() == 0
            &&& !p.validate_reply_channel
        },
        _ => false,
    }
}

/// What a connection does with each input.
pub open spec fn handled(
    before: Connection,
    hub_before: &AppState,
    input: SocketInput,
    after: Connection,
    hub_after: &AppState,
    actions: Seq<SocketAction>,
) -> bool {
    let same = after == before;
    let quiet = hub_after.voice() == hub_before.voice();
    match input {
        SocketInput::Command(ClientCommand::Message { channel_id, content, reply_to_id }) => quiet
            && if hub_before.muted().contains(before.user_id) {
            same && actions.len() == 0
        } else if before.current_channel == Some(channel_id) {
            same && actions.len() == 1 && asks_to_post(
                actions[0],
                before,
                channel_id,
                content,
                reply_to_id,
            )
        } else {
            after == (Connection {
                current_channel: Some(channel_id),
                subscribed: true,
                ..before
            }) && actions.len() == 2 && actions[0] == SocketAction::Subscribe(channel_id)
                && asks_to_post(actions[1], before, channel_id, content, reply_to_id)
        },
        SocketInput::Command(ClientCommand::Join { channel_id }) => quiet && after == (Connection {
            current_channel: Some(channel_id),
            subscribed: true,
            ..before
        }) && actions == seq![SocketAction::Subscribe(channel_id)],
        SocketInput::Command(ClientCommand::Leave) => quiet && after == (Connection {
            current_channel: None,
            subscribed: false,
            ..before
        }) && actions == seq![SocketAction::Unsubscribe],
        SocketInput::Command(ClientCommand::Typing { channel_id }) => {
            let target = match before.current_channel {
                Some(c) => c,
                None => channel_id,
            };
            quiet && same && one_event(
                actions,
                Plane::Channel(target),
                ServerEvent::Typing {
                    user_id: before.user_id,
                    username: before.username,
                    channel_id: target,
                },
            )
        },
        SocketInput::Command(
            ClientCommand::VoiceStateUpdate { channel_id, is_muted, is_deafened },
        ) => same && if in_channel(hub_before.voice(), channel_id, before.user_id) {
            let updated = with_flags(
                hub_before.voice()[channel_id][before.user_id],
                is_muted,
                is_deafened,
            );
            hub_after.voice() == voice_with(
                hub_before.voice(),
                channel_id,
                before.user_id,
                updated,
            ) && one_event(actions, Plane::Global, ServerEvent::VoiceStateUpdated(updated))
        } else {
            quiet && actions.len() == 0
        },
        SocketInput::Command(ClientCommand::VoiceSpeaking { channel_id, is_speaking }) => quiet
            && same && one_event(
            actions,
            Plane::Global,
            ServerEvent::VoiceSpeaking { user_id: before.user_id, channel_id, is_speaking },
        ),
        SocketInput::Command(ClientCommand::ScreenShareUpdate { channel_id, is_screen_sharing }) => same
            && if in_channel(hub_before.voice(), channel_id, before.user_id) {
            let updated = VoiceState {
                is_screen_sharing,
                ..hub_before.voice()[channel_id][before.user_id]
            };
            hub_after.voice() == voice_with(
                hub_before.voice(),
                channel_id,
                before.user_id,
                updated,
            ) && one_event(actions, Plane::Global, ServerEvent::ScreenShareUpdated(updated))
        } else {
            quiet && actions.len() == 0
        },
        SocketInput::Command(ClientCommand::CameraUpdate { channel_id, is_camera_sharing }) => same
            && if in_channel(hub_before.voice(), channel_id, before.user_id) {
            let updated = VoiceState {
                is_camera_sharing,
                ..hub_before.voice()[channel_id][before.user_id]
            };
            hub_after.voice() == voice_with(
                hub_before.voice(),
                channel_id,
                before.user_id,
                updated,
            ) && one_event(actions, Plane::Global, ServerEvent::CameraUpdated(updated))
        } else {
            quiet && actions.len() == 0
        },
        SocketInput::Command(ClientCommand::Ping) => quiet && same && one_text(
            actions,
            PONG_FRAME@,
            OnFailure::Ignore,
        ),
        SocketInput::Malformed | SocketInput::Other => quiet && same && actions.len() == 0,
        SocketInput::Ping(data) => quiet && same && actions == seq![
            SocketAction::Send { frame: Frame::Pong(data), on_failure: OnFailure::Ignore },
        ],
        SocketInput::Closed | SocketInput::SendFailed => quiet && after == (Connection {
            open: false,
            ..before
        }) && actions.len() == 0,
        SocketInput::Tick => quiet && same && actions.len() == 1 && is_keepalive(actions[0]),
        SocketInput::Channel(Received::Event(text)) => quiet && same && actions == seq![
            SocketAction::Send { frame: Frame::Text(text), on_failure: OnFailure::Disconnect },
        ],
        SocketInput::Channel(Received::Lagged(_)) => quiet && same && one_text(
            actions,
            SYNC_REQUIRED_FRAME@,
            OnFailure::Ignore,
        ),
        SocketInput::Channel(Received::Closed) => quiet && after == (Connection {
            subscribed: false,
            ..before
        }) && actions == seq![SocketAction::Unsubscribe],
        SocketInput::Global(Received::Event(text)) => quiet && if targets(text@, before.user_id) {
            after == (Connection { open: false, ..before }) && actions == seq![
                SocketAction::Send { frame: Frame::Text(text), on_failure: OnFailure::Ignore },
            ]
        } else {
            same && actions == seq![
                SocketAction::Send {
                    frame: Frame::Text(text),
                    on_failure: OnFailure::Disconnect,
                },
            ]
        },
        SocketInput::Global(Received::Lagged(_)) => quiet && same && one_text(
            actions,
            SYNC_REQUIRED_FRAME@,
            OnFailure::Ignore,
        ),
        SocketInput::Global(Received::Closed) => quiet && after == (Connection {
            open: false,
            ..before
        }) && actions.len() == 0,
        SocketInput::Created(Ok(result)) => quiet && same && one_event(
            actions,
            Plane::Channel(result.channel_id),
            ServerEvent::Message(result.message),
        ),
        SocketInput::Created(Err(_)) => quiet && same && actions.len() == 0,
    }
}

/// A list with one action.
fn one(action: SocketAction) -> (v: Vec<SocketAction>)
    ensures
        v@ == seq![action],
{
    let mut v: Vec<SocketAction> = Vec::new();
    v.push(action);
    assert(v@ =~= seq![action]);
    v
}

/// A list with one publication.
fn publish(plane: Plane, event: ServerEvent) -> (v: Vec<SocketAction>)
    ensures
        one_event(v@, plane, event),
{
    one(SocketAction::Publish(Outbound { plane, event }))
}

/// A list with one text frame.
fn text_frame(text: &str, on_failure: OnFailure) -> (v: Vec<SocketAction>)
    ensures
        one_text(v@, text@, on_failure),
{
    one(SocketAction::Send { frame: Frame::Text(String::from_str(text)), on_failure })
}

impl Connection {
    /// Opens a connection for an authenticated user: the user is recorded
    /// as online, which is to be announced on the global plane.
    pub fn open(hub: &mut AppState, user_id: Id, username: String, now: Timestamp) -> (r: (
        Connection,
        Outbound,
    ))
        ensures
            r.0 == (Connection {
                user_id,
                username,
                current_channel: None,
                subscribed: false,
                open: true,
            }),
            r.1 == (Outbound {
                plane: Plane::Global,
                event: (ServerEvent::UserOnline { user_id, username }),
            }),
            final(hub).presence() == old(hub).presence().insert(
                user_id,
                (UserPresence { user_id, username, avatar_url: None, connected_at: now }),
            ),
            final(hub).same_but_presence(old(hub)),
    {
        hub.add_presence(
            UserPresence { user_id, username: username.clone(), avatar_url: None, connected_at: now },
        );
        let event = ServerEvent::UserOnline { user_id, username: username.clone() };
        (
            Connection { user_id, username, current_channel: None, subscribed: false, open: true },
            Outbound { plane: Plane::Global, event },
        )
    }

    /// Ends a connection: the user leaves their voice channel, their SFU
    /// connections there are closed, and they are no longer online. The
    /// departure is announced first, then that the user is offline.
    pub fn finish(self, hub: &mut AppState, sfu: &mut SfuService) -> (end: Disconnection)
        requires
            old(hub).wf(),
            old(sfu).wf(),
        ensures
            final(hub).wf(),
            final(sfu).wf(),
            final(hub).voice() == without_user(old(hub).voice(), self.user_id),
            final(hub).presence() == old(hub).presence().remove(self.user_id),
            final(hub).banned() == old(hub).banned(),
            final(hub).muted() == old(hub).muted(),
            final(hub).buckets() == old(hub).buckets(),
            crate::voice::sfu_after_departure(
                final(sfu),
                old(sfu),
                channel_of(old(hub).voice(), self.user_id),
                self.user_id,
            ),
            crate::voice::closed_by_departure(
                end.closed@,
                old(sfu),
                channel_of(old(hub).voice(), self.user_id),
                self.user_id,
            ),
            end.events@ == crate::voice::departure_events(
                channel_of(old(hub).voice(), self.user_id),
                self.user_id,
            ).push(
                (Outbound {
                    plane: Plane::Global,
                    event: (ServerEvent::UserOffline {
                        user_id: self.user_id,
                        username: self.username,
                    }),
                }),
            ),
    {
        let change = crate::voice::depart_voice(hub, sfu, self.user_id);
        hub.remove_presence(self.user_id);
        let mut events = change.events;
        events.push(
            Outbound {
                plane: Plane::Global,
                event: ServerEvent::UserOffline { user_id: self.user_id, username: self.username },
            },
        );
        Disconnection { events, closed: change.closed }
    }

    /// Decides what to do with one input.
    pub fn handle(&mut self, hub: &mut AppState, input: SocketInput) -> (actions: Vec<SocketAction>)
        requires
            old(hub).wf(),
        ensures
            final(hub).wf(),
            final(hub).same_but_voice(old(hub)),
            final(self).user_id == old(self).user_id,
            final(self).username == old(self).username,
            handled(*old(self), old(hub), input, *final(self), final(hub), actions@),
    {
        match input {
            SocketInput::Command(command) => self.handle_command(hub, command),
            SocketInput::Malformed | SocketInput::Other => Vec::new(),
            SocketInput::Ping(data) => one(
                SocketAction::Send { frame: Frame::Pong(data), on_failure: OnFailure::Ignore },
            ),
            SocketInput::Closed | SocketInput::SendFailed => {
                self.open = false;
                Vec::new()
            },
            SocketInput::Tick => one(
                SocketAction::Send {
                    frame: Frame::Ping(Vec::new()),
                    on_failure: OnFailure::Disconnect,
                },
            ),
            SocketInput::Channel(received) => match received {
                Received::Event(text) => one(
                    SocketAction::Send {
                        frame: Frame::Text(text),
                        on_failure: OnFailure::Disconnect,
                    },
                ),
                Received::Lagged(_) => text_frame(SYNC_REQUIRED_FRAME, OnFailure::Ignore),
                Received::Closed => {
                    self.subscribed = false;
                    one(SocketAction::Unsubscribe)
                },
            },
            SocketInput::Global(received) => match received {
                Received::Event(text) => {
                    if is_targeted(text.as_str(), self.user_id) {
                        self.open = false;
                        one(
                            SocketAction::Send {
                                frame: Frame::Text(text),
                                on_failure: OnFailure::Ignore,
                            },
                        )
                    } else {
                        one(
                            SocketAction::Send {
                                frame: Frame::Text(text),
                                on_failure: OnFailure::Disconnect,
                            },
                        )
                    }
                },
                Received::Lagged(_) => text_frame(SYNC_REQUIRED_FRAME, OnFailure::Ignore),
                Received::Closed => {
                    self.open = false;
                    Vec::new()
                },
            },
            SocketInput::Created(outcome) => match outcome {
                Ok(result) => publish(
                    Plane::Channel(result.channel_id),
                    ServerEvent::Message(result.message),
                ),
                Err(_) => Vec::new(),
            },
        }
    }

    /// Decides what to do with one command.
    fn handle_command(&mut self, hub: &mut AppState, command: ClientCommand) -> (actions: Vec<
        SocketAction,
    >)
        requires
            old(hub).wf(),
        ensures
            final(hub).wf(),
            final(hub).same_but_voice(old(hub)),
            final(self).user_id == old(self).user_id,
            final(self).username == old(self).username,
            handled(
                *old(self),
                old(hub),
                SocketInput::Command(command),
                *final(self),
                final(hub),
                actions@,
            ),
    {
        match command {
            ClientCommand::Message { channel_id, content, reply_to_id } => {
                if hub.is_muted(self.user_id) {
                    return Vec::new();
                }
                let params = CreateMessageParams {
                    user_id: self.user_id,
                    username: self.username.clone(),
                    channel_id,
                    content: Some(content),
                    reply_to_id,
                    attachment_ids: Vec::new(),
                    validate_reply_channel: false,
                };
                let mut actions: Vec<SocketAction> = Vec::new();
                let already = match self.current_channel {
                    Some(c) => c == channel_id,
                    None => false,
                };
                if !already {
                    self.current_channel = Some(channel_id);
                    self.subscribed = true;
                    actions.push(SocketAction::Subscribe(channel_id));
                }
                actions.push(SocketAction::CreateMessage(params));
                actions
            },
            ClientCommand::Join { channel_id } => {
                self.current_channel = Some(channel_id);
                self.subscribed = true;
                one(SocketAction::Subscribe(channel_id))
            },
            ClientCommand::Leave => {
                self.current_channel = None;
                self.subscribed = false;
                one(SocketAction::Unsubscribe)
            },
            ClientCommand::Typing { channel_id } => {
                let target = match self.current_channel {
                    Some(c) => c,
                    None => channel_id,
                };
                publish(
                    Plane::Channel(target),
                    ServerEvent::Typing {
                        user_id: self.user_id,
                        username: self.username.clone(),
                        channel_id: target,
                    },
                )
            },
            ClientCommand::VoiceStateUpdate { channel_id, is_muted, is_deafened } => {
                match hub.update_voice_state(channel_id, self.user_id, is_muted, is_deafened) {
                    Some(updated) => publish(
                        Plane::Global,
                        ServerEvent::VoiceStateUpdated(updated),
                    ),
                    None => Vec::new(),
                }
            },
            ClientCommand::VoiceSpeaking { channel_id, is_speaking } => publish(
                Plane::Global,
                ServerEvent::VoiceSpeaking { user_id: self.user_id, channel_id, is_speaking },
            ),
            ClientCommand::ScreenShareUpdate { channel_id, is_screen_sharing } => {
                match hub.update_screen_share(channel_id, self.user_id, is_screen_sharing) {
                    Some(updated) => publish(
                        Plane::Global,
                        ServerEvent::ScreenShareUpdated(updated),
                    ),
                    None => Vec::new(),
                }
            },
            ClientCommand::CameraUpdate { channel_id, is_camera_sharing } => {
                match hub.update_camera(channel_id, self.user_id, is_camera_sharing) {
                    Some(updated) => publish(Plane::Global, ServerEvent::CameraUpdated(updated)),
                    None => Vec::new(),
                }
            },
            ClientCommand::Ping => text_frame(PONG_FRAME, OnFailure::Ignore),
        }
    }
}

} // verus!
