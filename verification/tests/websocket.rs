use echora::events::{Plane, ServerEvent};
use echora::models::Message;
use echora::services::message::CreateMessageResult;
use echora::sfu::service::SfuService;
use echora::shared::error::AppError;
use echora::state::AppState;
use echora::voice::join_voice_with;
use echora::websocket::{
    command_kind, is_targeted, ClientCommand, CommandKind, Connection, Frame, OnFailure,
    Received, SocketAction, SocketInput, PONG_FRAME, SYNC_REQUIRED_FRAME,
};

const USER: u128 = 0x0190_0000_0000_7000_8000_0000_0000_00ab;
const USER_TEXT: &str = "01900000-0000-7000-8000-0000000000ab";

fn connect(hub: &mut AppState) -> Connection {
    let (conn, _) = Connection::open(hub, USER, "alice".to_string(), 42);
    conn
}

fn sent_text(action: &SocketAction) -> (&str, OnFailure) {
    match action {
        SocketAction::Send { frame: Frame::Text(t), on_failure } => (t.as_str(), *on_failure),
        other => panic!("not a text frame: {:?}", other),
    }
}

fn published(action: &SocketAction) -> (Plane, &ServerEvent) {
    match action {
        SocketAction::Publish(out) => (out.plane, &out.event),
        other => panic!("not a publication: {:?}", other),
    }
}

#[test]
fn opening_records_presence_and_announces_it() {
    let mut hub = AppState::new();
    let (conn, out) = Connection::open(&mut hub, USER, "alice".to_string(), 42);
    assert!(conn.open && !conn.subscribed && conn.current_channel.is_none());
    assert_eq!(out.plane, Plane::Global);
    match out.event {
        ServerEvent::UserOnline { user_id, username } => {
            assert_eq!(user_id, USER);
            assert_eq!(username, "alice");
        }
        other => panic!("unexpected {:?}", other),
    }
    assert!(hub.is_online(USER));
    assert_eq!(hub.get_online_users()[0].connected_at, 42);
}

#[test]
fn command_names() {
    assert_eq!(command_kind("message"), Some(CommandKind::Message));
    assert_eq!(command_kind("join"), Some(CommandKind::Join));
    assert_eq!(command_kind("leave"), Some(CommandKind::Leave));
    assert_eq!(command_kind("typing"), Some(CommandKind::Typing));
    assert_eq!(command_kind("voice_state_update"), Some(CommandKind::VoiceStateUpdate));
    assert_eq!(command_kind("voice_speaking"), Some(CommandKind::VoiceSpeaking));
    assert_eq!(command_kind("screen_share_update"), Some(CommandKind::ScreenShareUpdate));
    assert_eq!(command_kind("camera_update"), Some(CommandKind::CameraUpdate));
    assert_eq!(command_kind("ping"), Some(CommandKind::Ping));
    assert_eq!(command_kind("Message"), None);
    assert_eq!(command_kind(""), None);
}

#[test]
fn join_and_leave_move_the_subscription() {
    let mut hub = AppState::new();
    let mut conn = connect(&mut hub);
    let actions = conn.handle(&mut hub, SocketInput::Command(ClientCommand::Join { channel_id: 5 }));
    assert!(matches!(actions.as_slice(), [SocketAction::Subscribe(5)]));
    assert_eq!(conn.current_channel, Some(5));
    assert!(conn.subscribed);
    let actions = conn.handle(&mut hub, SocketInput::Command(ClientCommand::Leave));
    assert!(matches!(actions.as_slice(), [SocketAction::Unsubscribe]));
    assert_eq!(conn.current_channel, None);
    assert!(!conn.subscribed && conn.open);
}

#[test]
fn chat_message_subscribes_then_runs_the_pipeline() {
    let mut hub = AppState::new();
    let mut conn = connect(&mut hub);
    let command = ClientCommand::Message {
        channel_id: 5,
        content: "hi".to_string(),
        reply_to_id: Some(9),
    };
    let actions = conn.handle(&mut hub, SocketInput::Command(command));
    assert_eq!(actions.len(), 2);
    assert!(matches!(actions[0], SocketAction::Subscribe(5)));
    match &actions[1] {
        SocketAction::CreateMessage(p) => {
            assert_eq!(p.user_id, USER);
            assert_eq!(p.username, "alice");
            assert_eq!(p.channel_id, 5);
            assert_eq!(p.content.as_deref(), Some("hi"));
            assert_eq!(p.reply_to_id, Some(9));
            assert!(p.attachment_ids.is_empty());
            assert!(!p.validate_reply_channel);
        }
        other => panic!("unexpected {:?}", other),
    }
    assert_eq!(conn.current_channel, Some(5));
    let again = ClientCommand::Message { channel_id: 5, content: "yo".to_string(), reply_to_id: None };
    let actions = conn.handle(&mut hub, SocketInput::Command(again));
    assert_eq!(actions.len(), 1);
    assert!(matches!(actions[0], SocketAction::CreateMessage(_)));
}

#[test]
fn muted_user_is_dropped_silently_and_stays_connected() {
    let mut hub = AppState::new();
    let mut conn = connect(&mut hub);
    hub.cache_mute(USER);
    let command = ClientCommand::Message { channel_id: 5, content: "hi".to_string(), reply_to_id: None };
    let actions = conn.handle(&mut hub, SocketInput::Command(command));
    assert!(actions.is_empty());
    assert!(conn.open);
    assert_eq!(conn.current_channel, None);
    hub.uncache_mute(USER);
    let command = ClientCommand::Message { channel_id: 5, content: "hi".to_string(), reply_to_id: None };
    assert_eq!(conn.handle(&mut hub, SocketInput::Command(command)).len(), 2);
}

#[test]
fn created_message_is_published_on_its_channel() {
    let mut hub = AppState::new();
    let mut conn = connect(&mut hub);
    let message = Message::with_identity(1, 2, "hi".to_string(), "alice".to_string(), USER, 5, None, None);
    let actions = conn.handle(
        &mut hub,
        SocketInput::Created(Ok(CreateMessageResult { message, channel_id: 5 })),
    );
    assert_eq!(actions.len(), 1);
    let (plane, event) = published(&actions[0]);
    assert_eq!(plane, Plane::Channel(5));
    assert_eq!(event.event_type(), "message");
    let actions = conn.handle(&mut hub, SocketInput::Created(Err(AppError::bad_request("no"))));
    assert!(actions.is_empty());
    assert!(conn.open);
}

#[test]
fn typing_goes_to_the_current_channel() {
    let mut hub = AppState::new();
    let mut conn = connect(&mut hub);
    let actions = conn.handle(&mut hub, SocketInput::Command(ClientCommand::Typing { channel_id: 7 }));
    let (plane, event) = published(&actions[0]);
    assert_eq!(plane, Plane::Channel(7));
    assert_eq!(event.event_type(), "typing");
    conn.handle(&mut hub, SocketInput::Command(ClientCommand::Join { channel_id: 5 }));
    let actions = conn.handle(&mut hub, SocketInput::Command(ClientCommand::Typing { channel_id: 7 }));
    let (plane, event) = published(&actions[0]);
    assert_eq!(plane, Plane::Channel(5));
    match event {
        ServerEvent::Typing { user_id, username, channel_id } => {
            assert_eq!((*user_id, username.as_str(), *channel_id), (USER, "alice", 5));
        }
        other => panic!("unexpected {:?}", other),
    }
}

#[test]
fn voice_commands_update_the_hub() {
    let mut hub = AppState::new();
    let mut sfu = SfuService::new("127.0.0.1".to_string());
    let mut conn = connect(&mut hub);
    let update = ClientCommand::VoiceStateUpdate { channel_id: 10, is_muted: Some(true), is_deafened: None };
    assert!(conn.handle(&mut hub, SocketInput::Command(update)).is_empty());
    join_voice_with(&mut hub, &mut sfu, USER, "alice".to_string(), None, 10, 1, 1);
    let update = ClientCommand::VoiceStateUpdate { channel_id: 10, is_muted: Some(true), is_deafened: None };
    let actions = conn.handle(&mut hub, SocketInput::Command(update));
    let (plane, event) = published(&actions[0]);
    assert_eq!(plane, Plane::Global);
    match event {
        ServerEvent::VoiceStateUpdated(s) => assert!(s.is_muted && !s.is_deafened),
        other => panic!("unexpected {:?}", other),
    }
    assert!(hub.get_voice_state(10, USER).unwrap().is_muted);
    let share = ClientCommand::ScreenShareUpdate { channel_id: 10, is_screen_sharing: true };
    let actions = conn.handle(&mut hub, SocketInput::Command(share));
    assert_eq!(published(&actions[0]).1.event_type(), "screen_share_updated");
    let camera = ClientCommand::CameraUpdate { channel_id: 10, is_camera_sharing: true };
    let actions = conn.handle(&mut hub, SocketInput::Command(camera));
    assert_eq!(published(&actions[0]).1.event_type(), "camera_updated");
    let speaking = ClientCommand::VoiceSpeaking { channel_id: 10, is_speaking: true };
    let actions = conn.handle(&mut hub, SocketInput::Command(speaking));
    assert_eq!(published(&actions[0]).1.event_type(), "voice_speaking");
    let stored = hub.get_voice_state(10, USER).unwrap();
    assert!(stored.is_screen_sharing && stored.is_camera_sharing);
}

#[test]
fn pings_are_answered() {
    let mut hub = AppState::new();
    let mut conn = connect(&mut hub);
    let actions = conn.handle(&mut hub, SocketInput::Command(ClientCommand::Ping));
    assert_eq!(sent_text(&actions[0]), (PONG_FRAME, OnFailure::Ignore));
    assert_eq!(PONG_FRAME, "{\"type\":\"pong\"}");
    let actions = conn.handle(&mut hub, SocketInput::Ping(vec![1, 2]));
    match &actions[0] {
        SocketAction::Send { frame: Frame::Pong(data), on_failure } => {
            assert_eq!(data, &vec![1, 2]);
            assert_eq!(*on_failure, OnFailure::Ignore);
        }
        other => panic!("unexpected {:?}", other),
    }
    let actions = conn.handle(&mut hub, SocketInput::Tick);
    match &actions[0] {
        SocketAction::Send { frame: Frame::Ping(data), on_failure } => {
            assert!(data.is_empty());
            assert_eq!(*on_failure, OnFailure::Disconnect);
        }
        other => panic!("unexpected {:?}", other),
    }
}

#[test]
fn malformed_frames_are_ignored() {
    let mut hub = AppState::new();
    let mut conn = connect(&mut hub);
    assert!(conn.handle(&mut hub, SocketInput::Malformed).is_empty());
    assert!(conn.handle(&mut hub, SocketInput::Other).is_empty());
    assert!(conn.open);
}

#[test]
fn lag_asks_the_client_to_sync() {
    let mut hub = AppState::new();
    let mut conn = connect(&mut hub);
    let actions = conn.handle(&mut hub, SocketInput::Channel(Received::Lagged(3)));
    assert_eq!(
        sent_text(&actions[0]),
        (r#"{"type":"sync_required","data":{"reason":"lagged"}}"#, OnFailure::Ignore)
    );
    let actions = conn.handle(&mut hub, SocketInput::Global(Received::Lagged(1)));
    assert_eq!(sent_text(&actions[0]), (SYNC_REQUIRED_FRAME, OnFailure::Ignore));
    assert!(conn.open);
}

#[test]
fn broadcasts_are_forwarded() {
    let mut hub = AppState::new();
    let mut conn = connect(&mut hub);
    let actions = conn.handle(&mut hub, SocketInput::Channel(Received::Event("{\"a\":1}".to_string())));
    assert_eq!(sent_text(&actions[0]), ("{\"a\":1}", OnFailure::Disconnect));
    let other = r#"{"type":"user_banned","data":{"user_id":"01900000-0000-7000-8000-0000000000ac"}}"#;
    let actions = conn.handle(&mut hub, SocketInput::Global(Received::Event(other.to_string())));
    assert_eq!(sent_text(&actions[0]), (other, OnFailure::Disconnect));
    assert!(conn.open);
}

#[test]
fn ban_of_this_user_is_forwarded_then_the_loop_ends() {
    let mut hub = AppState::new();
    let mut conn = connect(&mut hub);
    let event = format!(r#"{{"type":"user_banned","data":{{"user_id":"{USER_TEXT}","reason":"spam"}}}}"#);
    let actions = conn.handle(&mut hub, SocketInput::Global(Received::Event(event.clone())));
    assert_eq!(actions.len(), 1);
    assert_eq!(sent_text(&actions[0]), (event.as_str(), OnFailure::Ignore));
    assert!(!conn.open);
}

#[test]
fn kick_targets_are_read_from_the_event() {
    let kicked = format!(r#"{{"type":"user_kicked","data":{{"user_id":"{USER_TEXT}"}}}}"#);
    assert!(is_targeted(&kicked, USER));
    assert!(!is_targeted(&kicked, USER + 1));
    let muted = format!(r#"{{"type":"user_muted","data":{{"user_id":"{USER_TEXT}"}}}}"#);
    assert!(!is_targeted(&muted, USER));
    assert!(!is_targeted("not json", USER));
    assert!(!is_targeted(r#"{"type":"user_kicked"}"#, USER));
    assert!(!is_targeted(r#"{"type":"user_kicked","data":{"user_id":7}}"#, USER));
    assert!(!is_targeted(r#"{"type":7,"data":{"user_id":"x"}}"#, USER));
    let upper = kicked.replace("ab\"", "AB\"");
    assert!(!is_targeted(&upper, USER));
}

#[test]
fn closed_sources_end_or_detach() {
    let mut hub = AppState::new();
    let mut conn = connect(&mut hub);
    conn.handle(&mut hub, SocketInput::Command(ClientCommand::Join { channel_id: 5 }));
    let actions = conn.handle(&mut hub, SocketInput::Channel(Received::Closed));
    assert!(matches!(actions.as_slice(), [SocketAction::Unsubscribe]));
    assert!(conn.open && !conn.subscribed);
    assert_eq!(conn.current_channel, Some(5));
    assert!(conn.handle(&mut hub, SocketInput::Global(Received::Closed)).is_empty());
    assert!(!conn.open);
    let mut second = connect(&mut hub);
    assert!(second.handle(&mut hub, SocketInput::Closed).is_empty());
    assert!(!second.open);
    let mut third = connect(&mut hub);
    assert!(third.handle(&mut hub, SocketInput::SendFailed).is_empty());
    assert!(!third.open);
}

#[test]
fn finishing_cleans_up_voice_sfu_and_presence() {
    let mut hub = AppState::new();
    let mut sfu = SfuService::new("127.0.0.1".to_string());
    let conn = connect(&mut hub);
    join_voice_with(&mut hub, &mut sfu, USER, "alice".to_string(), None, 10, 1, 1);
    join_voice_with(&mut hub, &mut sfu, 2, "bob".to_string(), None, 10, 2, 1);
    sfu.create_transport(10, USER, 100, 5).outcome.unwrap();
    sfu.create_transport(10, 2, 200, 5).outcome.unwrap();
    let end = conn.finish(&mut hub, &mut sfu);
    assert_eq!(end.events.len(), 2);
    match &end.events[0].event {
        ServerEvent::VoiceUserLeft { user_id, channel_id } => {
            assert_eq!((*user_id, *channel_id), (USER, 10));
        }
        other => panic!("unexpected {:?}", other),
    }
    match &end.events[1].event {
        ServerEvent::UserOffline { user_id, username } => {
            assert_eq!((*user_id, username.as_str()), (USER, "alice"));
        }
        other => panic!("unexpected {:?}", other),
    }
    assert_eq!(end.closed.len(), 1);
    assert_eq!(end.closed[0].transport_id, 100);
    assert!(!hub.is_online(USER));
    assert_eq!(hub.all_voice_states().len(), 1);
    assert!(sfu.verify_transport_owner(200, 2).is_ok());
    let idle = connect(&mut hub);
    let end = idle.finish(&mut hub, &mut sfu);
    assert_eq!(end.events.len(), 1);
    assert_eq!(end.events[0].event.event_type(), "user_offline");
}
