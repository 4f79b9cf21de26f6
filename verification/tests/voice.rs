use echora::auth::{challenge_is_pending, plan_profile_update, UpdateProfileRequest};
use echora::events::{Plane, ServerEvent};
use echora::models::{JoinVoiceRequest, LeaveVoiceRequest};
use echora::permissions::Role;
use echora::routes::soundboard::{
    authorize_sound_change, check_can_play, check_cooldown, sound_extension, SoundChange,
};
use echora::sfu::service::{choose_announced_ip, SfuService};
use echora::shared::error::{AppError, ErrorKind};
use echora::state::AppState;
use echora::websocket::{decide_upgrade, invalid_token};
use echora::voice::{
    depart_voice, join_voice_channel, join_voice_with, leave_voice_channel, update_screen_share,
    update_speaking_status, update_voice_state,
};

fn setup() -> (AppState, SfuService) {
    (AppState::new(), SfuService::new("127.0.0.1".to_string()))
}

#[test]
fn joining_announces_the_arrival() {
    let (mut hub, mut sfu) = setup();
    let (state, change) =
        join_voice_with(&mut hub, &mut sfu, 1, "alice".to_string(), None, 10, 77, 1234);
    assert_eq!(state.user_id, 1);
    assert_eq!(state.channel_id, 10);
    assert_eq!(state.session_id, 77);
    assert_eq!(state.joined_at, 1234);
    assert!(!state.is_muted && !state.is_deafened);
    assert!(!state.is_screen_sharing && !state.is_camera_sharing);
    assert_eq!(change.events.len(), 1);
    assert_eq!(change.events[0].plane, Plane::Global);
    assert_eq!(change.events[0].event.event_type(), "voice_user_joined");
    assert!(change.closed.is_empty());
    assert_eq!(hub.find_voice_channel(1), Some(10));
}

#[test]
fn joining_another_channel_evicts_and_closes() {
    let (mut hub, mut sfu) = setup();
    join_voice_with(&mut hub, &mut sfu, 1, "alice".to_string(), None, 10, 77, 1);
    sfu.create_transport(10, 1, 100, 5).outcome.unwrap();
    sfu.create_transport(20, 1, 300, 5).outcome.unwrap();
    let (state, change) =
        join_voice_channel(&mut hub, &mut sfu, 1, "alice".to_string(), None, JoinVoiceRequest {
            channel_id: 20,
        });
    assert_eq!(state.channel_id, 20);
    assert_eq!(change.events.len(), 2);
    match &change.events[0].event {
        ServerEvent::VoiceUserLeft { user_id, channel_id } => {
            assert_eq!((*user_id, *channel_id), (1, 10));
        }
        other => panic!("unexpected event {:?}", other),
    }
    assert_eq!(change.events[1].event.event_type(), "voice_user_joined");
    assert_eq!(change.closed.len(), 1);
    assert_eq!(change.closed[0].transport_id, 100);
    assert!(sfu.verify_transport_owner(300, 1).is_ok());
    assert_eq!(hub.all_voice_states().len(), 1);
    assert_eq!(hub.find_voice_channel(1), Some(20));
}

#[test]
fn leaving_closes_connections_and_announces() {
    let (mut hub, mut sfu) = setup();
    join_voice_with(&mut hub, &mut sfu, 1, "alice".to_string(), None, 10, 77, 1);
    sfu.create_transport(10, 1, 100, 5).outcome.unwrap();
    let change = leave_voice_channel(&mut hub, &mut sfu, 1, LeaveVoiceRequest { channel_id: 10 });
    assert_eq!(change.events.len(), 1);
    assert_eq!(change.events[0].event.event_type(), "voice_user_left");
    assert_eq!(change.closed.len(), 1);
    assert!(hub.all_voice_states().is_empty());
    let again = leave_voice_channel(&mut hub, &mut sfu, 1, LeaveVoiceRequest { channel_id: 10 });
    assert_eq!(again.events.len(), 1);
    assert!(again.closed.is_empty());
}

#[test]
fn departing_without_membership_is_silent() {
    let (mut hub, mut sfu) = setup();
    let change = depart_voice(&mut hub, &mut sfu, 1);
    assert!(change.events.is_empty());
    assert!(change.closed.is_empty());
}

#[test]
fn rest_updates_need_membership() {
    let (mut hub, mut sfu) = setup();
    let err = update_voice_state(&mut hub, 10, 1, Some(true), None).unwrap_err();
    assert_eq!(err.error_kind(), ErrorKind::NotFound);
    assert_eq!(err.message(), "Not in voice channel");
    assert!(update_screen_share(&mut hub, 10, 1, true).is_err());
    join_voice_with(&mut hub, &mut sfu, 1, "alice".to_string(), None, 10, 77, 1);
    let (state, out) = update_voice_state(&mut hub, 10, 1, Some(true), Some(true)).unwrap();
    assert!(state.is_muted && state.is_deafened);
    assert_eq!(out.event.event_type(), "voice_state_updated");
    let (state, out) = update_screen_share(&mut hub, 10, 1, true).unwrap();
    assert!(state.is_screen_sharing && state.is_muted);
    assert_eq!(out.event.event_type(), "screen_share_updated");
    let out = update_speaking_status(10, 1, true);
    assert_eq!(out.plane, Plane::Global);
    assert_eq!(out.event.event_type(), "voice_speaking");
}

#[test]
fn upgrade_is_refused_for_banned_users() {
    assert!(decide_upgrade(&Ok(())).is_ok());
    let refusal = decide_upgrade(&Err(AppError::forbidden("You are banned from this server"))).unwrap_err();
    assert_eq!((refusal.status, refusal.body), (403, "You are banned"));
    let refusal = decide_upgrade(&Err(AppError::internal("db down"))).unwrap_err();
    assert_eq!((refusal.status, refusal.body), (500, "Server error"));
    let refusal = invalid_token();
    assert_eq!((refusal.status, refusal.body), (401, "Invalid token"));
}

#[test]
fn announced_address_prefers_the_configured_one() {
    assert_eq!(choose_announced_ip(Some("1.2.3.4".to_string()), Some("5.6.7.8".to_string())), "1.2.3.4");
    assert_eq!(choose_announced_ip(None, Some("5.6.7.8".to_string())), "5.6.7.8");
    assert_eq!(choose_announced_ip(None, None), "127.0.0.1");
}

#[test]
fn profile_updates_are_planned() {
    let unchanged = plan_profile_update(
        "alice",
        &UpdateProfileRequest { username: Some(" alice ".to_string()), display_name: None },
    )
    .unwrap();
    assert!(!unchanged.changed());
    let renamed = plan_profile_update(
        "alice",
        &UpdateProfileRequest {
            username: Some("alicia".to_string()),
            display_name: Some(Some("  Alicia  ".to_string())),
        },
    )
    .unwrap();
    assert!(renamed.changed());
    assert_eq!(renamed.username.as_deref(), Some("alicia"));
    assert_eq!(renamed.display_name, Some(Some("Alicia".to_string())));
    let cleared = plan_profile_update(
        "alice",
        &UpdateProfileRequest { username: None, display_name: Some(None) },
    )
    .unwrap();
    assert_eq!(cleared.display_name, Some(None));
    assert!(cleared.changed());
    let err = plan_profile_update(
        "alice",
        &UpdateProfileRequest { username: Some("a".to_string()), display_name: None },
    )
    .unwrap_err();
    assert_eq!(err.status_code(), 400);
    assert_eq!(err.message(), "Username must be between 2 and 32 characters");
    let err = plan_profile_update(
        "alice",
        &UpdateProfileRequest { username: Some("al ice".to_string()), display_name: Some(None) },
    )
    .unwrap_err();
    assert_eq!(
        err.message(),
        "Username can only contain ASCII letters, numbers, underscores, and hyphens"
    );
    let err = plan_profile_update(
        "alice",
        &UpdateProfileRequest { username: None, display_name: Some(Some(" ".to_string())) },
    )
    .unwrap_err();
    assert_eq!(err.message(), "Display name must be between 1 and 64 characters");
    let err = plan_profile_update(
        "alice",
        &UpdateProfileRequest {
            username: Some("alicia".to_string()),
            display_name: Some(Some("d".repeat(65))),
        },
    )
    .unwrap_err();
    assert_eq!(err.message(), "Display name must be between 1 and 64 characters");
    assert!(challenge_is_pending(100, 399));
    assert!(!challenge_is_pending(100, 400));
    assert!(challenge_is_pending(100, 50));
}

#[test]
fn sounds_are_played_by_members_who_hear() {
    let (mut hub, mut sfu) = setup();
    let err = check_can_play(&hub, 10, 1).unwrap_err();
    assert_eq!(err.message(), "You are not in a voice channel");
    join_voice_with(&mut hub, &mut sfu, 2, "bob".to_string(), None, 10, 78, 1);
    let err = check_can_play(&hub, 10, 1).unwrap_err();
    assert_eq!(err.status_code(), 400);
    assert_eq!(err.message(), "You are not in this voice channel");
    join_voice_with(&mut hub, &mut sfu, 1, "alice".to_string(), None, 10, 77, 1);
    assert!(check_can_play(&hub, 10, 1).is_ok());
    update_voice_state(&mut hub, 10, 1, None, Some(true)).unwrap();
    let err = check_can_play(&hub, 10, 1).unwrap_err();
    assert_eq!(err.message(), "Cannot play sounds while deafened");
}

#[test]
fn sounds_rest_for_five_seconds() {
    assert!(check_cooldown(None, 100).is_ok());
    assert!(check_cooldown(Some(100), 105).is_ok());
    let err = check_cooldown(Some(100), 104).unwrap_err();
    assert_eq!(err.message(), "This sound is on cooldown");
    assert!(check_cooldown(Some(100), 90).is_err());
    assert_eq!(sound_extension("audio/ogg"), "ogg");
    assert_eq!(sound_extension("audio/wav"), "wav");
    assert_eq!(sound_extension("audio/mpeg"), "mp3");
    assert_eq!(sound_extension("other"), "mp3");
    assert!(authorize_sound_change(1, 1, Role::Member, SoundChange::Edit).is_ok());
    assert!(authorize_sound_change(1, 2, Role::Moderator, SoundChange::Delete).is_ok());
    let err = authorize_sound_change(1, 2, Role::Member, SoundChange::Edit).unwrap_err();
    assert_eq!(err.status_code(), 403);
    assert_eq!(err.message(), "Only the uploader or moderators can edit sounds");
    let err = authorize_sound_change(1, 2, Role::Member, SoundChange::Delete).unwrap_err();
    assert_eq!(err.message(), "Only the uploader or moderators can delete sounds");
}
