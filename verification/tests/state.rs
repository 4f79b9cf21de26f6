use echora::database::{default_channels, default_settings, needs_owner_promotion};
use echora::ids::Id;
use echora::models::{ChannelType, RateLimitState, UserPresence, VoiceState};
use echora::state::{AppState, MESSAGE_RATE_LIMIT, TOKEN};

const SECOND: u64 = 1_000_000_000;

fn voice_state(user_id: Id, channel_id: Id) -> VoiceState {
    VoiceState {
        user_id,
        username: format!("user{user_id}"),
        avatar_url: None,
        channel_id,
        session_id: 1000 + user_id,
        is_muted: false,
        is_deafened: false,
        is_screen_sharing: false,
        is_camera_sharing: false,
        joined_at: 5,
    }
}

fn presence(user_id: Id, name: &str) -> UserPresence {
    UserPresence { user_id, username: name.to_string(), avatar_url: None, connected_at: 1 }
}

fn channels_of(hub: &AppState, user_id: Id) -> Vec<Id> {
    let mut found: Vec<Id> =
        hub.all_voice_states().iter().filter(|s| s.user_id == user_id).map(|s| s.channel_id).collect();
    found.sort();
    found
}

#[test]
fn new_hub_is_empty() {
    let hub = AppState::new();
    assert!(hub.get_online_users().is_empty());
    assert!(hub.all_voice_states().is_empty());
    assert!(!hub.is_banned(1));
    assert!(!hub.is_muted(1));
}

#[test]
fn presence_follows_the_socket() {
    let mut hub = AppState::new();
    hub.add_presence(presence(1, "alice"));
    hub.add_presence(presence(2, "bob"));
    assert!(hub.is_online(1));
    let mut names: Vec<String> = hub.get_online_users().into_iter().map(|p| p.username).collect();
    names.sort();
    assert_eq!(names, vec!["alice".to_string(), "bob".to_string()]);
    hub.remove_presence(1);
    assert!(!hub.is_online(1));
    assert_eq!(hub.get_online_users().len(), 1);
    hub.remove_presence(1);
    assert_eq!(hub.get_online_users().len(), 1);
}

#[test]
fn a_user_sits_in_at_most_one_voice_channel() {
    let mut hub = AppState::new();
    let left = hub.join_voice(voice_state(1, 10));
    assert!(left.is_empty());
    let left = hub.join_voice(voice_state(2, 10));
    assert!(left.is_empty());
    let left = hub.join_voice(voice_state(1, 20));
    assert_eq!(left, vec![10]);
    assert_eq!(channels_of(&hub, 1), vec![20]);
    assert_eq!(channels_of(&hub, 2), vec![10]);
    assert_eq!(hub.find_voice_channel(1), Some(20));
    let left = hub.join_voice(voice_state(1, 20));
    assert_eq!(left, vec![20]);
    assert_eq!(channels_of(&hub, 1), vec![20]);
    assert_eq!(hub.all_voice_states().len(), 2);
}

#[test]
fn leaving_drops_an_empty_channel() {
    let mut hub = AppState::new();
    hub.join_voice(voice_state(1, 10));
    hub.join_voice(voice_state(2, 10));
    assert!(hub.leave_voice(10, 1));
    assert_eq!(hub.get_voice_states(10).len(), 1);
    assert!(!hub.leave_voice(10, 1));
    assert!(!hub.leave_voice(99, 2));
    assert!(hub.leave_voice(10, 2));
    assert!(hub.get_voice_states(10).is_empty());
    assert!(hub.all_voice_states().is_empty());
    assert_eq!(hub.find_voice_channel(2), None);
}

#[test]
fn removing_a_user_reports_the_channel_left() {
    let mut hub = AppState::new();
    hub.join_voice(voice_state(1, 10));
    hub.join_voice(voice_state(2, 20));
    assert_eq!(hub.remove_user_from_voice(1), vec![10]);
    assert!(hub.remove_user_from_voice(1).is_empty());
    assert!(hub.remove_user_from_voice(3).is_empty());
    assert_eq!(hub.all_voice_states().len(), 1);
    assert!(hub.get_voice_state(10, 1).is_none());
    assert!(hub.get_voice_state(20, 2).is_some());
}

#[test]
fn voice_flags_are_updated_in_place() {
    let mut hub = AppState::new();
    hub.join_voice(voice_state(1, 10));
    let s = hub.update_voice_state(10, 1, Some(true), None).unwrap();
    assert!(s.is_muted && !s.is_deafened);
    let s = hub.update_voice_state(10, 1, None, Some(true)).unwrap();
    assert!(s.is_muted && s.is_deafened);
    let s = hub.update_voice_state(10, 1, Some(false), Some(false)).unwrap();
    assert!(!s.is_muted && !s.is_deafened);
    let s = hub.update_screen_share(10, 1, true).unwrap();
    assert!(s.is_screen_sharing && !s.is_camera_sharing);
    let s = hub.update_camera(10, 1, true).unwrap();
    assert!(s.is_screen_sharing && s.is_camera_sharing);
    assert_eq!(s.session_id, 1001);
    let stored = hub.get_voice_state(10, 1).unwrap();
    assert!(stored.is_camera_sharing);
    assert!(hub.update_voice_state(10, 2, Some(true), None).is_none());
    assert!(hub.update_screen_share(11, 1, true).is_none());
    assert!(hub.update_camera(11, 1, true).is_none());
}

#[test]
fn renaming_reaches_presence_and_voice() {
    let mut hub = AppState::new();
    hub.add_presence(presence(1, "alice"));
    hub.add_presence(presence(2, "bob"));
    hub.join_voice(voice_state(1, 10));
    hub.rename_user(1, "alicia");
    assert_eq!(hub.get_voice_state(10, 1).unwrap().username, "alicia");
    let names: Vec<String> = hub
        .get_online_users()
        .into_iter()
        .filter(|p| p.user_id == 1)
        .map(|p| p.username)
        .collect();
    assert_eq!(names, vec!["alicia".to_string()]);
    hub.set_avatar(1, &Some("/api/users/x/avatar".to_string()));
    assert_eq!(
        hub.get_voice_state(10, 1).unwrap().avatar_url.as_deref(),
        Some("/api/users/x/avatar")
    );
    hub.set_avatar(1, &None);
    assert!(hub.get_voice_state(10, 1).unwrap().avatar_url.is_none());
    hub.rename_user(3, "ghost");
    assert_eq!(hub.get_online_users().len(), 2);
}

#[test]
fn ban_and_mute_caches() {
    let mut hub = AppState::new();
    hub.cache_ban(1);
    hub.cache_mute(2);
    assert!(hub.is_banned(1) && !hub.is_banned(2));
    assert!(hub.is_muted(2) && !hub.is_muted(1));
    hub.uncache_ban(1);
    hub.uncache_mute(2);
    assert!(!hub.is_banned(1) && !hub.is_muted(2));
    hub.replace_bans(&vec![3, 4, 3]);
    let mut ids = hub.banned_user_ids();
    ids.sort();
    assert_eq!(ids, vec![3, 4]);
    hub.replace_bans(&vec![4, 5]);
    let mut ids = hub.banned_user_ids();
    ids.sort();
    assert_eq!(ids, vec![4, 5]);
    hub.replace_mutes(&vec![9]);
    assert_eq!(hub.muted_user_ids(), vec![9]);
    hub.replace_mutes(&vec![]);
    assert!(hub.muted_user_ids().is_empty());
}

#[test]
fn bucket_starts_full_and_refills_one_token_per_second() {
    let mut hub = AppState::new();
    let t0 = 50 * SECOND;
    for _ in 0..5 {
        assert!(hub.check_message_rate_limit(1, t0));
    }
    assert!(!hub.check_message_rate_limit(1, t0));
    assert!(!hub.check_message_rate_limit(1, t0 + SECOND / 2));
    assert!(hub.check_message_rate_limit(1, t0 + SECOND));
    assert!(!hub.check_message_rate_limit(1, t0 + SECOND));
    assert!(hub.check_message_rate_limit(2, t0));
}

#[test]
fn at_most_six_messages_in_any_second() {
    let mut hub = AppState::new();
    let t0 = 7 * SECOND;
    let mut allowed = 0;
    for i in 0..1000u64 {
        if hub.check_message_rate_limit(1, t0 + i * (SECOND / 1000)) {
            allowed += 1;
        }
    }
    assert_eq!(allowed, 5);
    if hub.check_message_rate_limit(1, t0 + SECOND) {
        allowed += 1;
    }
    assert_eq!(allowed, 6);
}

#[test]
fn bucket_never_holds_more_than_five_tokens() {
    let mut hub = AppState::new();
    assert!(hub.check_message_rate_limit(1, 0));
    let later = 3600 * SECOND;
    let mut allowed = 0;
    for _ in 0..10 {
        if hub.check_message_rate_limit(1, later) {
            allowed += 1;
        }
    }
    assert_eq!(allowed, 5);
}

#[test]
fn bucket_arithmetic_is_exact() {
    let mut b = RateLimitState::full(10);
    assert_eq!(b.tokens, MESSAGE_RATE_LIMIT);
    assert!(b.request(10));
    assert_eq!(b.tokens, 4 * TOKEN);
    assert!(b.request(10 + 300));
    assert_eq!(b.tokens, 3 * TOKEN + 300);
    assert_eq!(b.last_refill, 310);
    let mut empty = RateLimitState { tokens: 0, last_refill: 100 };
    assert!(!empty.request(100 + SECOND - 1));
    assert_eq!(empty.tokens, SECOND - 1);
    assert!(empty.request(100 + SECOND));
    assert_eq!(empty.tokens, 0);
    let mut back = RateLimitState { tokens: TOKEN, last_refill: 500 };
    assert!(back.request(400));
    assert_eq!((back.tokens, back.last_refill), (0, 400));
}

#[test]
fn a_new_server_has_four_channels_and_two_settings() {
    let channels = default_channels();
    let names: Vec<&str> = channels.iter().map(|c| c.0).collect();
    assert_eq!(names, vec!["general", "random", "announcements", "General Voice"]);
    assert_eq!(channels[3].1, ChannelType::Voice);
    assert_eq!(channels[0].1, ChannelType::Text);
    assert_eq!(default_settings(), vec![("server_name", "Echora"), ("registration_mode", "open")]);
    assert!(needs_owner_promotion(0, 3));
    assert!(!needs_owner_promotion(0, 0));
    assert!(!needs_owner_promotion(1, 3));
}

#[test]
fn an_overfull_bucket_counts_as_full() {
    let mut b = RateLimitState { tokens: 9 * TOKEN, last_refill: 0 };
    assert!(b.request(0));
    assert_eq!(b.tokens, 4 * TOKEN);
}
