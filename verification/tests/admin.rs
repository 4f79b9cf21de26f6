use echora::admin::invites::{
    create_invite, generate_invite_code, invite_code_from, revoke_invite, use_invite_code,
    validate_invite, INVITE_CHARSET,
};
use echora::admin::moderation::{
    apply_ban, apply_mute, apply_unban, apply_unmute, authorize_moderator, authorize_sanction,
    ban_user, expires_after, kick_user, mute_user, refresh_ban_cache, refresh_mute_cache,
    unban_user, unmute_user, MICROS_PER_HOUR,
};
use echora::admin::modlog::{mod_log_limit, ModLogQuery};
use echora::admin::settings::{update_setting, validate_setting};
use echora::admin::users::{authorize_role_change, change_user_role};
use echora::events::{Plane, ServerEvent};
use echora::models::{
    Ban, BanRequest, CreateInviteRequest, Invite, KickRequest, ModAction, Mute, MuteRequest,
    RoleChangeRequest, ServerSettingUpdate,
};
use echora::permissions::Role;
use echora::shared::error::ErrorKind;
use echora::state::AppState;

const ROLES: [Role; 4] = [Role::Member, Role::Moderator, Role::Admin, Role::Owner];

fn invite(max_uses: Option<i32>, uses: i32, expires_at: Option<i64>, revoked: bool) -> Invite {
    Invite {
        id: 1,
        code: "ABCDEFGH".to_string(),
        created_by: 2,
        max_uses,
        uses,
        expires_at,
        revoked,
        created_at: 0,
    }
}

#[test]
fn invite_codes_have_eight_unambiguous_characters() {
    for _ in 0..200 {
        let code = generate_invite_code();
        assert_eq!(code.chars().count(), 8);
        assert!(code.chars().all(|c| INVITE_CHARSET.contains(c)), "{code}");
        assert!(!code.chars().any(|c| "IOilo01".contains(c)));
    }
    assert_eq!(INVITE_CHARSET.len(), 55);
    let a = generate_invite_code();
    let b = generate_invite_code();
    let c = generate_invite_code();
    assert!(a != b || b != c);
}

#[test]
fn creating_invites_needs_a_moderator() {
    let payload = CreateInviteRequest { max_uses: Some(1), expires_in_hours: Some(24) };
    let err = create_invite(7, Role::Member, payload).unwrap_err();
    assert_eq!(err.error_kind(), ErrorKind::Forbidden);
    let inv = create_invite(7, Role::Moderator, payload).unwrap();
    assert_eq!(inv.created_by, 7);
    assert_eq!(inv.max_uses, Some(1));
    assert_eq!(inv.uses, 0);
    assert!(!inv.revoked);
    assert_eq!(inv.expires_at, Some(inv.created_at + 24 * MICROS_PER_HOUR));
    assert_eq!(inv.code.len(), 8);
    let open = create_invite(7, Role::Owner, CreateInviteRequest { max_uses: None, expires_in_hours: None })
        .unwrap();
    assert_eq!((open.max_uses, open.expires_at), (None, None));
}

#[test]
fn invite_limits_must_be_positive() {
    let err = create_invite(7, Role::Admin, CreateInviteRequest { max_uses: Some(0), expires_in_hours: None })
        .unwrap_err();
    assert_eq!(err.error_kind(), ErrorKind::BadRequest);
    assert_eq!(err.message(), "max_uses must be a positive number");
    let err = create_invite(7, Role::Admin, CreateInviteRequest { max_uses: Some(1), expires_in_hours: Some(0) })
        .unwrap_err();
    assert_eq!(err.message(), "expires_in_hours must be a positive number");
}

#[test]
fn revoked_invite_is_rejected_even_with_uses_left() {
    let inv = invite(Some(5), 0, None, true);
    assert!(!inv.is_usable(100));
    assert!(!validate_invite(&Some(inv), 100));
    let mut inv = invite(Some(5), 0, None, false);
    assert!(inv.is_usable(100));
    inv.revoke();
    assert!(inv.revoked);
    assert!(inv.consume(100).is_err());
    inv.revoke();
    assert!(inv.revoked);
    assert_eq!(inv.uses, 0);
}

#[test]
fn invite_expiring_now_is_expired() {
    assert!(!invite(None, 0, Some(100), false).is_usable(100));
    assert!(invite(None, 0, Some(101), false).is_usable(100));
    assert!(!invite(None, 0, Some(99), false).is_usable(100));
    assert!(invite(None, 0, None, false).is_usable(i64::MAX));
}

#[test]
fn unknown_invite_is_simply_not_valid() {
    assert!(!validate_invite(&None, 100));
    assert!(validate_invite(&Some(invite(None, 0, None, false)), 100));
    assert!(!validate_invite(&Some(invite(Some(2), 2, None, false)), 100));
    let mut unknown: Option<Invite> = None;
    let err = use_invite_code(&mut unknown, 100).unwrap_err();
    assert!(unknown.is_none());
    assert_eq!(err.status_code(), 400);
    assert_eq!(err.message(), "Invalid, expired, or fully used invite code");
}

#[test]
fn one_use_code_is_used_exactly_once() {
    let mut found = Some(invite(Some(1), 0, Some(1000), false));
    let mut successes = 0;
    for attempt in 0..50 {
        if use_invite_code(&mut found, 100 + attempt).is_ok() {
            successes += 1;
        }
    }
    assert_eq!(successes, 1);
    let mut inv = found.unwrap();
    assert_eq!(inv.uses, 1);
    let err = inv.consume(100).unwrap_err();
    assert_eq!(err.error_kind(), ErrorKind::BadRequest);
    assert_eq!(err.message(), "Invalid, expired, or fully used invite code");
}

#[test]
fn unlimited_invite_counts_its_uses() {
    let mut inv = invite(None, 0, None, false);
    for _ in 0..10 {
        assert!(inv.consume(5).is_ok());
    }
    assert_eq!(inv.uses, 10);
    let mut full = invite(None, i32::MAX, None, false);
    assert!(full.consume(5).is_err());
    assert_eq!(full.uses, i32::MAX);
}

#[test]
fn expiry_is_hours_after_now() {
    assert_eq!(expires_after(10, None), None);
    assert_eq!(expires_after(10, Some(1)), Some(10 + 3_600_000_000));
    assert_eq!(expires_after(0, Some(48)), Some(172_800_000_000));
    assert_eq!(expires_after(10, Some(i64::MAX)), None);
    assert_eq!(expires_after(i64::MAX, Some(1)), None);
}

#[test]
fn sanctions_need_rank_over_the_target() {
    for actor in ROLES {
        for target in ROLES {
            let r = authorize_sanction(actor, target, &None, None);
            assert_eq!(r.is_ok(), actor.level() >= 1 && actor.level() > target.level());
        }
        assert_eq!(authorize_moderator(actor).is_ok(), actor.level() >= 1);
    }
    let err = authorize_sanction(Role::Member, Role::Member, &None, None).unwrap_err();
    assert_eq!(err.message(), "Requires moderator role or higher");
    let err = authorize_sanction(Role::Moderator, Role::Moderator, &None, None).unwrap_err();
    assert_eq!(err.error_kind(), ErrorKind::Forbidden);
    assert_eq!(err.message(), "Cannot moderate a user with equal or higher role");
    let err = authorize_sanction(Role::Moderator, Role::Owner, &Some("r".repeat(501)), None).unwrap_err();
    assert_eq!(err.error_kind(), ErrorKind::BadRequest);
    let err = authorize_sanction(Role::Admin, Role::Member, &None, Some(0)).unwrap_err();
    assert_eq!(err.message(), "duration_hours must be a positive number");
}

#[test]
fn kick_is_logged_and_announced() {
    let payload = KickRequest { user_id: 9, reason: Some("rude".to_string()) };
    let kick = kick_user(1, Role::Moderator, Role::Member, payload).unwrap();
    assert_eq!(kick.log.action, ModAction::Kick);
    assert_eq!((kick.log.moderator_id, kick.log.target_user_id), (1, 9));
    assert_eq!(kick.log.reason.as_deref(), Some("rude"));
    assert!(kick.log.details.is_none());
    assert_eq!(kick.event.plane, Plane::Global);
    match kick.event.event {
        ServerEvent::UserKicked { user_id, reason } => {
            assert_eq!(user_id, 9);
            assert_eq!(reason.as_deref(), Some("rude"));
        }
        other => panic!("unexpected {:?}", other),
    }
    let payload = KickRequest { user_id: 9, reason: None };
    assert!(kick_user(1, Role::Member, Role::Member, payload).is_err());
}

#[test]
fn ban_has_a_row_a_log_entry_and_an_event() {
    let payload = BanRequest { user_id: 9, reason: Some("spam".to_string()), duration_hours: Some(12) };
    let order = ban_user(1, Role::Admin, Role::Moderator, payload).unwrap();
    assert_eq!(order.ban.user_id, 9);
    assert_eq!(order.ban.banned_by, 1);
    assert_eq!(order.ban.reason.as_deref(), Some("spam"));
    assert_eq!(order.ban.expires_at, Some(order.ban.created_at + 12 * MICROS_PER_HOUR));
    assert!(order.ban.is_active(order.ban.created_at));
    assert_eq!(order.log.action, ModAction::Ban);
    assert_eq!(order.log.details.as_deref(), Some("duration: 12 hours"));
    assert_eq!(order.event.event.event_type(), "user_banned");
    let forever = ban_user(1, Role::Admin, Role::Member, BanRequest {
        user_id: 9,
        reason: None,
        duration_hours: None,
    })
    .unwrap();
    assert!(forever.ban.expires_at.is_none());
    assert!(forever.log.details.is_none());
    assert!(forever.ban.is_active(i64::MAX));
    let payload = BanRequest { user_id: 9, reason: None, duration_hours: None };
    assert!(ban_user(1, Role::Admin, Role::Admin, payload).is_err());
    let payload = BanRequest { user_id: 9, reason: None, duration_hours: Some(-1) };
    assert_eq!(
        ban_user(1, Role::Admin, Role::Member, payload).unwrap_err().error_kind(),
        ErrorKind::BadRequest
    );
}

#[test]
fn mute_event_carries_the_expiry() {
    let payload = MuteRequest { user_id: 9, reason: None, duration_hours: Some(1) };
    let order = mute_user(1, Role::Moderator, Role::Member, payload).unwrap();
    assert_eq!(order.mute.muted_by, 1);
    assert_eq!(order.log.action, ModAction::Mute);
    assert_eq!(order.log.details.as_deref(), Some("duration: 1 hours"));
    match order.event.event {
        ServerEvent::UserMuted { user_id, reason, expires_at } => {
            assert_eq!(user_id, 9);
            assert!(reason.is_none());
            assert_eq!(expires_at, order.mute.expires_at);
            assert_eq!(expires_at, Some(order.mute.created_at + MICROS_PER_HOUR));
        }
        other => panic!("unexpected {:?}", other),
    }
}

#[test]
fn lifting_needs_a_moderator() {
    assert!(unban_user(1, Role::Member, 9).is_err());
    let lift = unban_user(1, Role::Moderator, 9).unwrap();
    assert_eq!(lift.user_id, 9);
    assert_eq!(lift.log.action, ModAction::Unban);
    assert_eq!(lift.event.event.event_type(), "user_unbanned");
    let lift = unmute_user(1, Role::Owner, 9).unwrap();
    assert_eq!(lift.log.action, ModAction::Unmute);
    assert_eq!(lift.event.event.event_type(), "user_unmuted");
    assert_eq!(unmute_user(1, Role::Member, 9).unwrap_err().status_code(), 403);
}

#[test]
fn cache_mirrors_the_bans_in_force() {
    let mut hub = AppState::new();
    hub.cache_ban(1);
    hub.cache_ban(2);
    hub.cache_mute(7);
    let ban = |user_id, expires_at| Ban { id: 0, user_id, banned_by: 9, reason: None, expires_at, created_at: 0 };
    let bans = vec![ban(2, None), ban(3, Some(200)), ban(4, Some(100)), ban(5, Some(50))];
    refresh_ban_cache(&mut hub, &bans, 100);
    let mut ids = hub.banned_user_ids();
    ids.sort();
    assert_eq!(ids, vec![2, 3]);
    assert!(hub.is_muted(7));
    let mutes = vec![
        Mute { id: 0, user_id: 8, muted_by: 9, reason: None, expires_at: Some(101), created_at: 0 },
        Mute { id: 0, user_id: 6, muted_by: 9, reason: None, expires_at: Some(100), created_at: 0 },
    ];
    assert!(mutes[0].is_active(100));
    assert!(!mutes[1].is_active(100));
    refresh_mute_cache(&mut hub, &mutes, 100);
    assert_eq!(hub.muted_user_ids(), vec![8]);
    assert!(hub.is_banned(2) && hub.is_banned(3));
    refresh_ban_cache(&mut hub, &vec![], 100);
    assert!(hub.banned_user_ids().is_empty());
}

#[test]
fn role_changes_follow_the_lattice() {
    for actor in ROLES {
        for target in ROLES {
            for new_role in ROLES {
                let allowed = actor.level() >= 2
                    && target != Role::Owner
                    && new_role != Role::Owner
                    && actor.level() > new_role.level()
                    && actor.level() > target.level();
                assert_eq!(authorize_role_change(actor, target, new_role).is_ok(), allowed);
            }
        }
    }
    let err = authorize_role_change(Role::Owner, Role::Owner, Role::Member).unwrap_err();
    assert_eq!(err.message(), "Cannot change the owner's role");
    let err = authorize_role_change(Role::Admin, Role::Member, Role::Owner).unwrap_err();
    assert_eq!(err.message(), "Cannot assign the owner role");
    let err = authorize_role_change(Role::Admin, Role::Member, Role::Admin).unwrap_err();
    assert_eq!(err.message(), "Cannot assign a role equal to or above your own");
    let err = authorize_role_change(Role::Admin, Role::Admin, Role::Member).unwrap_err();
    assert_eq!(err.message(), "Cannot moderate a user with equal or higher role");
    let err = authorize_role_change(Role::Moderator, Role::Member, Role::Member).unwrap_err();
    assert_eq!(err.message(), "Requires admin role or higher");
}

#[test]
fn role_change_is_logged_with_both_roles() {
    let change =
        change_user_role(1, Role::Owner, 9, Role::Member, RoleChangeRequest { role: Role::Admin }).unwrap();
    assert_eq!(change.target_user_id, 9);
    assert_eq!(change.new_role, Role::Admin);
    assert_eq!(change.log.action, ModAction::RoleChange);
    assert_eq!(change.log.details.as_deref(), Some(r#"{"from":"member","to":"admin"}"#));
    match change.event.event {
        ServerEvent::UserRoleChanged { user_id, new_role } => {
            assert_eq!((user_id, new_role), (9, Role::Admin));
        }
        other => panic!("unexpected {:?}", other),
    }
    let refused = change_user_role(1, Role::Admin, 9, Role::Owner, RoleChangeRequest { role: Role::Member });
    assert_eq!(refused.unwrap_err().error_kind(), ErrorKind::Forbidden);
}

#[test]
fn settings_are_validated() {
    assert!(validate_setting("registration_mode", "open").is_ok());
    assert!(validate_setting("registration_mode", "invite_only").is_ok());
    let err = validate_setting("registration_mode", "closed").unwrap_err();
    assert_eq!(err.message(), "registration_mode must be 'open' or 'invite_only'");
    assert!(validate_setting("server_name", "Echora").is_ok());
    let err = validate_setting("server_name", "   ").unwrap_err();
    assert_eq!(err.message(), "server_name cannot be empty");
    let err = validate_setting("motd", "hi").unwrap_err();
    assert_eq!(err.error_kind(), ErrorKind::BadRequest);
    assert_eq!(err.message(), "Unknown setting: motd");
}

#[test]
fn settings_need_an_admin() {
    let update = |k: &str, v: &str| ServerSettingUpdate { key: k.to_string(), value: v.to_string() };
    let err = update_setting(Role::Moderator, update("server_name", "x")).unwrap_err();
    assert_eq!(err.error_kind(), ErrorKind::Forbidden);
    let out = update_setting(Role::Admin, update("registration_mode", "invite_only")).unwrap();
    assert_eq!(out.plane, Plane::Global);
    match out.event {
        ServerEvent::SettingsUpdated { key, value } => {
            assert_eq!((key.as_str(), value.as_str()), ("registration_mode", "invite_only"));
        }
        other => panic!("unexpected {:?}", other),
    }
    assert!(update_setting(Role::Owner, update("nope", "x")).is_err());
}

#[test]
fn log_limit_is_clamped() {
    assert_eq!(mod_log_limit(ModLogQuery { limit: None }), 100);
    assert_eq!(mod_log_limit(ModLogQuery { limit: Some(0) }), 1);
    assert_eq!(mod_log_limit(ModLogQuery { limit: Some(-5) }), 1);
    assert_eq!(mod_log_limit(ModLogQuery { limit: Some(250) }), 250);
    assert_eq!(mod_log_limit(ModLogQuery { limit: Some(501) }), 500);
}

#[test]
fn invite_code_spells_the_draws() {
    assert_eq!(invite_code_from(&vec![0, 1, 23, 24, 46, 47, 54, 7]).unwrap(), "ABZaz29H");
    assert_eq!(invite_code_from(&vec![0; 8]).unwrap(), "AAAAAAAA");
    assert!(invite_code_from(&vec![0; 7]).is_none());
    assert!(invite_code_from(&vec![0; 9]).is_none());
    assert!(invite_code_from(&vec![0, 0, 0, 0, 0, 0, 0, 55]).is_none());
}

#[test]
fn second_revoke_is_not_found() {
    let mut found = Some(invite(Some(5), 2, Some(1000), false));
    assert!(revoke_invite(Role::Moderator, &mut found).is_ok());
    let inv = found.as_ref().unwrap();
    assert!(inv.revoked);
    assert_eq!((inv.uses, inv.max_uses, inv.expires_at), (2, Some(5), Some(1000)));
    let err = revoke_invite(Role::Owner, &mut found).unwrap_err();
    assert_eq!(err.status_code(), 404);
    assert_eq!(err.message(), "Invite not found");
    assert!(found.as_ref().unwrap().revoked);
    let mut missing: Option<Invite> = None;
    assert_eq!(revoke_invite(Role::Admin, &mut missing).unwrap_err().status_code(), 404);
    let mut fresh = Some(invite(None, 0, None, false));
    let err = revoke_invite(Role::Member, &mut fresh).unwrap_err();
    assert_eq!(err.status_code(), 403);
    assert!(!fresh.unwrap().revoked);
}

#[test]
fn stored_sanctions_reach_the_cache() {
    let mut hub = AppState::new();
    hub.cache_ban(1);
    let order = ban_user(5, Role::Admin, Role::Member, BanRequest {
        user_id: 9,
        reason: None,
        duration_hours: None,
    })
    .unwrap();
    let (log, event) = apply_ban(&mut hub, order);
    assert_eq!(log.action, ModAction::Ban);
    assert_eq!(event.event.event_type(), "user_banned");
    assert!(hub.is_banned(9) && hub.is_banned(1) && !hub.is_muted(9));
    let lift = unban_user(5, Role::Admin, 9).unwrap();
    let (log, event) = apply_unban(&mut hub, lift);
    assert_eq!(log.action, ModAction::Unban);
    assert_eq!(event.event.event_type(), "user_unbanned");
    assert!(!hub.is_banned(9) && hub.is_banned(1));
    let order = mute_user(5, Role::Admin, Role::Member, MuteRequest {
        user_id: 9,
        reason: None,
        duration_hours: Some(1),
    })
    .unwrap();
    let (log, _) = apply_mute(&mut hub, order);
    assert_eq!(log.action, ModAction::Mute);
    assert!(hub.is_muted(9) && !hub.is_banned(9));
    let (log, event) = apply_unmute(&mut hub, unmute_user(5, Role::Admin, 9).unwrap());
    assert_eq!(log.action, ModAction::Unmute);
    assert_eq!(event.event.event_type(), "user_unmuted");
    assert!(!hub.is_muted(9) && hub.is_banned(1));
}

#[test]
fn long_durations_are_written_out() {
    let order = ban_user(5, Role::Admin, Role::Member, BanRequest {
        user_id: 9,
        reason: None,
        duration_hours: Some(1_000_000),
    })
    .unwrap();
    assert_eq!(order.log.details.as_deref(), Some("duration: 1000000 hours"));
}
