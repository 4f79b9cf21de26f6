use echora::ids::Id;
use echora::models::{avatar_url_from_path, Ban, ChannelType, Message, ModAction, ModLogEntry, Mute};
use echora::permissions::{
    can_assign_role, check_not_banned, check_not_muted, is_muted, require_higher_role,
    require_role, Role,
};
use echora::shared::error::{AppError, ErrorKind};

const ROLES: [Role; 4] = [Role::Member, Role::Moderator, Role::Admin, Role::Owner];

fn a_ban(user_id: Id) -> Ban {
    Ban { id: 1, user_id, banned_by: 2, reason: None, expires_at: None, created_at: 0 }
}

fn a_mute(user_id: Id) -> Mute {
    Mute { id: 1, user_id, muted_by: 2, reason: None, expires_at: None, created_at: 0 }
}

#[test]
fn role_levels_are_ordered() {
    assert_eq!(Role::Member.level(), 0);
    assert_eq!(Role::Moderator.level(), 1);
    assert_eq!(Role::Admin.level(), 2);
    assert_eq!(Role::Owner.level(), 3);
    assert!(Role::Member < Role::Moderator);
    assert!(Role::Admin < Role::Owner);
}

#[test]
fn role_names_round_trip() {
    for role in ROLES {
        let parsed: Role = role.to_string().parse().unwrap();
        assert_eq!(parsed, role);
        assert_eq!(Role::parse(role.as_str()).unwrap(), role);
    }
    assert_eq!(Role::Owner.to_string(), "owner");
    assert_eq!(Role::Moderator.as_str(), "moderator");
}

#[test]
fn unknown_role_is_refused() {
    let err = Role::parse("root").unwrap_err();
    assert_eq!(err.error_kind(), ErrorKind::BadRequest);
    assert_eq!(err.message(), "Invalid role: root");
    assert!("Owner".parse::<Role>().is_err());
    let err = "".parse::<Role>().unwrap_err();
    assert_eq!(err.status_code(), 400);
    assert_eq!(err.message(), "Invalid role: ");
    assert_eq!("admin".parse::<Role>().unwrap(), Role::Admin);
    assert_eq!("member".parse::<Role>().unwrap(), Role::Member);
}

#[test]
fn require_role_is_at_least() {
    for user in ROLES {
        for minimum in ROLES {
            let r = require_role(user, minimum);
            if user.level() >= minimum.level() {
                assert_eq!(r.unwrap(), user);
            } else {
                let err = r.unwrap_err();
                assert_eq!(err.error_kind(), ErrorKind::Forbidden);
                assert_eq!(err.message(), format!("Requires {} role or higher", minimum.as_str()));
            }
        }
    }
}

#[test]
fn equal_roles_cannot_moderate_each_other() {
    for actor in ROLES {
        for target in ROLES {
            let r = require_higher_role(actor, target);
            assert_eq!(r.is_ok(), actor.level() > target.level());
        }
        let err = require_higher_role(actor, actor).unwrap_err();
        assert_eq!(err.error_kind(), ErrorKind::Forbidden);
        assert_eq!(err.message(), "Cannot moderate a user with equal or higher role");
    }
}

#[test]
fn owner_role_is_never_assigned() {
    for actor in ROLES {
        let err = can_assign_role(actor, Role::Owner).unwrap_err();
        assert_eq!(err.message(), "Cannot assign the owner role");
    }
    assert!(can_assign_role(Role::Owner, Role::Admin).is_ok());
    assert!(can_assign_role(Role::Admin, Role::Moderator).is_ok());
    let err = can_assign_role(Role::Admin, Role::Admin).unwrap_err();
    assert_eq!(err.message(), "Cannot assign a role equal to or above your own");
    assert!(can_assign_role(Role::Member, Role::Member).is_err());
}

#[test]
fn banned_and_muted_users_are_refused() {
    assert!(check_not_banned(&None).is_ok());
    let err = check_not_banned(&Some(a_ban(7))).unwrap_err();
    assert_eq!(err.status_code(), 403);
    assert_eq!(err.message(), "You are banned from this server");
    assert!(check_not_muted(&None).is_ok());
    let err = check_not_muted(&Some(a_mute(7))).unwrap_err();
    assert_eq!(err.status_code(), 403);
    assert_eq!(err.message(), "You are muted");
}

#[test]
fn failed_mute_lookup_counts_as_not_muted() {
    assert!(is_muted(&Ok(Some(a_mute(7)))));
    assert!(!is_muted(&Ok(None)));
    assert!(!is_muted(&Err(AppError::internal("db down"))));
}

#[test]
fn avatar_url_names_the_user() {
    let id: Id = 0x0190_0000_0000_7000_8000_0000_0000_00ab;
    assert_eq!(avatar_url_from_path(id, &None), None);
    assert_eq!(
        avatar_url_from_path(id, &Some("avatars/x.png".to_string())).unwrap(),
        "/api/users/01900000-0000-7000-8000-0000000000ab/avatar"
    );
}

#[test]
fn names_of_enums() {
    assert_eq!(ChannelType::Text.to_string(), "text");
    assert_eq!(ChannelType::Voice.as_str(), "voice");
    assert_eq!(ModAction::RoleChange.to_string(), "role_change");
    assert_eq!(ModAction::Kick.as_str(), "kick");
    assert_eq!(ModAction::Unmute.as_str(), "unmute");
}

#[test]
fn new_message_has_nothing_joined() {
    let m = Message::new("hi".to_string(), "alice".to_string(), 1, 2, Some(3), None);
    assert_eq!(m.content, "hi");
    assert_eq!(m.author, "alice");
    assert_eq!(m.author_id, 1);
    assert_eq!(m.channel_id, 2);
    assert_eq!(m.reply_to_id, Some(3));
    assert!(m.reply_to.is_none());
    assert!(m.edited_at.is_none());
    assert!(m.reactions.is_none() && m.link_previews.is_none() && m.attachments.is_none());
    assert!(m.timestamp > 1_600_000_000_000_000);
    let n = Message::new("again".to_string(), "alice".to_string(), 1, 2, None, None);
    assert_ne!(m.id, n.id);
    assert_eq!((m.id >> 76) & 0xf, 7);
}

#[test]
fn message_with_identity_is_exact() {
    let m = Message::with_identity(9, 10, "b".to_string(), "a".to_string(), 1, 2, None, None);
    assert_eq!(m.id, 9);
    assert_eq!(m.timestamp, 10);
}

#[test]
fn new_log_entry_keeps_its_fields() {
    let e = ModLogEntry::new(ModAction::Ban, 1, 2, Some("spam".to_string()), None);
    assert_eq!(e.action, ModAction::Ban);
    assert_eq!(e.moderator_id, 1);
    assert_eq!(e.target_user_id, 2);
    assert_eq!(e.reason.as_deref(), Some("spam"));
    assert!(e.details.is_none());
    let f = ModLogEntry::with_identity(5, 6, ModAction::Kick, 1, 2, None, None);
    assert_eq!((f.id, f.created_at), (5, 6));
}
