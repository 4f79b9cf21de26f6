use std::collections::HashMap;

use echora::auth::{
    avatar_extension, bearer_token, check_registration_mode, claims_for, claims_valid_at, new_user,
    registration_role, require_account, user_info_from_db, validate_login, validate_registration,
    AuthUser, LoginRequest, RegisterRequest, User,
};
use echora::database::{
    enrich_message, enrich_messages, group_by_message, reply_preview, require_rows_affected,
    unique_violation,
};
use echora::events::{broadcast_channel, broadcast_global, Plane, ServerEvent};
use echora::models::{Attachment, CustomEmoji, LinkPreview, Message, Reaction, ReplyPreview};
use echora::permissions::Role;
use echora::routes::attachments::{
    attachment_storage_path, avatar_content_type, avatar_storage_path, check_upload_size,
    emoji_storage_path, require_storage, UploadKind,
};
use echora::routes::custom_emojis::authorize_emoji_delete;
use echora::routes::init::includes_users;
use echora::routes::messages::{
    authorize_delete, message_limit, validate_emoji, verify_message_in_channel,
    verify_message_ownership,
};
use echora::shared::error::ErrorKind;
use echora::shared::password::{hash_password, hashing_outcome, verification_outcome, verify_password};
use echora::storage::{storage_backend, StorageBackend};

fn register(username: &str, email: &str, password: &str, code: Option<&str>) -> RegisterRequest {
    RegisterRequest {
        username: username.to_string(),
        email: email.to_string(),
        password: password.to_string(),
        invite_code: code.map(|c| c.to_string()),
    }
}

fn message(id: u128, author_id: u128, channel_id: u128, reply_to_id: Option<u128>) -> Message {
    Message::with_identity(id, 1, "body".to_string(), "alice".to_string(), author_id, channel_id, reply_to_id, None)
}

#[test]
fn first_user_becomes_owner() {
    let request = register("alice", "a@x.io", "correcthorse", None);
    let (username, email) = validate_registration(&request).unwrap();
    assert_eq!((username.as_str(), email.as_str()), ("alice", "a@x.io"));
    assert!(check_registration_mode("open", &request.invite_code, 0).unwrap().is_none());
    assert!(check_registration_mode("invite_only", &request.invite_code, 0).unwrap().is_none());
    let with_code = Some("ABCDEFGH".to_string());
    assert!(check_registration_mode("invite_only", &with_code, 0).unwrap().is_none());
    assert_eq!(registration_role(0), Role::Owner);
    let user = new_user(1, 2, username, email, "hash".to_string(), 0);
    assert_eq!(user.role, Role::Owner);
    assert_eq!(user.role.to_string(), "owner");
    assert!(user.avatar_path.is_none() && user.display_name.is_none());
    let second = new_user(3, 4, "bob".to_string(), "b@x.io".to_string(), "h".to_string(), 1);
    assert_eq!(second.role, Role::Member);
    assert_eq!(registration_role(17), Role::Member);
}

#[test]
fn invite_only_registration_needs_a_code() {
    let err = check_registration_mode("invite_only", &None, 1).unwrap_err();
    assert_eq!(err.status_code(), 403);
    assert_eq!(err.message(), "Registration requires an invite code");
    let code = check_registration_mode("invite_only", &Some("ABCDEFGH".to_string()), 3).unwrap();
    assert_eq!(code.as_deref(), Some("ABCDEFGH"));
    assert!(check_registration_mode("open", &Some("ABCDEFGH".to_string()), 3).unwrap().is_none());
}

#[test]
fn registration_fields_are_validated_in_order() {
    let err = validate_registration(&register("a", "bad", "short", None)).unwrap_err();
    assert_eq!(err.message(), "Username must be between 2 and 32 characters");
    let err = validate_registration(&register("alice", "bad", "short", None)).unwrap_err();
    assert_eq!(err.message(), "Invalid email address");
    let err = validate_registration(&register("alice", "a@x.io", "short", None)).unwrap_err();
    assert_eq!(err.error_kind(), ErrorKind::BadRequest);
    assert_eq!(err.message(), "Password must be at least 8 characters");
}

#[test]
fn login_failures_all_look_alike() {
    let login = |u: &str, p: &str| LoginRequest { username: u.to_string(), password: p.to_string() };
    assert_eq!(validate_login(&login(" alice ", "pw")).unwrap(), "alice");
    for bad in [login("a", "pw"), login("al ice", "pw"), login("alice", "")] {
        let err = validate_login(&bad).unwrap_err();
        assert_eq!(err.status_code(), 401);
        assert_eq!(err.message(), "Invalid credentials");
    }
    let err = require_account(None).unwrap_err();
    assert_eq!(err.error_kind(), ErrorKind::Authentication);
    assert_eq!(err.message(), "Invalid credentials");
}

#[test]
fn tokens_last_seven_days() {
    let claims = claims_for(7, "alice", Role::Admin, 1_000).unwrap();
    assert_eq!(claims.sub, 7);
    assert_eq!(claims.username, "alice");
    assert_eq!(claims.role, Role::Admin);
    assert_eq!(claims.exp, 1_000 + 604_800);
    assert!(claims_valid_at(&claims, 1_000 + 604_799));
    assert!(!claims_valid_at(&claims, 1_000 + 604_800));
    let err = claims_for(7, "alice", Role::Admin, i64::MAX - 10).unwrap_err();
    assert_eq!(err.error_kind(), ErrorKind::Internal);
    assert_eq!(err.message(), "Failed to compute token expiration");
    assert_eq!(AuthUser(claims).user_id(), 7);
}

#[test]
fn bearer_header_is_read() {
    assert_eq!(bearer_token(Some("Bearer abc.def")).unwrap(), "abc.def");
    assert_eq!(bearer_token(Some("Bearer ")).unwrap(), "");
    let err = bearer_token(None).unwrap_err();
    assert_eq!(err.status_code(), 401);
    assert_eq!(err.message(), "Missing authorization header");
    let err = bearer_token(Some("Basic abc")).unwrap_err();
    assert_eq!(err.message(), "Invalid authorization header format");
    assert!(bearer_token(Some("bearer abc")).is_err());
}

#[test]
fn password_hash_verifies() {
    let hash = hash_password("correcthorse").unwrap();
    assert!(hash.starts_with("$argon2"));
    assert_ne!(hash, "correcthorse");
    assert!(verify_password("correcthorse", &hash).is_ok());
    let err = verify_password("wronghorse", &hash).unwrap_err();
    assert_eq!(err.error_kind(), ErrorKind::Authentication);
    assert_eq!(err.message(), "Invalid password");
    let err = verify_password("correcthorse", "not a hash").unwrap_err();
    assert_eq!(err.error_kind(), ErrorKind::Internal);
    assert!(err.message().starts_with("Failed to parse password hash: "));
    assert_ne!(hash_password("correcthorse").unwrap(), hash);
    let other = hash_password("pässwörd-ünïcode").unwrap();
    assert!(verify_password("pässwörd-ünïcode", &other).is_ok());
    assert!(verify_password("correcthorse", &other).is_err());
    let empty = hash_password("").unwrap();
    assert!(verify_password("", &empty).is_ok());
}

#[test]
fn hasher_outcomes_become_errors() {
    assert_eq!(hashing_outcome(Ok("h".to_string())).unwrap(), "h");
    let err = hashing_outcome(Err("boom".to_string())).unwrap_err();
    assert_eq!(err.message(), "Failed to hash password: boom");
    assert!(verification_outcome(Ok(true)).is_ok());
    assert_eq!(verification_outcome(Ok(false)).unwrap_err().status_code(), 401);
    let err = verification_outcome(Err("bad".to_string())).unwrap_err();
    assert_eq!(err.message(), "Failed to parse password hash: bad");
}

#[test]
fn user_info_shows_the_avatar_url() {
    let user = User {
        id: 0xab,
        username: "alice".to_string(),
        email: "a@x.io".to_string(),
        password_hash: "h".to_string(),
        role: Role::Moderator,
        created_at: 5,
        avatar_path: Some("avatars/a.png".to_string()),
        display_name: Some("Alice".to_string()),
    };
    let info = user_info_from_db(&user);
    assert_eq!(info.username, "alice");
    assert_eq!(info.role, Role::Moderator);
    assert_eq!(info.display_name.as_deref(), Some("Alice"));
    assert_eq!(
        info.avatar_url.as_deref(),
        Some("/api/users/00000000-0000-0000-0000-0000000000ab/avatar")
    );
    assert_eq!(avatar_extension("image/jpeg"), "jpg");
    assert_eq!(avatar_extension("image/gif"), "gif");
    assert_eq!(avatar_extension("image/webp"), "webp");
    assert_eq!(avatar_extension("image/png"), "png");
    assert_eq!(avatar_extension("other"), "png");
}

#[test]
fn store_outcomes_become_errors() {
    assert!(require_rows_affected(1, "Channel not found").is_ok());
    let err = require_rows_affected(0, "Channel not found").unwrap_err();
    assert_eq!(err.status_code(), 404);
    assert_eq!(err.message(), "Channel not found");
    let e = unique_violation("duplicate key value violates unique constraint \"users_username_key\"");
    assert_eq!(e.status_code(), 409);
    assert_eq!(e.message(), "Username already taken");
    let e = unique_violation("duplicate key value violates unique constraint \"users_email_key\"");
    assert_eq!(e.message(), "Email already in use");
    let e = unique_violation("duplicate key");
    assert_eq!(e.error_kind(), ErrorKind::Conflict);
    assert_eq!(e.message(), "User already exists");
}

#[test]
fn reply_snapshot_is_cut_to_200_characters() {
    let p = reply_preview(7, "bob".to_string(), &"r".repeat(201));
    assert_eq!(p.id, 7);
    assert_eq!(p.author, "bob");
    assert_eq!(p.content, format!("{}...", "r".repeat(200)));
    let p = reply_preview(7, "bob".to_string(), &"r".repeat(200));
    assert_eq!(p.content.len(), 200);
}

#[test]
fn rows_are_grouped_by_message_in_order() {
    let rows = vec![(1u128, "a"), (2, "b"), (1, "c"), (3, "d"), (1, "e")];
    let groups = group_by_message(rows);
    assert_eq!(groups.len(), 3);
    assert_eq!(groups[&1], vec!["a", "c", "e"]);
    assert_eq!(groups[&2], vec!["b"]);
    assert_eq!(groups[&3], vec!["d"]);
    let empty: HashMap<u128, Vec<u8>> = group_by_message(vec![]);
    assert!(empty.is_empty());
}

#[test]
fn batches_are_joined_to_the_page() {
    let mut page = vec![message(1, 9, 5, None), message(2, 9, 5, Some(1)), message(3, 9, 5, Some(77))];
    let mut replies = HashMap::new();
    replies.insert(1u128, ReplyPreview { id: 1, author: "alice".to_string(), content: "body".to_string() });
    let mut reactions = HashMap::new();
    reactions.insert(2u128, vec![Reaction { emoji: "👍".to_string(), count: 2, reacted: true }]);
    reactions.insert(3u128, vec![]);
    let mut previews: HashMap<u128, Vec<LinkPreview>> = HashMap::new();
    previews.insert(1, vec![LinkPreview {
        id: 4,
        url: "https://example.com".to_string(),
        title: Some("t".to_string()),
        description: None,
        image_url: None,
        site_name: None,
    }]);
    let mut attachments: HashMap<u128, Vec<Attachment>> = HashMap::new();
    attachments.insert(3, vec![Attachment {
        id: 8,
        filename: "a.png".to_string(),
        content_type: "image/png".to_string(),
        size: 3,
        storage_path: "attachments/8.png".to_string(),
        uploader_id: 9,
        message_id: Some(3),
        created_at: 0,
    }]);
    enrich_messages(&mut page, &replies, &reactions, &previews, &attachments);
    assert_eq!(page.iter().map(|m| m.id).collect::<Vec<_>>(), vec![1, 2, 3]);
    assert!(page[0].reply_to.is_none());
    assert_eq!(page[0].link_previews.as_ref().unwrap()[0].id, 4);
    assert!(page[0].reactions.is_none() && page[0].attachments.is_none());
    assert_eq!(page[1].reply_to.as_ref().unwrap().author, "alice");
    let r = &page[1].reactions.as_ref().unwrap()[0];
    assert_eq!((r.emoji.as_str(), r.count, r.reacted), ("👍", 2, true));
    assert!(page[2].reply_to.is_none());
    assert!(page[2].reactions.is_none());
    assert_eq!(page[2].attachments.as_ref().unwrap()[0].id, 8);
    let mut single = message(2, 9, 5, Some(1));
    enrich_message(&mut single, &replies, &reactions, &previews, &attachments);
    assert_eq!(single.reply_to.unwrap().id, 1);
    assert_eq!(single.content, "body");
}

#[test]
fn only_the_author_or_a_moderator_deletes() {
    let found = Some(message(1, 9, 5, None));
    assert!(authorize_delete(&found, 5, 9, Role::Member).is_ok());
    let err = authorize_delete(&found, 5, 8, Role::Member).unwrap_err();
    assert_eq!(err.status_code(), 403);
    assert_eq!(err.message(), "You can only modify your own messages");
    assert!(authorize_delete(&found, 5, 8, Role::Moderator).is_ok());
    assert!(authorize_delete(&found, 5, 8, Role::Owner).is_ok());
    let err = authorize_delete(&found, 6, 8, Role::Admin).unwrap_err();
    assert_eq!(err.status_code(), 404);
    assert_eq!(err.message(), "Message not found in this channel");
    let err = authorize_delete(&found, 6, 9, Role::Member).unwrap_err();
    assert_eq!(err.message(), "Message not found in this channel");
    let err = authorize_delete(&None, 5, 9, Role::Owner).unwrap_err();
    assert_eq!(err.message(), "Message not found");
    assert!(verify_message_ownership(&found, 5, 9).is_ok());
    assert!(verify_message_ownership(&found, 5, 8).is_err());
    assert!(verify_message_in_channel(&found, 5).is_ok());
    assert_eq!(verify_message_in_channel(&None, 5).unwrap_err().status_code(), 404);
}

#[test]
fn page_size_and_emoji_limits() {
    assert_eq!(message_limit(None), 50);
    assert_eq!(message_limit(Some(0)), 1);
    assert_eq!(message_limit(Some(100)), 100);
    assert_eq!(message_limit(Some(101)), 100);
    assert_eq!(message_limit(Some(i64::MIN)), 1);
    assert!(validate_emoji("👍").is_ok());
    assert!(validate_emoji(&"e".repeat(32)).is_ok());
    let err = validate_emoji("").unwrap_err();
    assert_eq!(err.message(), "Emoji must be between 1 and 32 characters");
    assert!(validate_emoji(&"e".repeat(33)).is_err());
    assert!(validate_emoji(&"👍".repeat(8)).is_ok());
    assert!(validate_emoji(&"👍".repeat(9)).is_err());
}

#[test]
fn upload_rules() {
    assert!(require_storage(true).is_ok());
    let err = require_storage(false).unwrap_err();
    assert_eq!(err.status_code(), 400);
    assert_eq!(err.message(), "File uploads are not enabled on this server");
    let err = check_upload_size(UploadKind::Attachment, 0).unwrap_err();
    assert_eq!(err.message(), "File is empty");
    assert!(check_upload_size(UploadKind::Attachment, 250 * 1024 * 1024).is_ok());
    let err = check_upload_size(UploadKind::Attachment, 250 * 1024 * 1024 + 1).unwrap_err();
    assert_eq!(err.message(), "File exceeds maximum size of 250MB");
    assert!(check_upload_size(UploadKind::Avatar, 2 * 1024 * 1024).is_ok());
    let err = check_upload_size(UploadKind::Avatar, 2 * 1024 * 1024 + 1).unwrap_err();
    assert_eq!(err.message(), "Avatar image exceeds maximum size of 2MB");
    let err = check_upload_size(UploadKind::Emoji, 256 * 1024 + 1).unwrap_err();
    assert_eq!(err.message(), "Emoji image exceeds maximum size of 256KB");
    assert_eq!(avatar_storage_path(0xab, "png"), "avatars/00000000-0000-0000-0000-0000000000ab.png");
    assert_eq!(emoji_storage_path(0xab, "gif"), "emojis/00000000-0000-0000-0000-0000000000ab.gif");
    assert_eq!(
        attachment_storage_path(0xab, "pdf"),
        "attachments/00000000-0000-0000-0000-0000000000ab.pdf"
    );
    assert_eq!(attachment_storage_path(0xab, ""), "attachments/00000000-0000-0000-0000-0000000000ab");
    assert_eq!(avatar_content_type("avatars/a.png"), "image/png");
    assert_eq!(avatar_content_type("avatars/a.jpg"), "image/jpeg");
    assert_eq!(avatar_content_type("avatars/a.webp"), "image/webp");
    assert_eq!(avatar_content_type("avatars/a.gif"), "image/gif");
    assert_eq!(avatar_content_type("avatars/a"), "application/octet-stream");
}

#[test]
fn emoji_delete_and_user_list_rules() {
    let emoji = CustomEmoji {
        id: 1,
        name: "parrot".to_string(),
        uploaded_by: 9,
        storage_path: "emojis/1.png".to_string(),
        content_type: "image/png".to_string(),
        created_at: 0,
    };
    assert!(authorize_emoji_delete(&emoji, 9, Role::Member).is_ok());
    assert!(authorize_emoji_delete(&emoji, 8, Role::Moderator).is_ok());
    let err = authorize_emoji_delete(&emoji, 8, Role::Member).unwrap_err();
    assert_eq!(err.status_code(), 403);
    assert_eq!(err.message(), "Only the uploader or moderators can delete custom emojis");
    assert!(!includes_users(Role::Member));
    assert!(includes_users(Role::Moderator) && includes_users(Role::Owner));
}

#[test]
fn storage_backends() {
    assert_eq!(storage_backend("").unwrap(), StorageBackend::Disabled);
    assert_eq!(storage_backend("local").unwrap(), StorageBackend::Local);
    assert_eq!(storage_backend("s3").unwrap(), StorageBackend::S3);
    assert_eq!(
        storage_backend("gcs").unwrap_err(),
        "Unknown STORAGE_BACKEND: 'gcs' (expected 'local' or 's3')"
    );
}

#[test]
fn events_carry_their_wire_names() {
    let out = broadcast_global(ServerEvent::SyncRequired);
    assert_eq!(out.plane, Plane::Global);
    assert_eq!(out.event.event_type(), "sync_required");
    let out = broadcast_channel(5, ServerEvent::MessageDeleted { id: 1, channel_id: 5 });
    assert_eq!(out.plane, Plane::Channel(5));
    assert_eq!(out.event.event_type(), "message_deleted");
    assert_eq!(ServerEvent::Pong.event_type(), "pong");
    assert_eq!(ServerEvent::ChannelDeleted { id: 1 }.event_type(), "channel_deleted");
    assert_eq!(ServerEvent::UserUnbanned { user_id: 1 }.event_type(), "user_unbanned");
}
