use echora::shared::error::{AppError, ErrorKind};
use echora::shared::text::{is_blank, trim};
use echora::shared::truncate_string;
use echora::shared::validation::{
    validate_attachment_content_type, validate_avatar_content_type, validate_channel_name,
    validate_display_name, validate_email, validate_emoji_content_type, validate_emoji_name,
    validate_filename, validate_message_content, validate_message_content_optional,
    validate_password, validate_positive_duration, validate_reason, validate_username,
};

fn bad_request(err: &AppError, message: &str) {
    assert_eq!(err.error_kind(), ErrorKind::BadRequest);
    assert_eq!(err.status_code(), 400);
    assert_eq!(err.message(), message);
}

#[test]
fn message_of_exactly_4000_chars_is_accepted() {
    let body = "a".repeat(4000);
    assert!(validate_message_content(&body).is_ok());
}

#[test]
fn message_of_4001_chars_is_rejected() {
    let body = "a".repeat(4001);
    let err = validate_message_content(&body).unwrap_err();
    bad_request(&err, "Message must be between 1 and 4000 characters");
}

#[test]
fn message_length_counts_characters() {
    let body = "é".repeat(4000);
    assert!(validate_message_content(&body).is_ok());
    let body = "é".repeat(4001);
    assert!(validate_message_content(&body).is_err());
}

#[test]
fn blank_message_is_rejected() {
    let err = validate_message_content("  \n\t ").unwrap_err();
    bad_request(&err, "Message must be between 1 and 4000 characters");
    assert!(validate_message_content("").is_err());
}

#[test]
fn optional_content_needs_body_or_attachments() {
    assert!(validate_message_content_optional(&Some("hi".to_string()), false).is_ok());
    assert!(validate_message_content_optional(&None, true).is_ok());
    assert!(validate_message_content_optional(&Some("   ".to_string()), true).is_ok());
    let err = validate_message_content_optional(&None, false).unwrap_err();
    bad_request(&err, "Message must have content or attachments");
    let err = validate_message_content_optional(&Some(" ".to_string()), false).unwrap_err();
    bad_request(&err, "Message must have content or attachments");
    let long = "x".repeat(4001);
    let err = validate_message_content_optional(&Some(long), true).unwrap_err();
    bad_request(&err, "Message must be between 1 and 4000 characters");
}

#[test]
fn username_is_trimmed() {
    assert_eq!(validate_username("  alice ").unwrap(), "alice");
    assert_eq!(validate_username("a_b-9").unwrap(), "a_b-9");
}

#[test]
fn username_length_and_charset() {
    let err = validate_username("a").unwrap_err();
    bad_request(&err, "Username must be between 2 and 32 characters");
    let err = validate_username(&"a".repeat(33)).unwrap_err();
    bad_request(&err, "Username must be between 2 and 32 characters");
    assert!(validate_username(&"a".repeat(32)).is_ok());
    let err = validate_username("al ice").unwrap_err();
    bad_request(
        &err,
        "Username can only contain ASCII letters, numbers, underscores, and hyphens",
    );
    let err = validate_username("zoë").unwrap_err();
    bad_request(
        &err,
        "Username can only contain ASCII letters, numbers, underscores, and hyphens",
    );
    let err = validate_username(&"é".repeat(17)).unwrap_err();
    bad_request(&err, "Username must be between 2 and 32 characters");
    let err = validate_username("é").unwrap_err();
    bad_request(
        &err,
        "Username can only contain ASCII letters, numbers, underscores, and hyphens",
    );
}

#[test]
fn emoji_name_rules() {
    assert_eq!(validate_emoji_name(" party_parrot ").unwrap(), "party_parrot");
    let err = validate_emoji_name("   ").unwrap_err();
    bad_request(&err, "Emoji name must be between 1 and 32 characters");
    let err = validate_emoji_name(&"e".repeat(33)).unwrap_err();
    bad_request(&err, "Emoji name must be between 1 and 32 characters");
    let err = validate_emoji_name(&"é".repeat(17)).unwrap_err();
    bad_request(&err, "Emoji name must be between 1 and 32 characters");
    let err = validate_emoji_name("no way").unwrap_err();
    bad_request(
        &err,
        "Emoji name can only contain ASCII letters, numbers, underscores, and hyphens",
    );
}

#[test]
fn content_type_allow_lists() {
    assert!(validate_attachment_content_type("application/pdf").is_ok());
    assert!(validate_attachment_content_type("image/svg+xml").is_ok());
    let err = validate_attachment_content_type("application/x-msdownload").unwrap_err();
    bad_request(&err, "File type 'application/x-msdownload' is not allowed");
    assert!(validate_emoji_content_type("image/png").is_ok());
    let err = validate_emoji_content_type("image/svg+xml").unwrap_err();
    bad_request(
        &err,
        "Emoji image type 'image/svg+xml' is not allowed. Use PNG, GIF, WebP, or JPEG.",
    );
    assert!(validate_avatar_content_type("image/jpeg").is_ok());
    let err = validate_avatar_content_type("text/plain").unwrap_err();
    bad_request(
        &err,
        "Avatar image type 'text/plain' is not allowed. Use PNG, GIF, WebP, or JPEG.",
    );
}

#[test]
fn filename_is_sanitized() {
    assert_eq!(validate_filename("../etc/pass:wd").unwrap(), "..etcpasswd");
    assert_eq!(validate_filename("  report?.pdf ").unwrap(), "report.pdf");
    assert_eq!(validate_filename("a\\b|c<d>e\"f*g").unwrap(), "abcdefg");
    let err = validate_filename("///").unwrap_err();
    bad_request(&err, "Invalid filename");
    let err = validate_filename(&"n".repeat(256)).unwrap_err();
    bad_request(&err, "Invalid filename");
    assert!(validate_filename(&"n".repeat(255)).is_ok());
    assert!(validate_filename(&"é".repeat(127)).is_ok());
    assert!(validate_filename(&"é".repeat(128)).is_err());
}

#[test]
fn email_is_normalized() {
    assert_eq!(validate_email("  Alice@Example.COM ").unwrap(), "alice@example.com");
    assert_eq!(validate_email("a@x.io").unwrap(), "a@x.io");
}

#[test]
fn email_shapes_that_are_refused() {
    for bad in [
        "",
        "plain",
        "@x.io",
        "a b@x.io",
        "a@x",
        "a@.xio",
        "a@xio.",
        "a@x..io",
        "a@x .io",
        "a@io",
    ] {
        let err = validate_email(bad).unwrap_err();
        bad_request(&err, "Invalid email address");
    }
    let long = format!("{}@x.io", "a".repeat(250));
    assert!(validate_email(&long).is_err());
    let fits = format!("{}@x.io", "a".repeat(249));
    assert!(validate_email(&fits).is_ok());
    let wide = format!("{}@x.io", "é".repeat(125));
    assert!(validate_email(&wide).is_err());
    assert!(validate_email("a@é.io").is_ok());
}

#[test]
fn password_length() {
    assert!(validate_password("correcthorse").is_ok());
    assert!(validate_password(&"p".repeat(8)).is_ok());
    assert!(validate_password(&"p".repeat(128)).is_ok());
    let err = validate_password("short").unwrap_err();
    bad_request(&err, "Password must be at least 8 characters");
    let err = validate_password(&"p".repeat(129)).unwrap_err();
    bad_request(&err, "Password must be at most 128 characters");
    assert!(validate_password("ééééé").is_ok());
    assert!(validate_password("ééé").is_err());
    assert!(validate_password(&"é".repeat(64)).is_ok());
    let err = validate_password(&"é".repeat(65)).unwrap_err();
    bad_request(&err, "Password must be at most 128 characters");
    assert!(validate_password("        ").is_ok());
}

#[test]
fn reason_length() {
    assert!(validate_reason(&None).is_ok());
    assert!(validate_reason(&Some("r".repeat(500))).is_ok());
    let err = validate_reason(&Some("r".repeat(501))).unwrap_err();
    bad_request(&err, "Reason must be at most 500 characters");
    assert!(validate_reason(&Some("é".repeat(250))).is_ok());
    assert!(validate_reason(&Some("é".repeat(251))).is_err());
}

#[test]
fn duration_must_be_positive() {
    assert!(validate_positive_duration(None, "duration_hours").is_ok());
    assert!(validate_positive_duration(Some(1), "duration_hours").is_ok());
    let err = validate_positive_duration(Some(0), "duration_hours").unwrap_err();
    bad_request(&err, "duration_hours must be a positive number");
    let err = validate_positive_duration(Some(-3), "expires_in_hours").unwrap_err();
    bad_request(&err, "expires_in_hours must be a positive number");
}

#[test]
fn display_name_rules() {
    assert_eq!(validate_display_name("  Alice Liddell ").unwrap(), "Alice Liddell");
    let err = validate_display_name(" ").unwrap_err();
    bad_request(&err, "Display name must be between 1 and 64 characters");
    assert!(validate_display_name(&"d".repeat(64)).is_ok());
    assert!(validate_display_name(&"d".repeat(65)).is_err());
    assert!(validate_display_name(&"é".repeat(32)).is_ok());
    assert!(validate_display_name(&"é".repeat(33)).is_err());
}

#[test]
fn channel_name_rules() {
    assert_eq!(validate_channel_name(" General Voice ").unwrap(), "General Voice");
    assert_eq!(validate_channel_name("café-2_b").unwrap(), "café-2_b");
    let err = validate_channel_name("").unwrap_err();
    bad_request(&err, "Channel name must be between 1 and 50 characters");
    let err = validate_channel_name(&"c".repeat(51)).unwrap_err();
    bad_request(&err, "Channel name must be between 1 and 50 characters");
    assert!(validate_channel_name(&"c".repeat(50)).is_ok());
    let err = validate_channel_name("general!").unwrap_err();
    bad_request(
        &err,
        "Channel name can only contain letters, numbers, hyphens, underscores, and spaces",
    );
}

#[test]
fn truncate_marks_a_cut() {
    assert_eq!(truncate_string("hello world", 5), "hello...");
    assert_eq!(truncate_string("hello", 5), "hello");
    assert_eq!(truncate_string("", 0), "");
    assert_eq!(truncate_string("abc", 0), "...");
}

#[test]
fn truncate_counts_characters() {
    let s = "ééééé";
    assert_eq!(truncate_string(s, 5), s);
    assert_eq!(truncate_string(s, 4), "éééé...");
    let long = "é".repeat(250);
    let cut = truncate_string(&long, 200);
    assert_eq!(cut.chars().count(), 203);
    assert!(cut.ends_with("..."));
}

#[test]
fn trim_removes_unicode_whitespace() {
    assert_eq!(trim("\u{a0} a b \u{2003}\n"), "a b");
    assert_eq!(trim("   "), "");
    assert!(is_blank(" \t\r\n"));
    assert!(!is_blank(" x "));
}

#[test]
fn error_kinds_map_to_statuses() {
    assert_eq!(AppError::bad_request("m").status_code(), 400);
    assert_eq!(AppError::authentication("m").status_code(), 401);
    assert_eq!(AppError::forbidden("m").status_code(), 403);
    assert_eq!(AppError::not_found("m").status_code(), 404);
    assert_eq!(AppError::conflict("m").status_code(), 409);
    assert_eq!(AppError::internal("m").status_code(), 500);
    let e = AppError::conflict("taken");
    let d = e.duplicate();
    assert_eq!(d.error_kind(), ErrorKind::Conflict);
    assert_eq!(d.message(), "taken");
}
