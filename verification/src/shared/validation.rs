//! Length and character-set rules for everything a client may submit.
//! A message body and a channel name are measured in characters; every
//! other length is measured in bytes.

use vstd::prelude::*;
use crate::shared::error::{AppError, ErrorKind};
use crate::shared::text::{
    ascii_alphanumeric, byte_len, byte_length, chars_of, contains, contains_char, contains_run,
    find_char, first_index_of,
    is_alphanumeric, is_ascii_alphanumeric, str_eq, string_of, string_of_range, to_lowercase,
    trim_bounds, trimmed, unicode_alphanumeric, unicode_lowercase,
};

verus! {

pub const MAX_MESSAGE_LENGTH: usize = 4000;

pub const MAX_CHANNEL_NAME_LENGTH: usize = 50;

pub const MIN_USERNAME_LENGTH: usize = 2;

pub const MAX_USERNAME_LENGTH: usize = 32;

pub const MAX_EMAIL_LENGTH: usize = 254;

pub const MIN_PASSWORD_LENGTH: usize = 8;

pub const MAX_PASSWORD_LENGTH: usize = 128;

pub const MAX_EMOJI_LENGTH: usize = 32;

pub const REPLY_PREVIEW_LENGTH: usize = 200;

pub const MAX_REASON_LENGTH: usize = 500;

pub const MAX_SERVER_NAME_LENGTH: usize = 100;

pub const MAX_IMAGE_PROXY_SIZE: usize = 10 * 1024 * 1024;

pub const BROADCAST_CHANNEL_CAPACITY: usize = 256;

pub const MAX_ATTACHMENT_SIZE: usize = 250 * 1024 * 1024;

pub const MAX_CUSTOM_EMOJI_SIZE: usize = 256 * 1024;

pub const MAX_CUSTOM_EMOJI_NAME_LENGTH: usize = 32;

pub const MAX_ATTACHMENTS_PER_MESSAGE: usize = 5;

pub const MAX_FILENAME_LENGTH: usize = 255;

pub const MAX_AVATAR_SIZE: usize = 2 * 1024 * 1024;

pub const MAX_DISPLAY_NAME_LENGTH: usize = 64;

/// The content types an attachment may have.
pub open spec fn allowed_content_type(t: Seq<char>) -> bool {
    ||| t == "image/jpeg"@
    ||| t == "image/png"@
    ||| t == "image/gif"@
    ||| t == "image/webp"@
    ||| t == "image/svg+xml"@
    ||| t == "video/mp4"@
    ||| t == "video/webm"@
    ||| t == "audio/mpeg"@
    ||| t == "audio/ogg"@
    ||| t == "audio/wav"@
    ||| t == "audio/webm"@
    ||| t == "application/pdf"@
    ||| t == "text/plain"@
    ||| t == "application/zip"@
    ||| t == "application/gzip"@
    ||| t == "application/x-tar"@
}

/// The content types an emoji or avatar image may have.
pub open spec fn allowed_image_type(t: Seq<char>) -> bool {
    t == "image/png"@ || t == "image/gif"@ || t == "image/webp"@ || t == "image/jpeg"@
}

/// Characters allowed in usernames and emoji names.
pub open spec fn is_slug_char(c: char) -> bool {
    is_ascii_alphanumeric(c) || c == '_' || c == '-'
}

/// Characters allowed in channel names.
pub open spec fn is_channel_char(c: char) -> bool {
    unicode_alphanumeric(c) || c == '-' || c == '_' || c == ' '
}

/// Characters removed from filenames.
pub open spec fn is_path_char(c: char) -> bool {
    c == '/' || c == '\\' || c == '\0' || c == ':' || c == '*' || c == '?' || c == '"' || c == '<'
        || c == '>' || c == '|'
}

/// Every character of `s` is allowed in a slug.
pub open spec fn all_slug(s: Seq<char>) -> bool {
    forall|i: int| 0 <= i < s.len() ==> is_slug_char(#[trigger] s[i])
}

/// Every character of `s` is allowed in a channel name.
pub open spec fn all_channel(s: Seq<char>) -> bool {
    forall|i: int| 0 <= i < s.len() ==> is_channel_char(#[trigger] s[i])
}

/// A filename with path characters removed and whitespace trimmed.
pub open spec fn sanitized_filename(s: Seq<char>) -> Seq<char> {
    trimmed(s.filter(|c: char| !is_path_char(c)))
}

/// A message body is acceptable when it is not blank and not too long.
pub open spec fn message_content_ok(s: Seq<char>) -> bool {
    trimmed(s).len() > 0 && s.len() <= MAX_MESSAGE_LENGTH
}

/// An email address in normal form: trimmed, then lower-cased.
pub open spec fn normalized_email(s: Seq<char>) -> Seq<char> {
    unicode_lowercase(trimmed(s))
}

/// The part of an address before its first `@`.
pub open spec fn email_local(e: Seq<char>) -> Seq<char> {
    e.take(first_index_of(e, '@'))
}

/// The part of an address after its first `@`.
pub open spec fn email_domain(e: Seq<char>) -> Seq<char> {
    e.skip(first_index_of(e, '@') + 1)
}

/// The shape an address in normal form must have.
pub open spec fn email_ok(e: Seq<char>) -> bool {
    &&& 0 < e.len()
    &&& byte_len(e) <= MAX_EMAIL_LENGTH
    &&& e.contains('@')
    &&& email_local(e).len() > 0
    &&& !email_local(e).contains(' ')
    &&& byte_len(email_domain(e)) >= 3
    &&& !email_domain(e).contains(' ')
    &&& email_domain(e).contains('.')
    &&& email_domain(e).first() != '.'
    &&& email_domain(e).last() != '.'
    &&& !contains_run(email_domain(e), seq!['.', '.'])
}

fn is_allowed_content_type(t: &str) -> (r: bool)
    ensures
        r == allowed_content_type(t@),
{
    str_eq(t, "image/jpeg") || str_eq(t, "image/png") || str_eq(t, "image/gif") || str_eq(
        t,
        "image/webp",
    ) || str_eq(t, "image/svg+xml") || str_eq(t, "video/mp4") || str_eq(t, "video/webm")
        || str_eq(t, "audio/mpeg") || str_eq(t, "audio/ogg") || str_eq(t, "audio/wav") || str_eq(
        t,
        "audio/webm",
    ) || str_eq(t, "application/pdf") || str_eq(t, "text/plain") || str_eq(t, "application/zip")
        || str_eq(t, "application/gzip") || str_eq(t, "application/x-tar")
}

fn is_allowed_image_type(t: &str) -> (r: bool)
    ensures
        r == allowed_image_type(t@),
{
    str_eq(t, "image/png") || str_eq(t, "image/gif") || str_eq(t, "image/webp") || str_eq(
        t,
        "image/jpeg",
    )
}

fn all_slug_chars(v: &Vec<char>) -> (r: bool)
    ensures
        r == all_slug(v@),
{
    let mut i: usize = 0;
    while i < v.len()
        invariant
            i <= v.len(),
            forall|k: int| 0 <= k < i ==> is_slug_char(#[trigger] v@[k]),
        decreases v.len() - i,
    {
        let c = v[i];
        if !(ascii_alphanumeric(c) || c == '_' || c == '-') {
            return false;
        }
        i += 1;
    }
    true
}

fn all_channel_chars(v: &Vec<char>) -> (r: bool)
    ensures
        r == all_channel(v@),
{
    let mut i: usize = 0;
    while i < v.len()
        invariant
            i <= v.len(),
            forall|k: int| 0 <= k < i ==> is_channel_char(#[trigger] v@[k]),
        decreases v.len() - i,
    {
        let c = v[i];
        if !(is_alphanumeric(c) || c == '-' || c == '_' || c == ' ') {
            return false;
        }
        i += 1;
    }
    true
}

fn is_path_character(c: char) -> (r: bool)
    ensures
        r == is_path_char(c),
{
    c == '/' || c == '\\' || c == '\0' || c == ':' || c == '*' || c == '?' || c == '"' || c == '<'
        || c == '>' || c == '|'
}

/// `prefix`, then `middle`, then `suffix`, as one string.
fn join3(prefix: &str, middle: &str, suffix: &str) -> (r: String)
    ensures
        r@ == prefix@ + middle@ + suffix@,
{
    let mut m = String::from_str(prefix);
    m.append(middle);
    m.append(suffix);
    m
}

/// Accepts the image types an emoji may have.
pub fn validate_emoji_content_type(content_type: &str) -> (r: Result<(), AppError>)
    ensures
        allowed_image_type(content_type@) ==> r is Ok,
        !allowed_image_type(content_type@) ==> r is Err && r->Err_0.is(
            ErrorKind::BadRequest,
            "Emoji image type '"@ + content_type@ + "' is not allowed. Use PNG, GIF, WebP, or JPEG."@,
        ),
{
    if !is_allowed_image_type(content_type) {
        let m = join3(
            "Emoji image type '",
            content_type,
            "' is not allowed. Use PNG, GIF, WebP, or JPEG.",
        );
        return Err(AppError::bad_request(m.as_str()));
    }
    Ok(())
}

/// Trims an emoji name and accepts it when it is not empty, takes at most
/// 32 bytes and is made of slug characters.
pub fn validate_emoji_name(name: &str) -> (r: Result<String, AppError>)
    ensures
        match r {
            Ok(t) => t@ == trimmed(name@) && 0 < t@.len() && byte_len(t@)
                <= MAX_CUSTOM_EMOJI_NAME_LENGTH && all_slug(t@),
            Err(e) => if trimmed(name@).len() == 0 || byte_len(trimmed(name@))
                > MAX_CUSTOM_EMOJI_NAME_LENGTH {
                e.is(ErrorKind::BadRequest, "Emoji name must be between 1 and 32 characters"@)
            } else {
                !all_slug(trimmed(name@)) && e.is(
                    ErrorKind::BadRequest,
                    "Emoji name can only contain ASCII letters, numbers, underscores, and hyphens"@,
                )
            },
        },
{
    let v = chars_of(name);
    let (from, to) = trim_bounds(&v);
    let trimmed_name = string_of_range(&v, from, to);
    let t = chars_of(trimmed_name.as_str());
    if t.len() == 0 || byte_length(trimmed_name.as_str()) > MAX_CUSTOM_EMOJI_NAME_LENGTH {
        return Err(AppError::bad_request("Emoji name must be between 1 and 32 characters"));
    }
    if !all_slug_chars(&t) {
        return Err(
            AppError::bad_request(
                "Emoji name can only contain ASCII letters, numbers, underscores, and hyphens",
            ),
        );
    }
    Ok(trimmed_name)
}

/// Accepts a message body that is not blank and has at most 4000 characters.
pub fn validate_message_content(content: &str) -> (r: Result<(), AppError>)
    ensures
        message_content_ok(content@) ==> r is Ok,
        !message_content_ok(content@) ==> r is Err && r->Err_0.is(
            ErrorKind::BadRequest,
            "Message must be between 1 and 4000 characters"@,
        ),
{
    let v = chars_of(content);
    let (from, to) = trim_bounds(&v);
    if from == to || v.len() > MAX_MESSAGE_LENGTH {
        return Err(AppError::bad_request("Message must be between 1 and 4000 characters"));
    }
    Ok(())
}

/// What a message with an optional body is checked against: a body that is
/// not blank must be acceptable; without one there must be attachments.
pub open spec fn optional_content_ok(content: Option<Seq<char>>, has_attachments: bool) -> bool {
    match content {
        Some(c) => if trimmed(c).len() > 0 {
            message_content_ok(c)
        } else {
            has_attachments
        },
        None => has_attachments,
    }
}

/// The body of an optional string, as characters.
pub open spec fn opt_view(content: Option<String>) -> Option<Seq<char>> {
    match content {
        Some(c) => Some(c@),
        None => None,
    }
}

/// Accepts a message whose body is acceptable, or which has attachments and
/// a blank or missing body.
pub fn validate_message_content_optional(content: &Option<String>, has_attachments: bool) -> (r:
    Result<(), AppError>)
    ensures
        optional_content_ok(opt_view(*content), has_attachments) ==> r is Ok,
        !optional_content_ok(opt_view(*content), has_attachments) ==> r is Err && r->Err_0.is(
            ErrorKind::BadRequest,
            if content is Some && trimmed(content->Some_0@).len() > 0 {
                "Message must be between 1 and 4000 characters"@
            } else {
                "Message must have content or attachments"@
            },
        ),
{
    match content {
        Some(c) => {
            let v = chars_of(c.as_str());
            let (from, to) = trim_bounds(&v);
            if from != to {
                return validate_message_content(c.as_str());
            }
        },
        None => {},
    }
    if has_attachments {
        Ok(())
    } else {
        Err(AppError::bad_request("Message must have content or attachments"))
    }
}

/// Accepts the content types an attachment may have.
pub fn validate_attachment_content_type(content_type: &str) -> (r: Result<(), AppError>)
    ensures
        allowed_content_type(content_type@) ==> r is Ok,
        !allowed_content_type(content_type@) ==> r is Err && r->Err_0.is(
            ErrorKind::BadRequest,
            "File type '"@ + content_type@ + "' is not allowed"@,
        ),
{
    if !is_allowed_content_type(content_type) {
        let m = join3("File type '", content_type, "' is not allowed");
        return Err(AppError::bad_request(m.as_str()));
    }
    Ok(())
}

/// Removes path characters from a filename, trims it, and accepts a result
/// that is not empty and takes at most 255 bytes.
pub fn validate_filename(name: &str) -> (r: Result<String, AppError>)
    ensures
        match r {
            Ok(t) => t@ == sanitized_filename(name@) && 0 < t@.len() && byte_len(t@)
                <= MAX_FILENAME_LENGTH,
            Err(e) => (sanitized_filename(name@).len() == 0 || byte_len(sanitized_filename(name@))
                > MAX_FILENAME_LENGTH) && e.is(ErrorKind::BadRequest, "Invalid filename"@),
        },
{
    let v = chars_of(name);
    let ghost keep = |c: char| !is_path_char(c);
    let mut kept: Vec<char> = Vec::new();
    let mut i: usize = 0;
    proof {
        reveal(Seq::filter);
        assert(v@.take(0) =~= Seq::<char>::empty());
    }
    while i < v.len()
        invariant
            i <= v.len(),
            keep == |c: char| !is_path_char(c),
            kept@ == v@.take(i as int).filter(keep),
        decreases v.len() - i,
    {
        let c = v[i];
        proof {
            reveal(Seq::filter);
            assert(v@.take(i + 1).drop_last() =~= v@.take(i as int));
            assert(v@.take(i + 1).last() == c);
        }
        if !is_path_character(c) {
            kept.push(c);
        }
        i += 1;
    }
    assert(v@.take(v.len() as int) =~= v@);
    let (from, to) = trim_bounds(&kept);
    let sanitized = string_of_range(&kept, from, to);
    if from == to || byte_length(sanitized.as_str()) > MAX_FILENAME_LENGTH {
        return Err(AppError::bad_request("Invalid filename"));
    }
    Ok(sanitized)
}

/// Whether a trimmed username has an acceptable length: 2 to 32 bytes.
pub open spec fn username_length_ok(t: Seq<char>) -> bool {
    MIN_USERNAME_LENGTH <= byte_len(t) <= MAX_USERNAME_LENGTH
}

/// Trims a username and accepts it when it takes 2 to 32 bytes and is made
/// of slug characters.
pub fn validate_username(name: &str) -> (r: Result<String, AppError>)
    ensures
        match r {
            Ok(t) => t@ == trimmed(name@) && username_length_ok(t@) && all_slug(t@),
            Err(e) => if !username_length_ok(trimmed(name@)) {
                e.is(ErrorKind::BadRequest, "Username must be between 2 and 32 characters"@)
            } else {
                !all_slug(trimmed(name@)) && e.is(
                    ErrorKind::BadRequest,
                    "Username can only contain ASCII letters, numbers, underscores, and hyphens"@,
                )
            },
        },
{
    let v = chars_of(name);
    let (from, to) = trim_bounds(&v);
    let trimmed_name = string_of_range(&v, from, to);
    let t = chars_of(trimmed_name.as_str());
    let n = byte_length(trimmed_name.as_str());
    if n < MIN_USERNAME_LENGTH || n > MAX_USERNAME_LENGTH {
        return Err(AppError::bad_request("Username must be between 2 and 32 characters"));
    }
    if !all_slug_chars(&t) {
        return Err(
            AppError::bad_request(
                "Username can only contain ASCII letters, numbers, underscores, and hyphens",
            ),
        );
    }
    Ok(trimmed_name)
}

/// Trims and lower-cases an address and accepts it when it has the shape
/// `local@domain`, with a dotted domain free of spaces and empty labels at
/// its ends.
pub fn validate_email(email: &str) -> (r: Result<String, AppError>)
    ensures
        match r {
            Ok(e) => e@ == normalized_email(email@) && email_ok(e@),
            Err(e) => !email_ok(normalized_email(email@)) && e.is(
                ErrorKind::BadRequest,
                "Invalid email address"@,
            ),
        },
{
    let v = chars_of(email);
    let (from, to) = trim_bounds(&v);
    let lowered = to_lowercase(string_of_range(&v, from, to).as_str());
    let e = chars_of(lowered.as_str());
    if e.len() == 0 || byte_length(lowered.as_str()) > MAX_EMAIL_LENGTH {
        return Err(AppError::bad_request("Invalid email address"));
    }
    let at = match find_char(&e, '@') {
        Some(at) => at,
        None => {
            return Err(AppError::bad_request("Invalid email address"));
        },
    };
    let local = chars_of(string_of_range(&e, 0, at).as_str());
    let domain_text = string_of_range(&e, at + 1, e.len());
    let domain = chars_of(domain_text.as_str());
    assert(local@ =~= email_local(e@));
    assert(domain@ =~= email_domain(e@));
    let mut dots: Vec<char> = Vec::new();
    dots.push('.');
    dots.push('.');
    assert(dots@ =~= seq!['.', '.']);
    if local.len() == 0 || contains_char(&local, ' ') || byte_length(domain_text.as_str()) < 3
        || contains_char(
        &domain,
        ' ',
    ) || !contains_char(&domain, '.') || domain[0] == '.' || domain[domain.len() - 1] == '.'
        || contains(&domain, &dots) {
        return Err(AppError::bad_request("Invalid email address"));
    }
    Ok(lowered)
}

/// Accepts a password of 8 to 128 bytes. Nothing is trimmed.
pub fn validate_password(password: &str) -> (r: Result<(), AppError>)
    ensures
        MIN_PASSWORD_LENGTH <= byte_len(password@) <= MAX_PASSWORD_LENGTH ==> r is Ok,
        byte_len(password@) < MIN_PASSWORD_LENGTH ==> r is Err && r->Err_0.is(
            ErrorKind::BadRequest,
            "Password must be at least 8 characters"@,
        ),
        byte_len(password@) > MAX_PASSWORD_LENGTH ==> r is Err && r->Err_0.is(
            ErrorKind::BadRequest,
            "Password must be at most 128 characters"@,
        ),
{
    let n = byte_length(password);
    if n < MIN_PASSWORD_LENGTH {
        return Err(AppError::bad_request("Password must be at least 8 characters"));
    }
    if n > MAX_PASSWORD_LENGTH {
        return Err(AppError::bad_request("Password must be at most 128 characters"));
    }
    Ok(())
}

/// Whether a reason is too long: more than 500 bytes.
pub open spec fn reason_too_long(reason: Option<String>) -> bool {
    reason is Some && byte_len(reason->Some_0@) > MAX_REASON_LENGTH
}

/// Accepts a missing reason, or one of at most 500 bytes.
pub fn validate_reason(reason: &Option<String>) -> (r: Result<(), AppError>)
    ensures
        reason_too_long(*reason) ==> r is Err && r->Err_0.is(
            ErrorKind::BadRequest,
            "Reason must be at most 500 characters"@,
        ),
        !reason_too_long(*reason) ==> r is Ok,
{
    match reason {
        Some(text) => {
            if byte_length(text.as_str()) > MAX_REASON_LENGTH {
                return Err(AppError::bad_request("Reason must be at most 500 characters"));
            }
        },
        None => {},
    }
    Ok(())
}

/// Accepts a missing duration, or a positive number of hours.
pub fn validate_positive_duration(hours: Option<i64>, field_name: &str) -> (r: Result<
    (),
    AppError,
>)
    ensures
        (hours is Some && hours->Some_0 <= 0) ==> r is Err && r->Err_0.is(
            ErrorKind::BadRequest,
            field_name@ + " must be a positive number"@,
        ),
        !(hours is Some && hours->Some_0 <= 0) ==> r is Ok,
{
    match hours {
        Some(h) => {
            if h <= 0 {
                let mut m = String::from_str(field_name);
                m.append(" must be a positive number");
                return Err(AppError::bad_request(m.as_str()));
            }
        },
        None => {},
    }
    Ok(())
}

/// Accepts the image types an avatar may have.
pub fn validate_avatar_content_type(content_type: &str) -> (r: Result<(), AppError>)
    ensures
        allowed_image_type(content_type@) ==> r is Ok,
        !allowed_image_type(content_type@) ==> r is Err && r->Err_0.is(
            ErrorKind::BadRequest,
            "Avatar image type '"@ + content_type@
                + "' is not allowed. Use PNG, GIF, WebP, or JPEG."@,
        ),
{
    if !is_allowed_image_type(content_type) {
        let m = join3(
            "Avatar image type '",
            content_type,
            "' is not allowed. Use PNG, GIF, WebP, or JPEG.",
        );
        return Err(AppError::bad_request(m.as_str()));
    }
    Ok(())
}

/// Whether a trimmed display name is acceptable: not empty, and at most 64
/// bytes.
pub open spec fn display_name_ok(t: Seq<char>) -> bool {
    0 < t.len() && byte_len(t) <= MAX_DISPLAY_NAME_LENGTH
}

/// Trims a display name and accepts it when it is not empty and takes at
/// most 64 bytes.
pub fn validate_display_name(name: &str) -> (r: Result<String, AppError>)
    ensures
        match r {
            Ok(t) => t@ == trimmed(name@) && display_name_ok(t@),
            Err(e) => !display_name_ok(trimmed(name@)) && e.is(
                ErrorKind::BadRequest,
                "Display name must be between 1 and 64 characters"@,
            ),
        },
{
    let v = chars_of(name);
    let (from, to) = trim_bounds(&v);
    let t = string_of_range(&v, from, to);
    if from == to || byte_length(t.as_str()) > MAX_DISPLAY_NAME_LENGTH {
        return Err(AppError::bad_request("Display name must be between 1 and 64 characters"));
    }
    Ok(t)
}

/// Trims a channel name and accepts it when it has 1 to 50 characters, each
/// a letter, a digit, a hyphen, an underscore or a space.
pub fn validate_channel_name(name: &str) -> (r: Result<String, AppError>)
    ensures
        match r {
            Ok(t) => t@ == trimmed(name@) && 0 < t@.len() <= MAX_CHANNEL_NAME_LENGTH
                && all_channel(t@),
            Err(e) => if trimmed(name@).len() == 0 || trimmed(name@).len()
                > MAX_CHANNEL_NAME_LENGTH {
                e.is(ErrorKind::BadRequest, "Channel name must be between 1 and 50 characters"@)
            } else {
                !all_channel(trimmed(name@)) && e.is(
                    ErrorKind::BadRequest,
                    "Channel name can only contain letters, numbers, hyphens, underscores, and spaces"@,
                )
            },
        },
{
    let v = chars_of(name);
    let (from, to) = trim_bounds(&v);
    let t = chars_of(string_of_range(&v, from, to).as_str());
    if t.len() == 0 || t.len() > MAX_CHANNEL_NAME_LENGTH {
        return Err(AppError::bad_request("Channel name must be between 1 and 50 characters"));
    }
    if !all_channel_chars(&t) {
        return Err(
            AppError::bad_request(
                "Channel name can only contain letters, numbers, hyphens, underscores, and spaces",
            ),
        );
    }
    Ok(string_of(&t))
}

/// A body of exactly the maximum length is accepted unless it is blank; one
/// character more is always rejected.
pub proof fn message_length_boundary(content: Seq<char>)
    ensures
        content.len() == MAX_MESSAGE_LENGTH && trimmed(content).len() > 0 ==> message_content_ok(
            content,
        ),
        content.len() == MAX_MESSAGE_LENGTH + 1 ==> !message_content_ok(content),
{
}

} // verus!
