//! The rules of uploads: whether storage is on, how large a file may be,
//! and where a file is stored.

use vstd::prelude::*;
use crate::ids::{id_text, uuid_text, Id};
use crate::shared::error::{AppError, ErrorKind};
use crate::shared::text::{chars_of, ends_with, str_eq, string_of_range};
use crate::shared::validation::{MAX_ATTACHMENT_SIZE, MAX_AVATAR_SIZE, MAX_CUSTOM_EMOJI_SIZE};

verus! {

/// The three kinds of upload.
#[derive(Debug, Clone, Copy, PartialEq, Eq, Structural)]
pub enum UploadKind {
    Attachment,
    Avatar,
    Emoji,
}

/// The largest file of a kind, in bytes.
pub open spec fn size_limit(kind: UploadKind) -> int {
    match kind {
        UploadKind::Attachment => MAX_ATTACHMENT_SIZE as int,
        UploadKind::Avatar => MAX_AVATAR_SIZE as int,
        UploadKind::Emoji => MAX_CUSTOM_EMOJI_SIZE as int,
    }
}

/// What an upload that is too large is answered with.
pub open spec fn too_large_message(kind: UploadKind) -> Seq<char> {
    match kind {
        UploadKind::Attachment => "File exceeds maximum size of 250MB"@,
        UploadKind::Avatar => "Avatar image exceeds maximum size of 2MB"@,
        UploadKind::Emoji => "Emoji image exceeds maximum size of 256KB"@,
    }
}

/// Refuses uploads where the server has no file storage.
pub fn require_storage(enabled: bool) -> (r: Result<(), AppError>)
    ensures
        enabled ==> r is Ok,
        !enabled ==> r is Err && r->Err_0.is(
            ErrorKind::BadRequest,
            "File uploads are not enabled on this server"@,
        ),
{
    if enabled {
        Ok(())
    } else {
        Err(AppError::bad_request("File uploads are not enabled on this server"))
    }
}

/// Checks the size of an upload: it must not be empty, and not larger
/// than its kind allows.
pub fn check_upload_size(kind: UploadKind, size: usize) -> (r: Result<(), AppError>)
    ensures
        size == 0 ==> r is Err && r->Err_0.is(ErrorKind::BadRequest, "File is empty"@),
        size > size_limit(kind) ==> r is Err && r->Err_0.is(
            ErrorKind::BadRequest,
            too_large_message(kind),
        ),
        0 < size <= size_limit(kind) ==> r is Ok,
{
    if size == 0 {
        return Err(AppError::bad_request("File is empty"));
    }
    match kind {
        UploadKind::Attachment => {
            if size > MAX_ATTACHMENT_SIZE {
                return Err(AppError::bad_request("File exceeds maximum size of 250MB"));
            }
        },
        UploadKind::Avatar => {
            if size > MAX_AVATAR_SIZE {
                return Err(AppError::bad_request("Avatar image exceeds maximum size of 2MB"));
            }
        },
        UploadKind::Emoji => {
            if size > MAX_CUSTOM_EMOJI_SIZE {
                return Err(AppError::bad_request("Emoji image exceeds maximum size of 256KB"));
            }
        },
    }
    Ok(())
}

/// The path an avatar is stored under.
pub fn avatar_storage_path(user_id: Id, extension: &str) -> (path: String)
    ensures
        path@ == "avatars/"@ + uuid_text(user_id) + "."@ + extension@,
{
    let mut path = String::from_str("avatars/");
    path.append(id_text(user_id).as_str());
    path.append(".");
    path.append(extension);
    path
}

/// The path a custom emoji is stored under.
pub fn emoji_storage_path(emoji_id: Id, extension: &str) -> (path: String)
    ensures
        path@ == "emojis/"@ + uuid_text(emoji_id) + "."@ + extension@,
{
    let mut path = String::from_str("emojis/");
    path.append(id_text(emoji_id).as_str());
    path.append(".");
    path.append(extension);
    path
}

/// The path an attachment is stored under: its id, and its extension
/// where it has one.
pub fn attachment_storage_path(attachment_id: Id, extension: &str) -> (path: String)
    ensures
        extension@.len() == 0 ==> path@ == "attachments/"@ + uuid_text(attachment_id),
        extension@.len() > 0 ==> path@ == "attachments/"@ + uuid_text(attachment_id) + "."@
            + extension@,
{
    let mut path = String::from_str("attachments/");
    path.append(id_text(attachment_id).as_str());
    if extension.unicode_len() > 0 {
        path.append(".");
        path.append(extension);
    }
    path
}

/// The content type an avatar stored under a path is served with.
pub fn avatar_content_type(path: &str) -> (content_type: &'static str)
    ensures
        content_type@ == (if ".png"@.is_suffix_of(path@) {
            "image/png"@
        } else if ".gif"@.is_suffix_of(path@) {
            "image/gif"@
        } else if ".webp"@.is_suffix_of(path@) {
            "image/webp"@
        } else if ".jpg"@.is_suffix_of(path@) {
            "image/jpeg"@
        } else {
            "application/octet-stream"@
        }),
{
    let v = chars_of(path);
    if ends_with(&v, &chars_of(".png")) {
        "image/png"
    } else if ends_with(&v, &chars_of(".gif")) {
        "image/gif"
    } else if ends_with(&v, &chars_of(".webp")) {
        "image/webp"
    } else if ends_with(&v, &chars_of(".jpg")) {
        "image/jpeg"
    } else {
        "application/octet-stream"
    }
}

} // verus!
