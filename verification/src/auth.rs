//! Accounts: who may register and as what, what a login needs, and what a
//! token carries.

use vstd::prelude::*;
use crate::ids::{fresh_id, now, Id, Timestamp};
use crate::models::{avatar_url_from_path, avatar_url_of, copy_opt_string};
use crate::permissions::Role;
use crate::shared::error::{AppError, ErrorKind};
use crate::shared::text::{byte_len, chars_of, starts_with, str_eq, string_of_range, trimmed};
use crate::shared::validation::{
    all_slug, display_name_ok, email_ok, normalized_email, username_length_ok, validate_email,
    validate_password, validate_username, MAX_PASSWORD_LENGTH, MIN_PASSWORD_LENGTH,
};

verus! {

/// The days a token is valid for.
pub const TOKEN_LIFETIME_DAYS: i64 = 7;

/// The seconds a token is valid for.
pub const TOKEN_LIFETIME_SECS: i64 = 7 * 24 * 60 * 60;

/// What a token carries.
#[derive(Debug)]
pub struct Claims {
    pub sub: Id,
    pub username: String,
    pub role: Role,
    /// When the token expires, in seconds since the Unix epoch.
    pub exp: i64,
}

/// An account.
#[derive(Debug)]
pub struct User {
    pub id: Id,
    pub username: String,
    pub email: String,
    pub password_hash: String,
    pub role: Role,
    pub created_at: Timestamp,
    pub avatar_path: Option<String>,
    pub display_name: Option<String>,
}

/// The body of a request to register.
#[derive(Debug)]
pub struct RegisterRequest {
    pub username: String,
    pub email: String,
    pub password: String,
    pub invite_code: Option<String>,
}

/// The body of a request to log in.
#[derive(Debug)]
pub struct LoginRequest {
    pub username: String,
    pub password: String,
}

/// The body of a request to change one's profile. A display name of
/// `Some(None)` clears it.
#[derive(Debug)]
pub struct UpdateProfileRequest {
    pub username: Option<String>,
    pub display_name: Option<Option<String>>,
}

/// An account, as shown to its owner.
#[derive(Debug)]
pub struct UserInfo {
    pub id: Id,
    pub username: String,
    pub email: String,
    pub role: Role,
    pub avatar_url: Option<String>,
    pub display_name: Option<String>,
}

/// What a successful registration or login answers.
#[derive(Debug)]
pub struct AuthResponse {
    pub token: String,
    pub user: UserInfo,
}

/// The authenticated user of a request.
#[derive(Debug)]
pub struct AuthUser(pub Claims);

impl AuthUser {
    /// The id of the authenticated user.
    pub fn user_id(&self) -> (id: Id)
        ensures
            id == self.0.sub,
    {
        self.0.sub
    }
}

/// The claims of a token issued at `issued_at`, in seconds since the Unix
/// epoch: it expires seven days later.
pub fn claims_for(user_id: Id, username: &str, role: Role, issued_at: i64) -> (r: Result<
    Claims,
    AppError,
>)
    ensures
        issued_at + TOKEN_LIFETIME_SECS <= i64::MAX ==> r is Ok && r->Ok_0.sub == user_id
            && r->Ok_0.username@ == username@ && r->Ok_0.role == role && r->Ok_0.exp == issued_at
            + TOKEN_LIFETIME_SECS,
        issued_at + TOKEN_LIFETIME_SECS > i64::MAX ==> r is Err && r->Err_0.is(
            ErrorKind::Internal,
            "Failed to compute token expiration"@,
        ),
{
    match issued_at.checked_add(TOKEN_LIFETIME_SECS) {
        Some(exp) => Ok(Claims { sub: user_id, username: String::from_str(username), role, exp }),
        None => Err(AppError::internal("Failed to compute token expiration")),
    }
}

/// Whether a token's claims are still good at `now`, in seconds since the
/// Unix epoch.
pub fn claims_valid_at(claims: &Claims, now: i64) -> (r: bool)
    ensures
        r == (claims.exp > now),
{
    claims.exp > now
}

/// Reads the token from an `Authorization` header.
pub fn bearer_token(header: Option<&str>) -> (r: Result<String, AppError>)
    ensures
        header is None ==> r is Err && r->Err_0.is(
            ErrorKind::Authentication,
            "Missing authorization header"@,
        ),
        header is Some && !"Bearer "@.is_prefix_of(header->Some_0@) ==> r is Err && r->Err_0.is(
            ErrorKind::Authentication,
            "Invalid authorization header format"@,
        ),
        header is Some && "Bearer "@.is_prefix_of(header->Some_0@) ==> r is Ok && r->Ok_0@
            == header->Some_0@.skip("Bearer "@.len() as int),
{
    let h = match header {
        Some(h) => h,
        None => {
            return Err(AppError::authentication("Missing authorization header"));
        },
    };
    let v = chars_of(h);
    let prefix = chars_of("Bearer ");
    if !starts_with(&v, &prefix) {
        return Err(AppError::authentication("Invalid authorization header format"));
    }
    let token = string_of_range(&v, prefix.len(), v.len());
    assert(v@.subrange(prefix@.len() as int, v@.len() as int) =~= v@.skip(prefix@.len() as int));
    Ok(token)
}

/// The role of a new account: the first account is the owner, every later
/// one a member.
pub fn registration_role(user_count: i64) -> (role: Role)
    ensures
        user_count == 0 ==> role == Role::Owner,
        user_count != 0 ==> role == Role::Member,
{
    if user_count == 0 {
        Role::Owner
    } else {
        Role::Member
    }
}

/// Decides whether a registration needs an invite. Returns the code to
/// use, where the server is invite-only and has a user already; none where
/// it is open, and none for the first user, who needs no invite.
pub fn check_registration_mode(mode: &str, invite_code: &Option<String>, user_count: i64) -> (r:
    Result<Option<String>, AppError>)
    ensures
        user_count == 0 || mode@ != "invite_only"@ ==> r is Ok && r->Ok_0 is None,
        user_count != 0 && mode@ == "invite_only"@ && invite_code is None ==> r is Err && r->Err_0.is(
            ErrorKind::Forbidden,
            "Registration requires an invite code"@,
        ),
        user_count != 0 && mode@ == "invite_only"@ && invite_code is Some ==> r == Ok::<
            Option<String>,
            AppError,
        >(*invite_code),
{
    if user_count == 0 || !str_eq(mode, "invite_only") {
        return Ok(None);
    }
    match invite_code {
        Some(code) => Ok(Some(code.clone())),
        None => Err(AppError::forbidden("Registration requires an invite code")),
    }
}

/// Whether a registration's fields are acceptable.
pub open spec fn registration_ok(request: RegisterRequest) -> bool {
    &&& username_length_ok(trimmed(request.username@))
    &&& all_slug(trimmed(request.username@))
    &&& email_ok(normalized_email(request.email@))
    &&& MIN_PASSWORD_LENGTH <= byte_len(request.password@) <= MAX_PASSWORD_LENGTH
}

/// What a registration whose fields are not acceptable is answered with:
/// the username is looked at first, then the address, then the password.
pub open spec fn registration_refusal(request: RegisterRequest) -> Seq<char> {
    let name = trimmed(request.username@);
    if !username_length_ok(name) {
        "Username must be between 2 and 32 characters"@
    } else if !all_slug(name) {
        "Username can only contain ASCII letters, numbers, underscores, and hyphens"@
    } else if !email_ok(normalized_email(request.email@)) {
        "Invalid email address"@
    } else if byte_len(request.password@) < MIN_PASSWORD_LENGTH {
        "Password must be at least 8 characters"@
    } else {
        "Password must be at most 128 characters"@
    }
}

/// Checks the fields of a registration. Returns the username and the
/// email address in the form they are stored in.
pub fn validate_registration(request: &RegisterRequest) -> (r: Result<(String, String), AppError>)
    ensures
        r is Ok <==> registration_ok(*request),
        r is Ok ==> r->Ok_0.0@ == trimmed(request.username@) && r->Ok_0.1@ == normalized_email(
            request.email@,
        ),
        r is Err ==> r->Err_0.is(ErrorKind::BadRequest, registration_refusal(*request)),
{
    let username = match validate_username(request.username.as_str()) {
        Ok(u) => u,
        Err(e) => {
            return Err(e);
        },
    };
    let email = match validate_email(request.email.as_str()) {
        Ok(m) => m,
        Err(e) => {
            return Err(e);
        },
    };
    match validate_password(request.password.as_str()) {
        Ok(()) => {},
        Err(e) => {
            return Err(e);
        },
    }
    Ok((username, email))
}

/// Makes the account of a registration, with the given identity.
pub fn new_user(
    id: Id,
    created_at: Timestamp,
    username: String,
    email: String,
    password_hash: String,
    user_count: i64,
) -> (user: User)
    ensures
        user == (User {
            id,
            username,
            email,
            password_hash,
            role: if user_count == 0 {
                Role::Owner
            } else {
                Role::Member
            },
            created_at,
            avatar_path: None,
            display_name: None,
        }),
{
    User {
        id,
        username,
        email,
        password_hash,
        role: registration_role(user_count),
        created_at,
        avatar_path: None,
        display_name: None,
    }
}

/// Checks the fields of a login. Whatever is wrong with them, the answer
/// is the same. Returns the username to look up.
pub fn validate_login(request: &LoginRequest) -> (r: Result<String, AppError>)
    ensures
        r is Ok <==> username_length_ok(trimmed(request.username@)) && all_slug(
            trimmed(request.username@),
        ) && request.password@.len() > 0,
        r is Ok ==> r->Ok_0@ == trimmed(request.username@),
        r is Err ==> r->Err_0.is(ErrorKind::Authentication, "Invalid credentials"@),
{
    let username = match validate_username(request.username.as_str()) {
        Ok(u) => u,
        Err(_) => {
            return Err(AppError::authentication("Invalid credentials"));
        },
    };
    if request.password.as_str().unicode_len() == 0 {
        return Err(AppError::authentication("Invalid credentials"));
    }
    Ok(username)
}

/// The answer to a login for which no account was found.
pub fn require_account(user: Option<User>) -> (r: Result<User, AppError>)
    ensures
        user is Some ==> r == Ok::<User, AppError>(user->Some_0),
        user is None ==> r is Err && r->Err_0.is(
            ErrorKind::Authentication,
            "Invalid credentials"@,
        ),
{
    match user {
        Some(u) => Ok(u),
        None => Err(AppError::authentication("Invalid credentials")),
    }
}

/// An account as shown to its owner.
pub fn user_info_from_db(user: &User) -> (info: UserInfo)
    ensures
        info.id == user.id,
        info.username == user.username,
        info.email == user.email,
        info.role == user.role,
        info.display_name == user.display_name,
        user.avatar_path is None ==> info.avatar_url is None,
        user.avatar_path is Some ==> info.avatar_url is Some && info.avatar_url->Some_0@
            == avatar_url_of(user.id),
{
    UserInfo {
        id: user.id,
        username: user.username.clone(),
        email: user.email.clone(),
        role: user.role,
        avatar_url: avatar_url_from_path(user.id, &user.avatar_path),
        display_name: copy_opt_string(&user.display_name),
    }
}

/// What a profile update changes.
#[derive(Debug)]
pub struct ProfileChange {
    /// The new username, where one was asked for that differs from the
    /// current one.
    pub username: Option<String>,
    /// The new display name, where one was asked for; `Some(None)` clears
    /// it.
    pub display_name: Option<Option<String>>,
}

impl ProfileChange {
    /// Whether anything changes.
    pub fn changed(&self) -> (r: bool)
        ensures
            r == (self.username is Some || self.display_name is Some),
    {
        self.username.is_some() || self.display_name.is_some()
    }
}

/// Whether a profile update may be made: a new username, where given, is
/// a valid username, and a new display name, where given, a valid display
/// name.
pub open spec fn profile_update_ok(request: UpdateProfileRequest) -> bool {
    &&& match request.username {
        Some(u) => username_length_ok(trimmed(u@)) && all_slug(trimmed(u@)),
        None => true,
    }
    &&& match request.display_name {
        Some(Some(d)) => display_name_ok(trimmed(d@)),
        _ => true,
    }
}

/// What a profile update that may not be made is answered with: the
/// username is looked at first, then the display name.
pub open spec fn profile_update_refusal(request: UpdateProfileRequest) -> Seq<char> {
    match request.username {
        Some(u) => if !username_length_ok(trimmed(u@)) {
            "Username must be between 2 and 32 characters"@
        } else if !all_slug(trimmed(u@)) {
            "Username can only contain ASCII letters, numbers, underscores, and hyphens"@
        } else {
            "Display name must be between 1 and 64 characters"@
        },
        None => "Display name must be between 1 and 64 characters"@,
    }
}

/// Decides a profile update: a new username must be a valid username and
/// a new display name a valid display name.
pub fn plan_profile_update(current_username: &str, request: &UpdateProfileRequest) -> (r: Result<
    ProfileChange,
    AppError,
>)
    ensures
        r is Ok <==> profile_update_ok(*request),
        r is Err ==> r->Err_0.is(ErrorKind::BadRequest, profile_update_refusal(*request)),
        r is Ok ==> {
            let c = r->Ok_0;
            &&& match request.username {
                Some(u) => if trimmed(u@) == current_username@ {
                    c.username is None
                } else {
                    c.username is Some && c.username->Some_0@ == trimmed(u@)
                },
                None => c.username is None,
            }
            &&& match request.display_name {
                Some(Some(d)) => c.display_name is Some && c.display_name->Some_0 is Some
                    && c.display_name->Some_0->Some_0@ == trimmed(d@),
                Some(None) => c.display_name == Some(None::<String>),
                None => c.display_name is None,
            }
        },
{
    let username = match &request.username {
        Some(u) => {
            let valid = match validate_username(u.as_str()) {
                Ok(v) => v,
                Err(e) => {
                    return Err(e);
                },
            };
            if str_eq(valid.as_str(), current_username) {
                None
            } else {
                Some(valid)
            }
        },
        None => None,
    };
    let display_name = match &request.display_name {
        Some(Some(d)) => {
            match crate::shared::validation::validate_display_name(d.as_str()) {
                Ok(v) => Some(Some(v)),
                Err(e) => {
                    return Err(e);
                },
            }
        },
        Some(None) => Some(None),
        None => None,
    };
    Ok(ProfileChange { username, display_name })
}

/// The seconds a WebAuthn challenge stays pending.
pub const CHALLENGE_LIFETIME_SECS: u64 = 300;

/// Whether a challenge made at `created` is still pending at `now`, both
/// in seconds of a monotonic clock: it is for five minutes.
pub fn challenge_is_pending(created: u64, now: u64) -> (r: bool)
    ensures
        r == (now - created < CHALLENGE_LIFETIME_SECS),
{
    now < created || now - created < CHALLENGE_LIFETIME_SECS
}

/// The file extension an avatar of a content type is stored with.
pub fn avatar_extension(content_type: &str) -> (ext: &'static str)
    ensures
        ext@ == (if content_type@ == "image/gif"@ {
            "gif"@
        } else if content_type@ == "image/webp"@ {
            "webp"@
        } else if content_type@ == "image/jpeg"@ {
            "jpg"@
        } else {
            "png"@
        }),
{
    if str_eq(content_type, "image/gif") {
        "gif"
    } else if str_eq(content_type, "image/webp") {
        "webp"
    } else if str_eq(content_type, "image/jpeg") {
        "jpg"
    } else {
        "png"
    }
}

} // verus!
