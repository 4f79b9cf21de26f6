//! The role lattice and the permission rules built on it. Authority is strict: a user
//! moderates only users of a lower role, and assigns only roles below their
//! own.

use vstd::prelude::*;
use crate::models::{Ban, Mute};
use crate::shared::error::{AppError, ErrorKind};
use crate::shared::text::str_eq;

verus! {

/// Role levels, ordered by power.
#[derive(Debug, Clone, Copy, PartialEq, Eq, Structural, PartialOrd, Ord, Hash)]
pub enum Role {
    Member,
    Moderator,
    Admin,
    Owner,
}

/// The power of a role: 0 for a member, 3 for the owner.
pub open spec fn level_of(role: Role) -> int {
    match role {
        Role::Member => 0,
        Role::Moderator => 1,
        Role::Admin => 2,
        Role::Owner => 3,
    }
}

/// The lower-case name of a role.
pub open spec fn role_name(role: Role) -> Seq<char> {
    match role {
        Role::Owner => "owner"@,
        Role::Admin => "admin"@,
        Role::Moderator => "moderator"@,
        Role::Member => "member"@,
    }
}

/// The role that a lower-case name stands for, if any.
pub open spec fn role_named(name: Seq<char>) -> Option<Role> {
    if name == "owner"@ {
        Some(Role::Owner)
    } else if name == "admin"@ {
        Some(Role::Admin)
    } else if name == "moderator"@ {
        Some(Role::Moderator)
    } else if name == "member"@ {
        Some(Role::Member)
    } else {
        None
    }
}

impl Role {
    /// The power of this role.
    pub fn level(self) -> (l: u8)
        ensures
            l == level_of(self),
    {
        match self {
            Role::Member => 0,
            Role::Moderator => 1,
            Role::Admin => 2,
            Role::Owner => 3,
        }
    }

    /// The lower-case name of this role.
    pub fn as_str(self) -> (name: &'static str)
        ensures
            name@ == role_name(self),
    {
        match self {
            Role::Owner => "owner",
            Role::Admin => "admin",
            Role::Moderator => "moderator",
            Role::Member => "member",
        }
    }

    /// The lower-case name of this role, owned.
    pub fn to_string(self) -> (name: String)
        ensures
            name@ == role_name(self),
    {
        String::from_str(self.as_str())
    }

    /// Reads a role from its lower-case name.
    pub fn parse(s: &str) -> (r: Result<Role, AppError>)
        ensures
            match role_named(s@) {
                Some(role) => r == Ok::<Role, AppError>(role),
                None => r is Err && r->Err_0.is(ErrorKind::BadRequest, "Invalid role: "@ + s@),
            },
    {
        if str_eq(s, "owner") {
            Ok(Role::Owner)
        } else if str_eq(s, "admin") {
            Ok(Role::Admin)
        } else if str_eq(s, "moderator") {
            Ok(Role::Moderator)
        } else if str_eq(s, "member") {
            Ok(Role::Member)
        } else {
            let mut m = String::from_str("Invalid role: ");
            m.append(s);
            Err(AppError::bad_request(m.as_str()))
        }
    }
}

impl std::str::FromStr for Role {
    type Err = AppError;

    fn from_str(s: &str) -> (r: Result<Self, AppError>)
        ensures
            match role_named(s@) {
                Some(role) => r == Ok::<Role, AppError>(role),
                None => r is Err && r->Err_0.is(ErrorKind::BadRequest, "Invalid role: "@ + s@),
            },
    {
        Role::parse(s)
    }
}

/// Checks that the user's role meets the minimum required level.
pub fn require_role(user_role: Role, minimum: Role) -> (r: Result<Role, AppError>)
    ensures
        level_of(user_role) >= level_of(minimum) ==> r == Ok::<Role, AppError>(user_role),
        level_of(user_role) < level_of(minimum) ==> r is Err && r->Err_0.is(
            ErrorKind::Forbidden,
            "Requires "@ + role_name(minimum) + " role or higher"@,
        ),
{
    if user_role.level() >= minimum.level() {
        Ok(user_role)
    } else {
        let mut m = String::from_str("Requires ");
        m.append(minimum.as_str());
        m.append(" role or higher");
        Err(AppError::forbidden(m.as_str()))
    }
}

/// Checks that the actor has a strictly higher role than the target.
pub fn require_higher_role(actor_role: Role, target_role: Role) -> (r: Result<(), AppError>)
    ensures
        level_of(actor_role) > level_of(target_role) ==> r is Ok,
        level_of(actor_role) <= level_of(target_role) ==> r is Err && r->Err_0.is(
            ErrorKind::Forbidden,
            "Cannot moderate a user with equal or higher role"@,
        ),
{
    if actor_role.level() > target_role.level() {
        Ok(())
    } else {
        Err(AppError::forbidden("Cannot moderate a user with equal or higher role"))
    }
}

/// Checks that the actor can assign the given role: it must be strictly
/// below the actor's own, and the owner role is never assigned.
pub fn can_assign_role(actor_role: Role, new_role: Role) -> (r: Result<(), AppError>)
    ensures
        new_role == Role::Owner ==> r is Err && r->Err_0.is(
            ErrorKind::Forbidden,
            "Cannot assign the owner role"@,
        ),
        new_role != Role::Owner && level_of(actor_role) > level_of(new_role) ==> r is Ok,
        new_role != Role::Owner && level_of(actor_role) <= level_of(new_role) ==> r is Err
            && r->Err_0.is(
            ErrorKind::Forbidden,
            "Cannot assign a role equal to or above your own"@,
        ),
{
    if new_role.level() == 3 {
        return Err(AppError::forbidden("Cannot assign the owner role"));
    }
    if actor_role.level() > new_role.level() {
        Ok(())
    } else {
        Err(AppError::forbidden("Cannot assign a role equal to or above your own"))
    }
}

/// Refuses a user with an active ban. Used by login and the REST surface.
pub fn check_not_banned(active_ban: &Option<Ban>) -> (r: Result<(), AppError>)
    ensures
        active_ban is None ==> r is Ok,
        active_ban is Some ==> r is Err && r->Err_0.is(
            ErrorKind::Forbidden,
            "You are banned from this server"@,
        ),
{
    if active_ban.is_some() {
        return Err(AppError::forbidden("You are banned from this server"));
    }
    Ok(())
}

/// Refuses a user with an active mute. Used by the REST routes that post.
pub fn check_not_muted(active_mute: &Option<Mute>) -> (r: Result<(), AppError>)
    ensures
        active_mute is None ==> r is Ok,
        active_mute is Some ==> r is Err && r->Err_0.is(ErrorKind::Forbidden, "You are muted"@),
{
    if active_mute.is_some() {
        return Err(AppError::forbidden("You are muted"));
    }
    Ok(())
}

/// Whether a mute lookup found an active mute. Used by the socket path.
/// A failed lookup counts as not muted.
pub fn is_muted(lookup: &Result<Option<Mute>, AppError>) -> (r: bool)
    ensures
        r == (lookup is Ok && lookup->Ok_0 is Some),
{
    match lookup {
        Ok(Some(_)) => true,
        _ => false,
    }
}

/// No role has authority over itself, and authority is transitive.
pub proof fn authority_is_strict(a: Role, b: Role, c: Role)
    ensures
        !(level_of(a) > level_of(a)),
        level_of(a) > level_of(b) && level_of(b) > level_of(c) ==> level_of(a) > level_of(c),
        level_of(a) > level_of(b) ==> !(level_of(b) > level_of(a)),
{
}

} // verus!
