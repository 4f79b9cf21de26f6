//! Changing a user's role. The owner's role is never changed, the owner
//! role is never assigned, and an actor changes only users below them, to
//! roles below their own.

use vstd::prelude::*;
use crate::events::{Outbound, Plane, ServerEvent};
use crate::ids::Id;
use crate::models::{ModAction, ModLogEntry, RoleChangeRequest};
use crate::permissions::{
    can_assign_role, level_of, require_higher_role, require_role, role_name, Role,
};
use crate::shared::error::{AppError, ErrorKind};

verus! {

/// What a role change consists of once it is allowed.
#[derive(Debug)]
pub struct RoleChange {
    pub target_user_id: Id,
    pub new_role: Role,
    pub log: ModLogEntry,
    pub event: Outbound,
}

/// Whether an actor may give a target a new role.
pub open spec fn role_change_allowed(actor: Role, target: Role, new_role: Role) -> bool {
    &&& level_of(actor) >= level_of(Role::Admin)
    &&& target != Role::Owner
    &&& new_role != Role::Owner
    &&& level_of(actor) > level_of(new_role)
    &&& level_of(actor) > level_of(target)
}

/// The details logged with a role change.
pub open spec fn role_change_details(from: Role, to: Role) -> Seq<char> {
    "{\"from\":\""@ + role_name(from) + "\",\"to\":\""@ + role_name(to) + "\"}"@
}

/// The error a refused role change is answered with.
pub open spec fn role_change_refusal(actor: Role, target: Role, new_role: Role) -> Seq<char> {
    if level_of(actor) < level_of(Role::Admin) {
        "Requires "@ + role_name(Role::Admin) + " role or higher"@
    } else if target == Role::Owner {
        "Cannot change the owner's role"@
    } else if new_role == Role::Owner {
        "Cannot assign the owner role"@
    } else if level_of(actor) <= level_of(new_role) {
        "Cannot assign a role equal to or above your own"@
    } else {
        "Cannot moderate a user with equal or higher role"@
    }
}

/// Checks that an actor may give a target a new role.
pub fn authorize_role_change(actor_role: Role, target_role: Role, new_role: Role) -> (r: Result<
    (),
    AppError,
>)
    ensures
        r is Ok <==> role_change_allowed(actor_role, target_role, new_role),
        r is Err ==> r->Err_0.is(
            ErrorKind::Forbidden,
            role_change_refusal(actor_role, target_role, new_role),
        ),
{
    match require_role(actor_role, Role::Admin) {
        Ok(_) => {},
        Err(e) => {
            return Err(e);
        },
    }
    if target_role.level() == 3 {
        return Err(AppError::forbidden("Cannot change the owner's role"));
    }
    match can_assign_role(actor_role, new_role) {
        Ok(()) => {},
        Err(e) => {
            return Err(e);
        },
    }
    require_higher_role(actor_role, target_role)
}

/// Decides a request to change a user's role. Returns what to store, log
/// and announce.
pub fn change_user_role(
    actor_id: Id,
    actor_role: Role,
    target_user_id: Id,
    target_role: Role,
    payload: RoleChangeRequest,
) -> (r: Result<RoleChange, AppError>)
    ensures
        r is Ok <==> role_change_allowed(actor_role, target_role, payload.role),
        r is Err ==> r->Err_0.is(
            ErrorKind::Forbidden,
            role_change_refusal(actor_role, target_role, payload.role),
        ),
        r is Ok ==> {
            let c = r->Ok_0;
            &&& c.target_user_id == target_user_id
            &&& c.new_role == payload.role
            &&& c.log.action == ModAction::RoleChange
            &&& c.log.moderator_id == actor_id
            &&& c.log.target_user_id == target_user_id
            &&& c.log.reason is None
            &&& c.log.details is Some
            &&& c.log.details->Some_0@ == role_change_details(target_role, payload.role)
            &&& c.event == (Outbound {
                plane: Plane::Global,
                event: (ServerEvent::UserRoleChanged {
                    user_id: target_user_id,
                    new_role: payload.role,
                }),
            })
        },
{
    match authorize_role_change(actor_role, target_role, payload.role) {
        Ok(()) => {},
        Err(e) => {
            return Err(e);
        },
    }
    let mut details = String::from_str("{\"from\":\"");
    details.append(target_role.as_str());
    details.append("\",\"to\":\"");
    details.append(payload.role.as_str());
    details.append("\"}");
    let log = ModLogEntry::new(
        ModAction::RoleChange,
        actor_id,
        target_user_id,
        None,
        Some(details),
    );
    Ok(
        RoleChange {
            target_user_id,
            new_role: payload.role,
            log,
            event: Outbound {
                plane: Plane::Global,
                event: ServerEvent::UserRoleChanged {
                    user_id: target_user_id,
                    new_role: payload.role,
                },
            },
        },
    )
}

/// Nobody becomes owner by a role change, and the owner stays owner.
pub proof fn owner_is_fixed(actor: Role, target: Role, new_role: Role)
    requires
        role_change_allowed(actor, target, new_role),
    ensures
        new_role != Role::Owner,
        target != Role::Owner,
{
}

} // verus!
