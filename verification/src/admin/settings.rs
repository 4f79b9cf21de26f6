//! Server settings. Two keys are recognised: `server_name`, which must not
//! be blank, and `registration_mode`, which is `open` or `invite_only`.

use vstd::prelude::*;
use crate::events::{Outbound, Plane, ServerEvent};
use crate::models::ServerSettingUpdate;
use crate::permissions::{level_of, require_role, role_name, Role};
use crate::shared::error::{AppError, ErrorKind};
use crate::shared::text::{is_blank, str_eq, trimmed};

verus! {

/// Whether a setting may be stored.
pub open spec fn setting_ok(key: Seq<char>, value: Seq<char>) -> bool {
    if key == "registration_mode"@ {
        value == "open"@ || value == "invite_only"@
    } else if key == "server_name"@ {
        trimmed(value).len() > 0
    } else {
        false
    }
}

/// What a setting that may not be stored is answered with.
pub open spec fn setting_refusal(key: Seq<char>) -> Seq<char> {
    if key == "registration_mode"@ {
        "registration_mode must be 'open' or 'invite_only'"@
    } else if key == "server_name"@ {
        "server_name cannot be empty"@
    } else {
        "Unknown setting: "@ + key
    }
}

/// Checks a setting: its key must be known and its value must fit the key.
pub fn validate_setting(key: &str, value: &str) -> (r: Result<(), AppError>)
    ensures
        setting_ok(key@, value@) ==> r is Ok,
        !setting_ok(key@, value@) ==> r is Err && r->Err_0.is(
            ErrorKind::BadRequest,
            setting_refusal(key@),
        ),
{
    if str_eq(key, "registration_mode") {
        if !str_eq(value, "open") && !str_eq(value, "invite_only") {
            return Err(
                AppError::bad_request("registration_mode must be 'open' or 'invite_only'"),
            );
        }
        Ok(())
    } else if str_eq(key, "server_name") {
        if is_blank(value) {
            return Err(AppError::bad_request("server_name cannot be empty"));
        }
        Ok(())
    } else {
        let mut m = String::from_str("Unknown setting: ");
        m.append(key);
        Err(AppError::bad_request(m.as_str()))
    }
}

/// Decides a request to change a setting: the actor must be an admin or
/// above and the setting must be acceptable. Returns the announcement to
/// publish once the setting is stored.
pub fn update_setting(actor_role: Role, payload: ServerSettingUpdate) -> (r: Result<Outbound, AppError>)
    ensures
        level_of(actor_role) < level_of(Role::Admin) ==> r is Err && r->Err_0.is(
            ErrorKind::Forbidden,
            "Requires "@ + role_name(Role::Admin) + " role or higher"@,
        ),
        level_of(actor_role) >= level_of(Role::Admin) && !setting_ok(payload.key@, payload.value@)
            ==> r is Err && r->Err_0.is(ErrorKind::BadRequest, setting_refusal(payload.key@)),
        level_of(actor_role) >= level_of(Role::Admin) && setting_ok(payload.key@, payload.value@)
            ==> r == Ok::<Outbound, AppError>(
            (Outbound {
                plane: Plane::Global,
                event: (ServerEvent::SettingsUpdated { key: payload.key, value: payload.value }),
            }),
        ),
{
    match require_role(actor_role, Role::Admin) {
        Ok(_) => {},
        Err(e) => {
            return Err(e);
        },
    }
    match validate_setting(payload.key.as_str(), payload.value.as_str()) {
        Ok(()) => {},
        Err(e) => {
            return Err(e);
        },
    }
    Ok(
        Outbound {
            plane: Plane::Global,
            event: ServerEvent::SettingsUpdated { key: payload.key, value: payload.value },
        },
    )
}

} // verus!
