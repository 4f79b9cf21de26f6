//! Invite codes: eight characters from an alphabet without look-alikes. A
//! code is usable while it is not revoked, not used up and not expired;
//! using it takes one use.

use vstd::prelude::*;
use crate::admin::moderation::{expires_after, expiry, in_force};
use crate::ids::{fresh_id, now, Id, Timestamp};
use crate::models::{CreateInviteRequest, Invite};
use crate::permissions::{level_of, require_role, role_name, Role};
use crate::shared::error::{AppError, ErrorKind};
use crate::shared::text::{chars_of, string_of};
use crate::shared::validation::validate_positive_duration;
use rand::RngExt;

verus! {

/// The length of an invite code.
pub const INVITE_CODE_LENGTH: usize = 8;

/// The alphabet of invite codes: letters and digits without `I`, `O`, `i`,
/// `l`, `o`, `0` and `1`.
pub const INVITE_CHARSET: &'static str = "ABCDEFGHJKLMNPQRSTUVWXYZabcdefghjkmnpqrstuvwxyz23456789";

/// `RngExt::random_range` on the thread's generator: some index below `n`.
#[verifier::external_body]
pub(crate) fn random_index(n: usize) -> (i: usize)
    requires
        n > 0,
    ensures
        i < n,
{
    rand::rng().random_range(0..n)
}

/// Whether `code` is made of characters of the alphabet.
pub open spec fn in_charset(code: Seq<char>) -> bool {
    forall|i: int| 0 <= i < code.len() ==> INVITE_CHARSET@.contains(#[trigger] code[i])
}

/// Whether `draws` are eight positions in the alphabet.
pub open spec fn are_draws(draws: Seq<usize>) -> bool {
    draws.len() == INVITE_CODE_LENGTH && forall|i: int|
        0 <= i < draws.len() ==> (#[trigger] draws[i]) < INVITE_CHARSET@.len()
}

/// The invite code that eight draws stand for: the character of the
/// alphabet at each drawn position. None where `draws` are not eight
/// positions in the alphabet.
pub fn invite_code_from(draws: &Vec<usize>) -> (r: Option<String>)
    ensures
        r is Some == are_draws(draws@),
        r is Some ==> r->Some_0@.len() == INVITE_CODE_LENGTH && forall|i: int|
            0 <= i < INVITE_CODE_LENGTH ==> #[trigger] r->Some_0@[i] == INVITE_CHARSET@[draws@[i] as int],
{
    let charset = chars_of(INVITE_CHARSET);
    if draws.len() != INVITE_CODE_LENGTH {
        return None;
    }
    let mut code: Vec<char> = Vec::new();
    let mut i: usize = 0;
    while i < INVITE_CODE_LENGTH
        invariant
            i <= INVITE_CODE_LENGTH,
            draws@.len() == INVITE_CODE_LENGTH,
            charset@ == INVITE_CHARSET@,
            code@.len() == i,
            forall|k: int| 0 <= k < i ==> (#[trigger] draws@[k]) < INVITE_CHARSET@.len(),
            forall|k: int| 0 <= k < i ==> #[trigger] code@[k] == INVITE_CHARSET@[draws@[k] as int],
        decreases INVITE_CODE_LENGTH - i,
    {
        let k = draws[i];
        if k >= charset.len() {
            return None;
        }
        code.push(charset[k]);
        i += 1;
    }
    Some(string_of(&code))
}

/// A fresh invite code: eight characters, each drawn from the alphabet.
pub fn generate_invite_code() -> (code: String)
    ensures
        code@.len() == INVITE_CODE_LENGTH,
        in_charset(code@),
{
    proof {
        reveal_strlit("ABCDEFGHJKLMNPQRSTUVWXYZabcdefghjkmnpqrstuvwxyz23456789");
    }
    assert(INVITE_CHARSET@.len() == 55);
    let mut draws: Vec<usize> = Vec::new();
    let mut i: usize = 0;
    while i < INVITE_CODE_LENGTH
        invariant
            i <= INVITE_CODE_LENGTH,
            INVITE_CHARSET@.len() == 55,
            draws@.len() == i,
            forall|k: int| 0 <= k < i ==> (#[trigger] draws@[k]) < INVITE_CHARSET@.len(),
        decreases INVITE_CODE_LENGTH - i,
    {
        draws.push(random_index(55));
        i += 1;
    }
    match invite_code_from(&draws) {
        Some(code) => {
            assert forall|k: int| 0 <= k < code@.len() implies INVITE_CHARSET@.contains(
                #[trigger] code@[k],
            ) by {
                assert(code@[k] == INVITE_CHARSET@[draws@[k] as int]);
            }
            code
        },
        None => {
            assert(false);
            String::new()
        },
    }
}

/// Whether a request for an invite is acceptable.
pub open spec fn invite_request_ok(payload: CreateInviteRequest) -> bool {
    !(payload.expires_in_hours is Some && payload.expires_in_hours->Some_0 <= 0) && !(
    payload.max_uses is Some && payload.max_uses->Some_0 <= 0)
}

/// Decides a request to create an invite: the actor must be a moderator or
/// above, and a limit or a lifetime, where given, must be positive.
pub fn create_invite(actor_id: Id, actor_role: Role, payload: CreateInviteRequest) -> (r: Result<
    Invite,
    AppError,
>)
    ensures
        r is Ok <==> level_of(actor_role) >= level_of(Role::Moderator) && invite_request_ok(
            payload,
        ),
        level_of(actor_role) < level_of(Role::Moderator) ==> r is Err && r->Err_0.is(
            ErrorKind::Forbidden,
            "Requires "@ + role_name(Role::Moderator) + " role or higher"@,
        ),
        level_of(actor_role) >= level_of(Role::Moderator) && !invite_request_ok(payload) ==> r is Err
            && r->Err_0.is(
            ErrorKind::BadRequest,
            if payload.expires_in_hours is Some && payload.expires_in_hours->Some_0 <= 0 {
                "expires_in_hours"@ + " must be a positive number"@
            } else {
                "max_uses must be a positive number"@
            },
        ),
        r is Ok ==> {
            let inv = r->Ok_0;
            &&& inv.code@.len() == INVITE_CODE_LENGTH
            &&& in_charset(inv.code@)
            &&& inv.created_by == actor_id
            &&& inv.max_uses == payload.max_uses
            &&& inv.uses == 0
            &&& inv.expires_at == expiry(inv.created_at, payload.expires_in_hours)
            &&& !inv.revoked
        },
{
    match require_role(actor_role, Role::Moderator) {
        Ok(_) => {},
        Err(e) => {
            return Err(e);
        },
    }
    match validate_positive_duration(payload.expires_in_hours, "expires_in_hours") {
        Ok(()) => {},
        Err(e) => {
            return Err(e);
        },
    }
    match payload.max_uses {
        Some(max) => {
            if max <= 0 {
                return Err(AppError::bad_request("max_uses must be a positive number"));
            }
        },
        None => {},
    }
    let created_at = now();
    Ok(
        Invite {
            id: fresh_id(),
            code: generate_invite_code(),
            created_by: actor_id,
            max_uses: payload.max_uses,
            uses: 0,
            expires_at: expires_after(created_at, payload.expires_in_hours),
            revoked: false,
            created_at,
        },
    )
}

/// Whether an invite may be used at `now`: it is not revoked, has a use
/// left, and expires later than `now` or never.
pub open spec fn usable(invite: Invite, now: Timestamp) -> bool {
    &&& !invite.revoked
    &&& in_force(invite.expires_at, now)
    &&& match invite.max_uses {
        Some(max) => invite.uses < max,
        None => true,
    }
}

impl Invite {
    /// Whether this invite may be used at `now`.
    pub fn is_usable(&self, now: Timestamp) -> (r: bool)
        ensures
            r == usable(*self, now),
    {
        let unexpired = match self.expires_at {
            Some(e) => e > now,
            None => true,
        };
        let has_use = match self.max_uses {
            Some(max) => self.uses < max,
            None => true,
        };
        !self.revoked && unexpired && has_use
    }

    /// Uses this invite once at `now`, if it may be used. The check and
    /// the count are one step. An invite used more often than can be
    /// counted is refused.
    pub fn consume(&mut self, now: Timestamp) -> (r: Result<(), AppError>)
        ensures
            r is Ok <==> usable(*old(self), now) && old(self).uses < i32::MAX,
            r is Ok ==> *final(self) == (Invite { uses: (old(self).uses + 1) as i32, ..*old(self) }),
            r is Err ==> *final(self) == *old(self) && r->Err_0.is(
                ErrorKind::BadRequest,
                "Invalid, expired, or fully used invite code"@,
            ),
    {
        if !self.is_usable(now) || self.uses == i32::MAX {
            return Err(AppError::bad_request("Invalid, expired, or fully used invite code"));
        }
        self.uses = self.uses + 1;
        Ok(())
    }

    /// Revokes this invite. Revoking it again changes nothing.
    pub fn revoke(&mut self)
        ensures
            *final(self) == (Invite { revoked: true, ..*old(self) }),
    {
        self.revoked = true;
    }
}

/// Whether there is an invite to revoke: one that is not revoked yet.
pub open spec fn revocable(invite: Option<Invite>) -> bool {
    invite is Some && !invite->Some_0.revoked
}

/// Decides a request to revoke the invite found for an id, if any: the
/// actor must be a moderator or above; an invite that is missing or
/// revoked already is not found.
pub fn revoke_invite(actor_role: Role, invite: &mut Option<Invite>) -> (r: Result<(), AppError>)
    ensures
        r is Ok <==> level_of(actor_role) >= level_of(Role::Moderator) && revocable(*old(invite)),
        level_of(actor_role) < level_of(Role::Moderator) ==> r is Err && r->Err_0.is(
            ErrorKind::Forbidden,
            "Requires "@ + role_name(Role::Moderator) + " role or higher"@,
        ),
        level_of(actor_role) >= level_of(Role::Moderator) && !revocable(*old(invite)) ==> r is Err
            && r->Err_0.is(ErrorKind::NotFound, "Invite not found"@),
        r is Ok ==> *final(invite) == Some(
            (Invite { revoked: true, ..(*old(invite))->Some_0 }),
        ),
        r is Err ==> *final(invite) == *old(invite),
{
    match require_role(actor_role, Role::Moderator) {
        Ok(_) => {},
        Err(e) => {
            return Err(e);
        },
    }
    match invite {
        Some(inv) => {
            if inv.revoked {
                Err(AppError::not_found("Invite not found"))
            } else {
                inv.revoke();
                Ok(())
            }
        },
        None => Err(AppError::not_found("Invite not found")),
    }
}

/// Tells whether the invite found for a code, if any, may be used at
/// `now`. An unknown code is simply not valid.
pub fn validate_invite(invite: &Option<Invite>, now: Timestamp) -> (valid: bool)
    ensures
        valid == (invite is Some && usable(invite->Some_0, now)),
{
    match invite {
        Some(inv) => inv.is_usable(now),
        None => false,
    }
}

/// Uses the invite found for a code, if any, for a registration at `now`.
/// An unknown code is refused like one that may not be used.
pub fn use_invite_code(invite: &mut Option<Invite>, now: Timestamp) -> (r: Result<(), AppError>)
    ensures
        r is Ok <==> *old(invite) is Some && usable((*old(invite))->Some_0, now) && (*old(
            invite,
        ))->Some_0.uses < i32::MAX,
        r is Err ==> r->Err_0.is(
            ErrorKind::BadRequest,
            "Invalid, expired, or fully used invite code"@,
        ),
        match *old(invite) {
            Some(inv) => *final(invite) == Some(after_attempt(inv, now)),
            None => *final(invite) is None,
        },
{
    match invite {
        Some(inv) => inv.consume(now),
        None => Err(AppError::bad_request("Invalid, expired, or fully used invite code")),
    }
}

/// The invite after one attempt to use it at `now`.
pub open spec fn after_attempt(invite: Invite, now: Timestamp) -> Invite {
    if usable(invite, now) && invite.uses < i32::MAX {
        Invite { uses: (invite.uses + 1) as i32, ..invite }
    } else {
        invite
    }
}

/// The number of attempts that succeed when an invite is tried at each of
/// `times`, one attempt after the other.
pub open spec fn successes(invite: Invite, times: Seq<Timestamp>) -> nat
    decreases times.len(),
{
    if times.len() == 0 {
        0
    } else if usable(invite, times[0]) && invite.uses < i32::MAX {
        1 + successes(after_attempt(invite, times[0]), times.drop_first())
    } else {
        successes(invite, times.drop_first())
    }
}

/// An invite is never used more often than it has uses left.
pub proof fn never_overused(invite: Invite, times: Seq<Timestamp>)
    requires
        invite.max_uses is Some,
        0 <= invite.uses <= invite.max_uses->Some_0,
    ensures
        successes(invite, times) <= invite.max_uses->Some_0 - invite.uses,
    decreases times.len(),
{
    if times.len() > 0 {
        never_overused(after_attempt(invite, times[0]), times.drop_first());
    }
}

/// However many attempts are made on a fresh code with one use, while it
/// is neither revoked nor expired, exactly one succeeds.
pub proof fn single_use_succeeds_once(invite: Invite, times: Seq<Timestamp>)
    requires
        invite.max_uses == Some(1i32),
        invite.uses == 0,
        !invite.revoked,
        times.len() > 0,
        forall|i: int| 0 <= i < times.len() ==> in_force(invite.expires_at, #[trigger] times[i]),
    ensures
        successes(invite, times) == 1,
{
    let used = after_attempt(invite, times[0]);
    never_overused(used, times.drop_first());
}

/// Once an invite is revoked there is none to revoke: a second request
/// finds nothing, and leaves the invite as it is.
pub proof fn revoked_is_not_revocable(invite: Invite)
    ensures
        !revocable(Some((Invite { revoked: true, ..invite }))),
{
}

/// A revoked invite is refused, whatever uses it has left.
pub proof fn revoked_is_refused(invite: Invite, now: Timestamp)
    requires
        invite.revoked,
    ensures
        !usable(invite, now),
{
}

/// An invite that expires at `now` is expired at `now`.
pub proof fn expiry_is_strict(invite: Invite, now: Timestamp)
    requires
        invite.expires_at == Some(now),
    ensures
        !usable(invite, now),
{
}

} // verus!
