//! Kicks, bans and mutes. Each is decided from the roles of the actor and
//! the target, written to the store by the caller, mirrored in the hub's
//! cache, logged, and announced on the global plane.

use vstd::prelude::*;
use crate::events::{Outbound, Plane, ServerEvent};
use crate::ids::{fresh_id, now, Id, Timestamp};
use crate::models::{
    copy_opt_string, Ban, BanRequest, KickRequest, ModAction, ModLogEntry, Mute, MuteRequest,
};
use crate::permissions::{level_of, require_higher_role, require_role, role_name, Role};
use crate::shared::error::{AppError, ErrorKind};
use crate::shared::validation::{reason_too_long, validate_positive_duration, validate_reason};
use crate::signing::hex_digit;
use crate::state::AppState;

verus! {

/// The microseconds of an hour.
pub const MICROS_PER_HOUR: i64 = 3_600_000_000;

/// The decimal digits of a natural number, without leading zeros.
pub open spec fn digits_of(n: nat) -> Seq<char>
    decreases n,
{
    if n < 10 {
        seq![hex_digit(n as int)]
    } else {
        digits_of(n / 10).push(hex_digit((n % 10) as int))
    }
}

/// The decimal text of an integer: its digits, after a minus sign where it
/// is negative.
pub open spec fn decimal_text(n: i64) -> Seq<char> {
    if n < 0 {
        seq!['-'] + digits_of((-(n as int)) as nat)
    } else {
        digits_of(n as nat)
    }
}

/// `i64`'s `to_string`: the number in decimal.
#[verifier::external_body]
pub(crate) fn i64_to_string(n: i64) -> (text: String)
    ensures
        text@ == decimal_text(n),
{
    n.to_string()
}

/// The instant `hours` after `now`; none where no duration is given or the
/// instant cannot be represented.
pub open spec fn expiry(now: Timestamp, hours: Option<i64>) -> Option<Timestamp> {
    match hours {
        Some(h) => if i64::MIN <= h * MICROS_PER_HOUR <= i64::MAX && i64::MIN <= now + h
            * MICROS_PER_HOUR <= i64::MAX {
            Some((now + h * MICROS_PER_HOUR) as i64)
        } else {
            None
        },
        None => None,
    }
}

/// The instant `hours` after `now`.
pub fn expires_after(now: Timestamp, hours: Option<i64>) -> (r: Option<Timestamp>)
    ensures
        r == expiry(now, hours),
{
    match hours {
        Some(h) => match h.checked_mul(MICROS_PER_HOUR) {
            Some(span) => now.checked_add(span),
            None => None,
        },
        None => None,
    }
}

/// Whether a ban or mute with this expiry is in force at `now`. Expiry at
/// `now` itself is expiry.
pub open spec fn in_force(expires_at: Option<Timestamp>, now: Timestamp) -> bool {
    match expires_at {
        Some(e) => e > now,
        None => true,
    }
}

impl Ban {
    /// Whether this ban is in force at `now`.
    pub fn is_active(&self, now: Timestamp) -> (r: bool)
        ensures
            r == in_force(self.expires_at, now),
    {
        match self.expires_at {
            Some(e) => e > now,
            None => true,
        }
    }
}

impl Mute {
    /// Whether this mute is in force at `now`.
    pub fn is_active(&self, now: Timestamp) -> (r: bool)
        ensures
            r == in_force(self.expires_at, now),
    {
        match self.expires_at {
            Some(e) => e > now,
            None => true,
        }
    }
}

/// Whether a reason and a duration may be submitted.
pub open spec fn sanction_payload_ok(reason: Option<String>, hours: Option<i64>) -> bool {
    !reason_too_long(reason) && !(hours is Some && hours->Some_0 <= 0)
}

/// Whether an actor may sanction a target: the actor is a moderator or
/// above, and strictly above the target.
pub open spec fn may_moderate(actor: Role, target: Role) -> bool {
    level_of(actor) >= level_of(Role::Moderator) && level_of(actor) > level_of(target)
}

/// The error a refused sanction is answered with: the actor's rank is
/// looked at first, then the reason, then the duration, then the actor's
/// rank against the target's.
pub open spec fn sanction_refusal(
    actor: Role,
    target: Role,
    reason: Option<String>,
    hours: Option<i64>,
) -> (ErrorKind, Seq<char>) {
    if level_of(actor) < level_of(Role::Moderator) {
        (ErrorKind::Forbidden, "Requires "@ + role_name(Role::Moderator) + " role or higher"@)
    } else if reason_too_long(reason) {
        (ErrorKind::BadRequest, "Reason must be at most 500 characters"@)
    } else if hours is Some && hours->Some_0 <= 0 {
        (ErrorKind::BadRequest, "duration_hours"@ + " must be a positive number"@)
    } else {
        (ErrorKind::Forbidden, "Cannot moderate a user with equal or higher role"@)
    }
}

/// Checks a sanction: the actor's rank first, then what was submitted,
/// then the actor's rank against the target's.
pub fn authorize_sanction(
    actor_role: Role,
    target_role: Role,
    reason: &Option<String>,
    hours: Option<i64>,
) -> (r: Result<(), AppError>)
    ensures
        r is Ok <==> may_moderate(actor_role, target_role) && sanction_payload_ok(*reason, hours),
        r is Err ==> r->Err_0.is(
            sanction_refusal(actor_role, target_role, *reason, hours).0,
            sanction_refusal(actor_role, target_role, *reason, hours).1,
        ),
{
    match require_role(actor_role, Role::Moderator) {
        Ok(_) => {},
        Err(e) => {
            return Err(e);
        },
    }
    match validate_reason(reason) {
        Ok(()) => {},
        Err(e) => {
            return Err(e);
        },
    }
    match validate_positive_duration(hours, "duration_hours") {
        Ok(()) => {},
        Err(e) => {
            return Err(e);
        },
    }
    require_higher_role(actor_role, target_role)
}

/// Checks that an actor may lift a sanction or read the moderation lists:
/// a moderator or above may.
pub fn authorize_moderator(actor_role: Role) -> (r: Result<(), AppError>)
    ensures
        r is Ok <==> level_of(actor_role) >= level_of(Role::Moderator),
        r is Err ==> r->Err_0.is(
            ErrorKind::Forbidden,
            "Requires "@ + role_name(Role::Moderator) + " role or higher"@,
        ),
{
    match require_role(actor_role, Role::Moderator) {
        Ok(_) => Ok(()),
        Err(e) => Err(e),
    }
}

/// The details logged with a timed sanction.
pub open spec fn duration_details(hours: Option<i64>) -> Option<Seq<char>> {
    match hours {
        Some(h) => Some("duration: "@ + decimal_text(h) + " hours"@),
        None => None,
    }
}

fn make_duration_details(hours: Option<i64>) -> (r: Option<String>)
    ensures
        r is Some == hours is Some,
        r is Some ==> Some(r->Some_0@) == duration_details(hours),
{
    match hours {
        Some(h) => {
            let mut d = String::from_str("duration: ");
            d.append(i64_to_string(h).as_str());
            d.append(" hours");
            Some(d)
        },
        None => None,
    }
}

/// A kick that was allowed: what to log and what to announce. A kick
/// leaves no row and no cache entry; the target's sockets end when they
/// see the announcement.
#[derive(Debug)]
pub struct Kick {
    pub log: ModLogEntry,
    pub event: Outbound,
}

/// A ban that was allowed: the row to store, what to log and what to
/// announce.
#[derive(Debug)]
pub struct BanOrder {
    pub ban: Ban,
    pub log: ModLogEntry,
    pub event: Outbound,
}

/// A mute that was allowed: the row to store, what to log and what to
/// announce.
#[derive(Debug)]
pub struct MuteOrder {
    pub mute: Mute,
    pub log: ModLogEntry,
    pub event: Outbound,
}

/// A sanction that was lifted: what to log and what to announce.
#[derive(Debug)]
pub struct Lift {
    pub user_id: Id,
    pub log: ModLogEntry,
    pub event: Outbound,
}

/// Whether a log entry records this action by this actor on this target.
pub open spec fn logs(
    entry: ModLogEntry,
    action: ModAction,
    actor_id: Id,
    target: Id,
    reason: Option<String>,
) -> bool {
    entry.action == action && entry.moderator_id == actor_id && entry.target_user_id == target
        && entry.reason == reason
}

/// Decides a request to kick a user.
pub fn kick_user(actor_id: Id, actor_role: Role, target_role: Role, payload: KickRequest) -> (r:
    Result<Kick, AppError>)
    ensures
        r is Ok <==> may_moderate(actor_role, target_role) && sanction_payload_ok(
            payload.reason,
            None,
        ),
        r is Ok ==> logs(r->Ok_0.log, ModAction::Kick, actor_id, payload.user_id, payload.reason)
            && r->Ok_0.log.details is None && r->Ok_0.event == (Outbound {
            plane: Plane::Global,
            event: (ServerEvent::UserKicked { user_id: payload.user_id, reason: payload.reason }),
        }),
        r is Err ==> r->Err_0.is(
            sanction_refusal(actor_role, target_role, payload.reason, None).0,
            sanction_refusal(actor_role, target_role, payload.reason, None).1,
        ),
{
    match authorize_sanction(actor_role, target_role, &payload.reason, None) {
        Ok(()) => {},
        Err(e) => {
            return Err(e);
        },
    }
    let log = ModLogEntry::new(
        ModAction::Kick,
        actor_id,
        payload.user_id,
        copy_opt_string(&payload.reason),
        None,
    );
    Ok(
        Kick {
            log,
            event: Outbound {
                plane: Plane::Global,
                event: ServerEvent::UserKicked {
                    user_id: payload.user_id,
                    reason: payload.reason,
                },
            },
        },
    )
}

/// Decides a request to ban a user. The ban starts now and lasts for the
/// hours asked, or for ever where none are.
pub fn ban_user(actor_id: Id, actor_role: Role, target_role: Role, payload: BanRequest) -> (r:
    Result<BanOrder, AppError>)
    ensures
        r is Ok <==> may_moderate(actor_role, target_role) && sanction_payload_ok(
            payload.reason,
            payload.duration_hours,
        ),
        r is Ok ==> {
            let o = r->Ok_0;
            &&& o.ban.user_id == payload.user_id
            &&& o.ban.banned_by == actor_id
            &&& o.ban.reason == payload.reason
            &&& o.ban.expires_at == expiry(o.ban.created_at, payload.duration_hours)
            &&& logs(o.log, ModAction::Ban, actor_id, payload.user_id, payload.reason)
            &&& o.log.details is Some == payload.duration_hours is Some
            &&& (o.log.details is Some ==> Some(o.log.details->Some_0@) == duration_details(
                payload.duration_hours,
            ))
            &&& o.event == (Outbound {
                plane: Plane::Global,
                event: (ServerEvent::UserBanned {
                    user_id: payload.user_id,
                    reason: payload.reason,
                }),
            })
        },
        r is Err ==> r->Err_0.is(
            sanction_refusal(actor_role, target_role, payload.reason, payload.duration_hours).0,
            sanction_refusal(actor_role, target_role, payload.reason, payload.duration_hours).1,
        ),
{
    match authorize_sanction(actor_role, target_role, &payload.reason, payload.duration_hours) {
        Ok(()) => {},
        Err(e) => {
            return Err(e);
        },
    }
    let created_at = now();
    let ban = Ban {
        id: fresh_id(),
        user_id: payload.user_id,
        banned_by: actor_id,
        reason: copy_opt_string(&payload.reason),
        expires_at: expires_after(created_at, payload.duration_hours),
        created_at,
    };
    let log = ModLogEntry::new(
        ModAction::Ban,
        actor_id,
        payload.user_id,
        copy_opt_string(&payload.reason),
        make_duration_details(payload.duration_hours),
    );
    Ok(
        BanOrder {
            ban,
            log,
            event: Outbound {
                plane: Plane::Global,
                event: ServerEvent::UserBanned {
                    user_id: payload.user_id,
                    reason: payload.reason,
                },
            },
        },
    )
}

/// Decides a request to mute a user. The mute starts now and lasts for
/// the hours asked, or for ever where none are.
pub fn mute_user(actor_id: Id, actor_role: Role, target_role: Role, payload: MuteRequest) -> (r:
    Result<MuteOrder, AppError>)
    ensures
        r is Ok <==> may_moderate(actor_role, target_role) && sanction_payload_ok(
            payload.reason,
            payload.duration_hours,
        ),
        r is Ok ==> {
            let o = r->Ok_0;
            &&& o.mute.user_id == payload.user_id
            &&& o.mute.muted_by == actor_id
            &&& o.mute.reason == payload.reason
            &&& o.mute.expires_at == expiry(o.mute.created_at, payload.duration_hours)
            &&& logs(o.log, ModAction::Mute, actor_id, payload.user_id, payload.reason)
            &&& o.log.details is Some == payload.duration_hours is Some
            &&& (o.log.details is Some ==> Some(o.log.details->Some_0@) == duration_details(
                payload.duration_hours,
            ))
            &&& o.event == (Outbound {
                plane: Plane::Global,
                event: (ServerEvent::UserMuted {
                    user_id: payload.user_id,
                    reason: payload.reason,
                    expires_at: o.mute.expires_at,
                }),
            })
        },
        r is Err ==> r->Err_0.is(
            sanction_refusal(actor_role, target_role, payload.reason, payload.duration_hours).0,
            sanction_refusal(actor_role, target_role, payload.reason, payload.duration_hours).1,
        ),
{
    match authorize_sanction(actor_role, target_role, &payload.reason, payload.duration_hours) {
        Ok(()) => {},
        Err(e) => {
            return Err(e);
        },
    }
    let created_at = now();
    let expires_at = expires_after(created_at, payload.duration_hours);
    let mute = Mute {
        id: fresh_id(),
        user_id: payload.user_id,
        muted_by: actor_id,
        reason: copy_opt_string(&payload.reason),
        expires_at,
        created_at,
    };
    let log = ModLogEntry::new(
        ModAction::Mute,
        actor_id,
        payload.user_id,
        copy_opt_string(&payload.reason),
        make_duration_details(payload.duration_hours),
    );
    Ok(
        MuteOrder {
            mute,
            log,
            event: Outbound {
                plane: Plane::Global,
                event: ServerEvent::UserMuted {
                    user_id: payload.user_id,
                    reason: payload.reason,
                    expires_at,
                },
            },
        },
    )
}

/// Decides a request to lift a ban.
pub fn unban_user(actor_id: Id, actor_role: Role, target_user_id: Id) -> (r: Result<Lift, AppError>)
    ensures
        r is Ok <==> level_of(actor_role) >= level_of(Role::Moderator),
        r is Err ==> r->Err_0.is(
            ErrorKind::Forbidden,
            "Requires "@ + role_name(Role::Moderator) + " role or higher"@,
        ),
        r is Ok ==> r->Ok_0.user_id == target_user_id && logs(
            r->Ok_0.log,
            ModAction::Unban,
            actor_id,
            target_user_id,
            None,
        ) && r->Ok_0.log.details is None && r->Ok_0.event == (Outbound {
            plane: Plane::Global,
            event: (ServerEvent::UserUnbanned { user_id: target_user_id }),
        }),
{
    match authorize_moderator(actor_role) {
        Ok(()) => {},
        Err(e) => {
            return Err(e);
        },
    }
    Ok(
        Lift {
            user_id: target_user_id,
            log: ModLogEntry::new(ModAction::Unban, actor_id, target_user_id, None, None),
            event: Outbound {
                plane: Plane::Global,
                event: ServerEvent::UserUnbanned { user_id: target_user_id },
            },
        },
    )
}

/// Decides a request to lift a mute.
pub fn unmute_user(actor_id: Id, actor_role: Role, target_user_id: Id) -> (r: Result<Lift, AppError>)
    ensures
        r is Ok <==> level_of(actor_role) >= level_of(Role::Moderator),
        r is Err ==> r->Err_0.is(
            ErrorKind::Forbidden,
            "Requires "@ + role_name(Role::Moderator) + " role or higher"@,
        ),
        r is Ok ==> r->Ok_0.user_id == target_user_id && logs(
            r->Ok_0.log,
            ModAction::Unmute,
            actor_id,
            target_user_id,
            None,
        ) && r->Ok_0.log.details is None && r->Ok_0.event == (Outbound {
            plane: Plane::Global,
            event: (ServerEvent::UserUnmuted { user_id: target_user_id }),
        }),
{
    match authorize_moderator(actor_role) {
        Ok(()) => {},
        Err(e) => {
            return Err(e);
        },
    }
    Ok(
        Lift {
            user_id: target_user_id,
            log: ModLogEntry::new(ModAction::Unmute, actor_id, target_user_id, None, None),
            event: Outbound {
                plane: Plane::Global,
                event: ServerEvent::UserUnmuted { user_id: target_user_id },
            },
        },
    )
}

/// Puts a ban that was stored into force in the hub: the user joins the
/// cached set of banned users. Hands back what is left to do, in order:
/// the entry to log, then the event to announce.
pub fn apply_ban(hub: &mut AppState, order: BanOrder) -> (rest: (ModLogEntry, Outbound))
    ensures
        final(hub).banned() == old(hub).banned().insert(order.ban.user_id),
        final(hub).muted() == old(hub).muted(),
        final(hub).same_but_caches(old(hub)),
        rest.0 == order.log,
        rest.1 == order.event,
{
    hub.cache_ban(order.ban.user_id);
    (order.log, order.event)
}

/// Takes a ban that was deleted out of force in the hub: the user leaves
/// the cached set of banned users, and nobody else does. Hands back the
/// entry to log, then the event to announce.
pub fn apply_unban(hub: &mut AppState, lift: Lift) -> (rest: (ModLogEntry, Outbound))
    ensures
        final(hub).banned() == old(hub).banned().remove(lift.user_id),
        final(hub).muted() == old(hub).muted(),
        final(hub).same_but_caches(old(hub)),
        rest.0 == lift.log,
        rest.1 == lift.event,
{
    hub.uncache_ban(lift.user_id);
    (lift.log, lift.event)
}

/// Puts a mute that was stored into force in the hub: the user joins the
/// cached set of muted users. Hands back the entry to log, then the event
/// to announce.
pub fn apply_mute(hub: &mut AppState, order: MuteOrder) -> (rest: (ModLogEntry, Outbound))
    ensures
        final(hub).muted() == old(hub).muted().insert(order.mute.user_id),
        final(hub).banned() == old(hub).banned(),
        final(hub).same_but_caches(old(hub)),
        rest.0 == order.log,
        rest.1 == order.event,
{
    hub.cache_mute(order.mute.user_id);
    (order.log, order.event)
}

/// Takes a mute that was deleted out of force in the hub: the user leaves
/// the cached set of muted users, and nobody else does. Hands back the
/// entry to log, then the event to announce.
pub fn apply_unmute(hub: &mut AppState, lift: Lift) -> (rest: (ModLogEntry, Outbound))
    ensures
        final(hub).muted() == old(hub).muted().remove(lift.user_id),
        final(hub).banned() == old(hub).banned(),
        final(hub).same_but_caches(old(hub)),
        rest.0 == lift.log,
        rest.1 == lift.event,
{
    hub.uncache_mute(lift.user_id);
    (lift.log, lift.event)
}

/// The users with a ban in force at `now` among `bans`.
pub open spec fn banned_at(bans: Seq<Ban>, now: Timestamp) -> Set<Id> {
    Set::new(
        |u: Id|
            exists|i: int|
                0 <= i < bans.len() && (#[trigger] bans[i]).user_id == u && in_force(
                    bans[i].expires_at,
                    now,
                ),
    )
}

/// The users with a mute in force at `now` among `mutes`.
pub open spec fn muted_at(mutes: Seq<Mute>, now: Timestamp) -> Set<Id> {
    Set::new(
        |u: Id|
            exists|i: int|
                0 <= i < mutes.len() && (#[trigger] mutes[i]).user_id == u && in_force(
                    mutes[i].expires_at,
                    now,
                ),
    )
}

/// The users of the bans in force at `now`.
fn active_ban_users(bans: &Vec<Ban>, now: Timestamp) -> (ids: Vec<Id>)
    ensures
        ids@.to_set() == banned_at(bans@, now),
{
    let mut ids: Vec<Id> = Vec::new();
    let mut i: usize = 0;
    while i < bans.len()
        invariant
            i <= bans.len(),
            forall|u: Id|
                ids@.contains(u) <==> exists|k: int|
                    0 <= k < i && (#[trigger] bans@[k]).user_id == u && in_force(
                        bans@[k].expires_at,
                        now,
                    ),
        decreases bans.len() - i,
    {
        let ghost before = ids@;
        if bans[i].is_active(now) {
            ids.push(bans[i].user_id);
        }
        proof {
            assert forall|u: Id|
                ids@.contains(u) <==> exists|k: int|
                    0 <= k < i + 1 && (#[trigger] bans@[k]).user_id == u && in_force(
                        bans@[k].expires_at,
                        now,
                    ) by {
                if ids@.contains(u) {
                    let j = choose|j: int| 0 <= j < ids@.len() && ids@[j] == u;
                    if j < before.len() {
                        assert(before[j] == u);
                        assert(before.contains(u));
                    } else {
                        assert(bans@[i as int].user_id == u);
                    }
                }
                if exists|k: int|
                    0 <= k < i + 1 && (#[trigger] bans@[k]).user_id == u && in_force(
                        bans@[k].expires_at,
                        now,
                    ) {
                    let k = choose|k: int|
                        0 <= k < i + 1 && (#[trigger] bans@[k]).user_id == u && in_force(
                            bans@[k].expires_at,
                            now,
                        );
                    if k < i {
                        assert(before.contains(u));
                        let j = choose|j: int| 0 <= j < before.len() && before[j] == u;
                        assert(ids@[j] == u);
                    } else {
                        assert(ids@[ids@.len() - 1] == u);
                    }
                }
            }
        }
        i += 1;
    }
    assert(ids@.to_set() =~= banned_at(bans@, now));
    ids
}

/// The users of the mutes in force at `now`.
fn active_mute_users(mutes: &Vec<Mute>, now: Timestamp) -> (ids: Vec<Id>)
    ensures
        ids@.to_set() == muted_at(mutes@, now),
{
    let mut ids: Vec<Id> = Vec::new();
    let mut i: usize = 0;
    while i < mutes.len()
        invariant
            i <= mutes.len(),
            forall|u: Id|
                ids@.contains(u) <==> exists|k: int|
                    0 <= k < i && (#[trigger] mutes@[k]).user_id == u && in_force(
                        mutes@[k].expires_at,
                        now,
                    ),
        decreases mutes.len() - i,
    {
        let ghost before = ids@;
        if mutes[i].is_active(now) {
            ids.push(mutes[i].user_id);
        }
        proof {
            assert forall|u: Id|
                ids@.contains(u) <==> exists|k: int|
                    0 <= k < i + 1 && (#[trigger] mutes@[k]).user_id == u && in_force(
                        mutes@[k].expires_at,
                        now,
                    ) by {
                if ids@.contains(u) {
                    let j = choose|j: int| 0 <= j < ids@.len() && ids@[j] == u;
                    if j < before.len() {
                        assert(before[j] == u);
                        assert(before.contains(u));
                    } else {
                        assert(mutes@[i as int].user_id == u);
                    }
                }
                if exists|k: int|
                    0 <= k < i + 1 && (#[trigger] mutes@[k]).user_id == u && in_force(
                        mutes@[k].expires_at,
                        now,
                    ) {
                    let k = choose|k: int|
                        0 <= k < i + 1 && (#[trigger] mutes@[k]).user_id == u && in_force(
                            mutes@[k].expires_at,
                            now,
                        );
                    if k < i {
                        assert(before.contains(u));
                        let j = choose|j: int| 0 <= j < before.len() && before[j] == u;
                        assert(ids@[j] == u);
                    } else {
                        assert(ids@[ids@.len() - 1] == u);
                    }
                }
            }
        }
        i += 1;
    }
    assert(ids@.to_set() =~= muted_at(mutes@, now));
    ids
}

/// Rebuilds the cache of banned users from the stored bans: afterwards it
/// holds exactly the users with a ban in force at `now`.
pub fn refresh_ban_cache(hub: &mut AppState, bans: &Vec<Ban>, now: Timestamp)
    ensures
        final(hub).banned() == banned_at(bans@, now),
        final(hub).muted() == old(hub).muted(),
        final(hub).same_but_caches(old(hub)),
{
    let active = active_ban_users(bans, now);
    hub.replace_bans(&active);
}

/// Rebuilds the cache of muted users from the stored mutes: afterwards it
/// holds exactly the users with a mute in force at `now`.
pub fn refresh_mute_cache(hub: &mut AppState, mutes: &Vec<Mute>, now: Timestamp)
    ensures
        final(hub).muted() == muted_at(mutes@, now),
        final(hub).banned() == old(hub).banned(),
        final(hub).same_but_caches(old(hub)),
{
    let active = active_mute_users(mutes, now);
    hub.replace_mutes(&active);
}

/// After a refresh the cache mirrors the bans in force: every such ban's
/// user is cached, and every cached user has such a ban.
pub proof fn cache_mirrors_active_bans(bans: Seq<Ban>, now: Timestamp, cache: Set<Id>)
    requires
        cache == banned_at(bans, now),
    ensures
        forall|i: int|
            0 <= i < bans.len() && in_force((#[trigger] bans[i]).expires_at, now)
                ==> cache.contains(bans[i].user_id),
        forall|u: Id|
            cache.contains(u) ==> exists|i: int|
                0 <= i < bans.len() && (#[trigger] bans[i]).user_id == u && in_force(
                    bans[i].expires_at,
                    now,
                ),
{
}

} // verus!
