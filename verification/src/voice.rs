//! Voice-channel membership: joining, leaving and updating one's state,
//! with the events each change is announced by and the SFU connections
//! each departure closes.

use vstd::prelude::*;
use crate::events::{Outbound, Plane, ServerEvent};
use crate::ids::{now, random_id, Id, Timestamp};
use crate::models::{JoinVoiceRequest, LeaveVoiceRequest, VoiceState};
use crate::sfu::models::ParticipantConnection;
use crate::sfu::service::{closed_from, SfuService};
use crate::shared::error::{AppError, ErrorKind};
use crate::state::{channel_of, in_channel, with_flags, without_user, AppState};
use crate::tables::voice_with;

verus! {

/// What a change of membership hands back.
#[derive(Debug)]
pub struct VoiceChange {
    /// The events to publish on the global plane, in order.
    pub events: Vec<Outbound>,
    /// The SFU connections that were closed.
    pub closed: Vec<ParticipantConnection>,
}

/// The state a user joins a channel with: nothing muted, nothing shared.
pub open spec fn joining_state(
    user_id: Id,
    username: String,
    avatar_url: Option<String>,
    channel_id: Id,
    session_id: Id,
    joined_at: Timestamp,
) -> VoiceState {
    VoiceState {
        user_id,
        username,
        avatar_url,
        channel_id,
        session_id,
        is_muted: false,
        is_deafened: false,
        is_screen_sharing: false,
        is_camera_sharing: false,
        joined_at,
    }
}

/// The announcement that a user left a channel.
pub open spec fn left_event(user_id: Id, channel_id: Id) -> Outbound {
    Outbound { plane: Plane::Global, event: ServerEvent::VoiceUserLeft { user_id, channel_id } }
}

/// The registry after a user left the channel they sat in, if any: their
/// connections in that channel are closed.
pub open spec fn sfu_after_departure(
    after: &SfuService,
    before: &SfuService,
    left: Option<Id>,
    user_id: Id,
) -> bool {
    match left {
        Some(c) => after.is_closing_of(before, before.transports_of(c, user_id).to_set()),
        None => after.connections() == before.connections() && after.by_channel()
            == before.by_channel() && after.by_user() == before.by_user() && after.announced()
            == before.announced(),
    }
}

/// What was closed when a user left the channel they sat in, if any.
pub open spec fn closed_by_departure(
    closed: Seq<ParticipantConnection>,
    before: &SfuService,
    left: Option<Id>,
    user_id: Id,
) -> bool {
    match left {
        Some(c) => closed_from(
            closed,
            before.connections(),
            before.transports_of(c, user_id).to_set(),
        ),
        None => closed.len() == 0,
    }
}

/// The announcements of a departure: one for the channel left, if any.
pub open spec fn departure_events(left: Option<Id>, user_id: Id) -> Seq<Outbound> {
    match left {
        Some(c) => seq![left_event(user_id, c)],
        None => Seq::empty(),
    }
}

/// Takes a user out of the voice channel they sit in, closes their SFU
/// connections there, and announces the departure.
pub fn depart_voice(hub: &mut AppState, sfu: &mut SfuService, user_id: Id) -> (change: VoiceChange)
    requires
        old(hub).wf(),
        old(sfu).wf(),
    ensures
        final(hub).wf(),
        final(sfu).wf(),
        final(hub).voice() == without_user(old(hub).voice(), user_id),
        final(hub).same_but_voice(old(hub)),
        sfu_after_departure(final(sfu), old(sfu), channel_of(old(hub).voice(), user_id), user_id),
        closed_by_departure(
            change.closed@,
            old(sfu),
            channel_of(old(hub).voice(), user_id),
            user_id,
        ),
        change.events@ == departure_events(channel_of(old(hub).voice(), user_id), user_id),
{
    let left = hub.remove_user_from_voice(user_id);
    let mut events: Vec<Outbound> = Vec::new();
    if left.len() == 0 {
        return VoiceChange { events, closed: Vec::new() };
    }
    assert(left@.len() == 1);
    let channel_id = left[0];
    let closed = sfu.close_user_connections(channel_id, user_id);
    events.push(
        Outbound {
            plane: Plane::Global,
            event: ServerEvent::VoiceUserLeft { user_id, channel_id },
        },
    );
    assert(events@ =~= seq![left_event(user_id, channel_id)]);
    VoiceChange { events, closed }
}

/// Seats a user in a voice channel with the given session and time. Any
/// earlier membership is given up first, and announced as a departure; the
/// arrival is announced last.
pub fn join_voice_with(
    hub: &mut AppState,
    sfu: &mut SfuService,
    user_id: Id,
    username: String,
    avatar_url: Option<String>,
    channel_id: Id,
    session_id: Id,
    joined_at: Timestamp,
) -> (r: (VoiceState, VoiceChange))
    requires
        old(hub).wf(),
        old(sfu).wf(),
    ensures
        final(hub).wf(),
        final(sfu).wf(),
        r.0 == joining_state(user_id, username, avatar_url, channel_id, session_id, joined_at),
        final(hub).voice() == voice_with(
            without_user(old(hub).voice(), user_id),
            channel_id,
            user_id,
            r.0,
        ),
        channel_of(final(hub).voice(), user_id) == Some(channel_id),
        final(hub).same_but_voice(old(hub)),
        sfu_after_departure(final(sfu), old(sfu), channel_of(old(hub).voice(), user_id), user_id),
        closed_by_departure(r.1.closed@, old(sfu), channel_of(old(hub).voice(), user_id), user_id),
        r.1.events@ == departure_events(channel_of(old(hub).voice(), user_id), user_id).push(
            (Outbound { plane: Plane::Global, event: ServerEvent::VoiceUserJoined(r.0) }),
        ),
{
    let state = VoiceState {
        user_id,
        username,
        avatar_url,
        channel_id,
        session_id,
        is_muted: false,
        is_deafened: false,
        is_screen_sharing: false,
        is_camera_sharing: false,
        joined_at,
    };
    let mut change = depart_voice(hub, sfu, user_id);
    let copy = state.clone();
    let announced = state.clone();
    let ghost mid = hub.voice();
    let left = hub.join_voice(state);
    proof {
        crate::state::without_user_is_wf(old(hub).voice(), user_id);
        assert(without_user(mid, user_id) =~= mid) by {
            assert forall|c: Id| mid.contains_key(c) implies crate::state::has_other_member(
                mid[c],
                user_id,
            ) && mid[c].remove(user_id) =~= mid[c] by {
                assert(!in_channel(mid, c, user_id));
                let o = choose|o: Id| #[trigger] mid[c].contains_key(o);
                assert(o != user_id);
            }
        }
    }
    change.events.push(
        Outbound { plane: Plane::Global, event: ServerEvent::VoiceUserJoined(announced) },
    );
    (copy, change)
}

/// Seats a user in the voice channel they ask for, with a fresh session
/// and the current time.
pub fn join_voice_channel(
    hub: &mut AppState,
    sfu: &mut SfuService,
    user_id: Id,
    username: String,
    avatar_url: Option<String>,
    request: JoinVoiceRequest,
) -> (r: (VoiceState, VoiceChange))
    requires
        old(hub).wf(),
        old(sfu).wf(),
    ensures
        final(hub).wf(),
        final(sfu).wf(),
        r.0 == joining_state(
            user_id,
            username,
            avatar_url,
            request.channel_id,
            r.0.session_id,
            r.0.joined_at,
        ),
        final(hub).voice() == voice_with(
            without_user(old(hub).voice(), user_id),
            request.channel_id,
            user_id,
            r.0,
        ),
        channel_of(final(hub).voice(), user_id) == Some(request.channel_id),
        final(hub).same_but_voice(old(hub)),
        sfu_after_departure(final(sfu), old(sfu), channel_of(old(hub).voice(), user_id), user_id),
        closed_by_departure(r.1.closed@, old(sfu), channel_of(old(hub).voice(), user_id), user_id),
        r.1.events@ == departure_events(channel_of(old(hub).voice(), user_id), user_id).push(
            (Outbound { plane: Plane::Global, event: ServerEvent::VoiceUserJoined(r.0) }),
        ),
{
    join_voice_with(
        hub,
        sfu,
        user_id,
        username,
        avatar_url,
        request.channel_id,
        random_id(),
        now(),
    )
}

/// Takes a user out of the voice channel they name, closes their SFU
/// connections there, and announces the departure, whether or not they sat
/// there.
pub fn leave_voice_channel(
    hub: &mut AppState,
    sfu: &mut SfuService,
    user_id: Id,
    request: LeaveVoiceRequest,
) -> (change: VoiceChange)
    requires
        old(hub).wf(),
        old(sfu).wf(),
    ensures
        final(hub).wf(),
        final(sfu).wf(),
        final(hub).same_but_voice(old(hub)),
        in_channel(old(hub).voice(), request.channel_id, user_id) ==> final(hub).voice()
            == without_user(old(hub).voice(), user_id),
        !in_channel(old(hub).voice(), request.channel_id, user_id) ==> final(hub).voice() == old(
            hub,
        ).voice(),
        final(sfu).is_closing_of(
            old(sfu),
            old(sfu).transports_of(request.channel_id, user_id).to_set(),
        ),
        closed_from(
            change.closed@,
            old(sfu).connections(),
            old(sfu).transports_of(request.channel_id, user_id).to_set(),
        ),
        change.events@ == seq![left_event(user_id, request.channel_id)],
{
    let channel_id = request.channel_id;
    let _ = hub.leave_voice(channel_id, user_id);
    let closed = sfu.close_user_connections(channel_id, user_id);
    let mut events: Vec<Outbound> = Vec::new();
    events.push(
        Outbound {
            plane: Plane::Global,
            event: ServerEvent::VoiceUserLeft { user_id, channel_id },
        },
    );
    assert(events@ =~= seq![left_event(user_id, channel_id)]);
    VoiceChange { events, closed }
}

/// Applies the mute and deafen flags a member submits over REST, and
/// announces the new state.
pub fn update_voice_state(
    hub: &mut AppState,
    channel_id: Id,
    user_id: Id,
    is_muted: Option<bool>,
    is_deafened: Option<bool>,
) -> (r: Result<(VoiceState, Outbound), AppError>)
    requires
        old(hub).wf(),
    ensures
        final(hub).wf(),
        final(hub).same_but_voice(old(hub)),
        !in_channel(old(hub).voice(), channel_id, user_id) ==> r is Err && r->Err_0.is(
            ErrorKind::NotFound,
            "Not in voice channel"@,
        ) && final(hub).voice() == old(hub).voice(),
        in_channel(old(hub).voice(), channel_id, user_id) ==> r is Ok && r->Ok_0.0 == with_flags(
            old(hub).voice()[channel_id][user_id],
            is_muted,
            is_deafened,
        ) && r->Ok_0.1 == (Outbound {
            plane: Plane::Global,
            event: ServerEvent::VoiceStateUpdated(r->Ok_0.0),
        }) && final(hub).voice() == voice_with(old(hub).voice(), channel_id, user_id, r->Ok_0.0),
{
    match hub.update_voice_state(channel_id, user_id, is_muted, is_deafened) {
        Some(updated) => {
            let copy = updated.clone();
            Ok(
                (
                    copy,
                    Outbound {
                        plane: Plane::Global,
                        event: ServerEvent::VoiceStateUpdated(updated),
                    },
                ),
            )
        },
        None => Err(AppError::not_found("Not in voice channel")),
    }
}

/// Sets whether a member shares their screen, over REST, and announces the
/// new state.
pub fn update_screen_share(hub: &mut AppState, channel_id: Id, user_id: Id, is_screen_sharing: bool) -> (r:
    Result<(VoiceState, Outbound), AppError>)
    requires
        old(hub).wf(),
    ensures
        final(hub).wf(),
        final(hub).same_but_voice(old(hub)),
        !in_channel(old(hub).voice(), channel_id, user_id) ==> r is Err && r->Err_0.is(
            ErrorKind::NotFound,
            "Not in voice channel"@,
        ) && final(hub).voice() == old(hub).voice(),
        in_channel(old(hub).voice(), channel_id, user_id) ==> r is Ok && r->Ok_0.0 == (VoiceState {
            is_screen_sharing,
            ..old(hub).voice()[channel_id][user_id]
        }) && r->Ok_0.1 == (Outbound {
            plane: Plane::Global,
            event: ServerEvent::ScreenShareUpdated(r->Ok_0.0),
        }) && final(hub).voice() == voice_with(old(hub).voice(), channel_id, user_id, r->Ok_0.0),
{
    match hub.update_screen_share(channel_id, user_id, is_screen_sharing) {
        Some(updated) => {
            let copy = updated.clone();
            Ok(
                (
                    copy,
                    Outbound {
                        plane: Plane::Global,
                        event: ServerEvent::ScreenShareUpdated(updated),
                    },
                ),
            )
        },
        None => Err(AppError::not_found("Not in voice channel")),
    }
}

/// The announcement that a member started or stopped speaking.
pub fn update_speaking_status(channel_id: Id, user_id: Id, is_speaking: bool) -> (out: Outbound)
    ensures
        out == (Outbound {
            plane: Plane::Global,
            event: (ServerEvent::VoiceSpeaking { user_id, channel_id, is_speaking }),
        }),
{
    Outbound {
        plane: Plane::Global,
        event: ServerEvent::VoiceSpeaking { user_id, channel_id, is_speaking },
    }
}

} // verus!
