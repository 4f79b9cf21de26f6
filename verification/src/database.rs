//! What the persistence facade does besides running queries: it maps
//! outcomes of the store to domain errors, cuts reply snapshots, groups
//! rows by message, and joins what was fetched in batches to the messages
//! of a page.

use vstd::prelude::*;
use std::collections::HashMap;
use crate::ids::Id;
use crate::models::{Attachment, ChannelType, LinkPreview, Message, Reaction, ReplyPreview};
use crate::shared::error::{AppError, ErrorKind};
use crate::shared::text::{chars_of, contains, contains_run};
use crate::shared::validation::REPLY_PREVIEW_LENGTH;
use crate::shared::{truncate_string, truncated};

verus! {

broadcast use vstd::std_specs::hash::group_hash_axioms;

/// The name and kind of each channel a new server starts with.
pub fn default_channels() -> (channels: Vec<(&'static str, ChannelType)>)
    ensures
        channels@.len() == 4,
        channels@[0].0@ == "general"@ && channels@[0].1 == ChannelType::Text,
        channels@[1].0@ == "random"@ && channels@[1].1 == ChannelType::Text,
        channels@[2].0@ == "announcements"@ && channels@[2].1 == ChannelType::Text,
        channels@[3].0@ == "General Voice"@ && channels@[3].1 == ChannelType::Voice,
{
    let mut channels: Vec<(&'static str, ChannelType)> = Vec::new();
    channels.push(("general", ChannelType::Text));
    channels.push(("random", ChannelType::Text));
    channels.push(("announcements", ChannelType::Text));
    channels.push(("General Voice", ChannelType::Voice));
    channels
}

/// The key and value of each setting a new server starts with.
pub fn default_settings() -> (settings: Vec<(&'static str, &'static str)>)
    ensures
        settings@.len() == 2,
        settings@[0].0@ == "server_name"@ && settings@[0].1@ == "Echora"@,
        settings@[1].0@ == "registration_mode"@ && settings@[1].1@ == "open"@,
{
    let mut settings: Vec<(&'static str, &'static str)> = Vec::new();
    settings.push(("server_name", "Echora"));
    settings.push(("registration_mode", "open"));
    settings
}

/// Whether the oldest user is to be made owner at startup: where there
/// are users and none of them is the owner.
pub fn needs_owner_promotion(owner_count: i64, user_count: i64) -> (r: bool)
    ensures
        r == (owner_count == 0 && user_count > 0),
{
    owner_count == 0 && user_count > 0
}

/// Turns a statement that changed no row into "not found".
pub fn require_rows_affected(rows_affected: u64, msg: &str) -> (r: Result<(), AppError>)
    ensures
        rows_affected == 0 ==> r is Err && r->Err_0.is(ErrorKind::NotFound, msg@),
        rows_affected != 0 ==> r is Ok,
{
    if rows_affected == 0 {
        Err(AppError::not_found(msg))
    } else {
        Ok(())
    }
}

/// The conflict a violated unique constraint on users stands for, told
/// from the store's message.
pub fn unique_violation(message: &str) -> (e: AppError)
    ensures
        e.kind() == ErrorKind::Conflict,
        e.text() == (if contains_run(message@, "username"@) {
            "Username already taken"@
        } else if contains_run(message@, "email"@) {
            "Email already in use"@
        } else {
            "User already exists"@
        }),
{
    let m = chars_of(message);
    let username = chars_of("username");
    let email = chars_of("email");
    if contains(&m, &username) {
        AppError::conflict("Username already taken")
    } else if contains(&m, &email) {
        AppError::conflict("Email already in use")
    } else {
        AppError::conflict("User already exists")
    }
}

/// The snapshot of a message that is replied to: its body cut to 200
/// characters.
pub fn reply_preview(id: Id, author: String, content: &str) -> (p: ReplyPreview)
    ensures
        p.id == id,
        p.author == author,
        p.content@ == truncated(content@, REPLY_PREVIEW_LENGTH as nat),
{
    ReplyPreview { id, author, content: truncate_string(content, REPLY_PREVIEW_LENGTH) }
}

/// The items of the rows of one message, in the order of the rows.
pub open spec fn items_for<T>(rows: Seq<(Id, T)>, message_id: Id) -> Seq<T>
    decreases rows.len(),
{
    if rows.len() == 0 {
        Seq::empty()
    } else if rows.last().0 == message_id {
        items_for(rows.drop_last(), message_id).push(rows.last().1)
    } else {
        items_for(rows.drop_last(), message_id)
    }
}

/// Whether `groups` holds, for each message with a row, that message's
/// items in the order of the rows, and nothing else.
pub open spec fn grouped<T>(groups: Map<Id, Vec<T>>, rows: Seq<(Id, T)>) -> bool {
    forall|m: Id|
        (#[trigger] groups.contains_key(m) <==> items_for(rows, m).len() > 0) && (
        groups.contains_key(m) ==> groups[m]@ == items_for(rows, m))
}

/// Groups rows by message, keeping their order.
pub fn group_by_message<T>(rows: Vec<(Id, T)>) -> (groups: HashMap<Id, Vec<T>>)
    ensures
        grouped(groups@, rows@),
{
    let ghost all = rows@;
    let mut rows = rows;
    let mut rest: Vec<(Id, T)> = Vec::new();
    while rows.len() > 0
        invariant
            rows@ + rest@.reverse() == all,
        decreases rows.len(),
    {
        let ghost before_rows = rows@;
        let ghost before_rest = rest@;
        let row = rows.pop().unwrap();
        rest.push(row);
        assert(rows@ + rest@.reverse() =~= before_rows + before_rest.reverse()) by {
            assert(rest@.reverse() =~= seq![row] + before_rest.reverse());
            assert(before_rows =~= rows@.push(row));
        }
    }
    assert(rest@.reverse() =~= all);
    let mut groups: HashMap<Id, Vec<T>> = HashMap::new();
    let ghost mut done: Seq<(Id, T)> = Seq::empty();
    while rest.len() > 0
        invariant
            done + rest@.reverse() == all,
            grouped(groups@, done),
        decreases rest.len(),
    {
        let ghost before_rest = rest@;
        let ghost before = groups@;
        let (message_id, item) = rest.pop().unwrap();
        let mut list = match groups.remove(&message_id) {
            Some(l) => l,
            None => Vec::new(),
        };
        list.push(item);
        groups.insert(message_id, list);
        proof {
            let next = done.push((message_id, item));
            assert(next.drop_last() =~= done);
            assert(next.last() == (message_id, item));
            assert(before_rest.reverse() =~= seq![(message_id, item)] + rest@.reverse());
            assert(next + rest@.reverse() =~= done + before_rest.reverse());
            assert forall|m: Id|
                (#[trigger] groups@.contains_key(m) <==> items_for(next, m).len() > 0) && (
                groups@.contains_key(m) ==> groups@[m]@ == items_for(next, m)) by {
                assert(before.contains_key(m) <==> items_for(done, m).len() > 0);
                if m != message_id {
                    assert(groups@.contains_key(m) == before.contains_key(m));
                }
            }
            done = next;
        }
    }
    assert(rest@.reverse() =~= Seq::<(Id, T)>::empty());
    assert(done =~= all);
    groups
}

/// A copy of a list of reactions.
fn copy_reactions(v: &Vec<Reaction>) -> (r: Vec<Reaction>)
    ensures
        r@ == v@,
{
    let mut r: Vec<Reaction> = Vec::new();
    let mut i: usize = 0;
    while i < v.len()
        invariant
            i <= v.len(),
            r@ == v@.take(i as int),
        decreases v.len() - i,
    {
        r.push(v[i].clone());
        assert(v@.take(i + 1) =~= v@.take(i as int).push(v@[i as int]));
        i += 1;
    }
    assert(v@.take(v.len() as int) =~= v@);
    r
}

/// A copy of a list of link previews.
fn copy_previews(v: &Vec<LinkPreview>) -> (r: Vec<LinkPreview>)
    ensures
        r@ == v@,
{
    let mut r: Vec<LinkPreview> = Vec::new();
    let mut i: usize = 0;
    while i < v.len()
        invariant
            i <= v.len(),
            r@ == v@.take(i as int),
        decreases v.len() - i,
    {
        r.push(v[i].clone());
        assert(v@.take(i + 1) =~= v@.take(i as int).push(v@[i as int]));
        i += 1;
    }
    assert(v@.take(v.len() as int) =~= v@);
    r
}

/// A copy of a list of attachments.
fn copy_attachments(v: &Vec<Attachment>) -> (r: Vec<Attachment>)
    ensures
        r@ == v@,
{
    let mut r: Vec<Attachment> = Vec::new();
    let mut i: usize = 0;
    while i < v.len()
        invariant
            i <= v.len(),
            r@ == v@.take(i as int),
        decreases v.len() - i,
    {
        r.push(v[i].clone());
        assert(v@.take(i + 1) =~= v@.take(i as int).push(v@[i as int]));
        i += 1;
    }
    assert(v@.take(v.len() as int) =~= v@);
    r
}

/// Whether `joined` is what the batch leaves of a field: the message's
/// list where the batch has a list with items for it; else the field as it
/// was.
pub open spec fn list_joined<T>(
    before: Option<Vec<T>>,
    after: Option<Vec<T>>,
    batch: Map<Id, Vec<T>>,
    message_id: Id,
) -> bool {
    if batch.contains_key(message_id) && batch[message_id]@.len() > 0 {
        after is Some && after->Some_0@ == batch[message_id]@
    } else {
        after == before
    }
}

/// Whether `after` is `before` with what was fetched for it joined on:
/// the snapshot of the message it replies to, its reactions, its link
/// previews and its attachments.
pub open spec fn message_joined(
    before: Message,
    after: Message,
    replies: Map<Id, ReplyPreview>,
    reactions: Map<Id, Vec<Reaction>>,
    previews: Map<Id, Vec<LinkPreview>>,
    attachments: Map<Id, Vec<Attachment>>,
) -> bool {
    &&& after.id == before.id
    &&& after.content == before.content
    &&& after.author == before.author
    &&& after.author_id == before.author_id
    &&& after.channel_id == before.channel_id
    &&& after.timestamp == before.timestamp
    &&& after.edited_at == before.edited_at
    &&& after.reply_to_id == before.reply_to_id
    &&& after.reply_to == (match before.reply_to_id {
        Some(r) => if replies.contains_key(r) {
            Some(replies[r])
        } else {
            None
        },
        None => before.reply_to,
    })
    &&& list_joined(before.reactions, after.reactions, reactions, before.id)
    &&& list_joined(before.link_previews, after.link_previews, previews, before.id)
    &&& list_joined(before.attachments, after.attachments, attachments, before.id)
}

/// Joins what was fetched in batches to one message.
pub fn enrich_message(
    msg: &mut Message,
    replies: &HashMap<Id, ReplyPreview>,
    reactions: &HashMap<Id, Vec<Reaction>>,
    previews: &HashMap<Id, Vec<LinkPreview>>,
    attachments: &HashMap<Id, Vec<Attachment>>,
)
    ensures
        message_joined(*old(msg), *final(msg), replies@, reactions@, previews@, attachments@),
{
    match msg.reply_to_id {
        Some(reply_id) => {
            msg.reply_to = match replies.get(&reply_id) {
                Some(p) => Some(p.clone()),
                None => None,
            };
        },
        None => {},
    }
    match reactions.get(&msg.id) {
        Some(list) => {
            if list.len() > 0 {
                msg.reactions = Some(copy_reactions(list));
            }
        },
        None => {},
    }
    match previews.get(&msg.id) {
        Some(list) => {
            if list.len() > 0 {
                msg.link_previews = Some(copy_previews(list));
            }
        },
        None => {},
    }
    match attachments.get(&msg.id) {
        Some(list) => {
            if list.len() > 0 {
                msg.attachments = Some(copy_attachments(list));
            }
        },
        None => {},
    }
}

/// Joins what was fetched in batches to the messages of a page. The page
/// keeps its order.
pub fn enrich_messages(
    messages: &mut Vec<Message>,
    replies: &HashMap<Id, ReplyPreview>,
    reactions: &HashMap<Id, Vec<Reaction>>,
    previews: &HashMap<Id, Vec<LinkPreview>>,
    attachments: &HashMap<Id, Vec<Attachment>>,
)
    ensures
        final(messages)@.len() == old(messages)@.len(),
        forall|i: int|
            0 <= i < old(messages)@.len() ==> message_joined(
                old(messages)@[i],
                #[trigger] final(messages)@[i],
                replies@,
                reactions@,
                previews@,
                attachments@,
            ),
{
    let ghost start = messages@;
    let mut done: Vec<Message> = Vec::new();
    let mut rest: Vec<Message> = Vec::new();
    while messages.len() > 0
        invariant
            messages@ + rest@.reverse() == start,
        decreases messages.len(),
    {
        let ghost before_m = messages@;
        let ghost before_r = rest@;
        let m = messages.pop().unwrap();
        rest.push(m);
        assert(messages@ + rest@.reverse() =~= before_m + before_r.reverse()) by {
            assert(rest@.reverse() =~= seq![m] + before_r.reverse());
            assert(before_m =~= messages@.push(m));
        }
    }
    assert(rest@.reverse() =~= start);
    while rest.len() > 0
        invariant
            messages@.len() + rest@.len() == start.len(),
            forall|i: int|
                0 <= i < rest@.len() ==> #[trigger] rest@[i] == start[start.len() - 1 - i],
            forall|i: int|
                0 <= i < messages@.len() ==> message_joined(
                    start[i],
                    #[trigger] messages@[i],
                    replies@,
                    reactions@,
                    previews@,
                    attachments@,
                ),
        decreases rest.len(),
    {
        let ghost k = messages@.len() as int;
        let mut m = rest.pop().unwrap();
        assert(m == start[k]);
        enrich_message(&mut m, replies, reactions, previews, attachments);
        let ghost prior = messages@;
        messages.push(m);
        assert forall|i: int| 0 <= i < messages@.len() implies message_joined(
            start[i],
            #[trigger] messages@[i],
            replies@,
            reactions@,
            previews@,
            attachments@,
        ) by {
            if i < k {
                assert(messages@[i] == prior[i]);
            }
        }
    }
}

} // verus!
