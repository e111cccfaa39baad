//! Chat decisions: how a chat is titled for one of its participants, where a
//! new message goes, who may delete a message, how presence events change a
//! user, and the unread-count query.

use vstd::prelude::*;
use crate::text::{string_from, text_eq, join, join_with, texts};
use crate::numeric::{format_i32, decimal_int, decimal};
use crate::response::{ApiResponse, reply, fails_with};
use crate::sql::{SqlParam, SqlFilter, placeholder_text_of};
use crate::requests::ChatParticipant;

verus! {

/// A participant of a chat as the database lists it.
pub struct ParticipantRow {
    pub user_id: i32,
    pub name: String,
    pub profile_image: String,
}

/// How a chat is presented to one of its participants: named after the
/// others, with their pictures, and with every participant marked whether it
/// is the viewer.
pub struct ChatHeading {
    pub chat_name: String,
    pub profile_image: String,
    pub participants: Vec<ChatParticipant>,
}

/// The names of the participants other than `viewer`, in order.
pub open spec fn other_names(rows: Seq<ParticipantRow>, viewer: i32) -> Seq<Seq<char>>
    decreases rows.len(),
{
    if rows.len() == 0 {
        seq![]
    } else if rows.last().user_id != viewer {
        other_names(rows.drop_last(), viewer).push(rows.last().name@)
    } else {
        other_names(rows.drop_last(), viewer)
    }
}

/// The pictures of the participants other than `viewer`, in order.
pub open spec fn other_images(rows: Seq<ParticipantRow>, viewer: i32) -> Seq<Seq<char>>
    decreases rows.len(),
{
    if rows.len() == 0 {
        seq![]
    } else if rows.last().user_id != viewer {
        other_images(rows.drop_last(), viewer).push(rows.last().profile_image@)
    } else {
        other_images(rows.drop_last(), viewer)
    }
}

/// `p` shows the row `row` to `viewer`.
pub open spec fn shows_participant(p: ChatParticipant, row: ParticipantRow, viewer: i32) -> bool {
    &&& p.user_id == row.user_id
    &&& p.name@ == row.name@
    &&& p.profile_image@ == row.profile_image@
    &&& p.is_me == (row.user_id == viewer)
}

/// The heading of a chat for `viewer`: the names and the pictures of the
/// other participants, each list joined with `, `, and every participant.
pub fn chat_heading(rows: &Vec<ParticipantRow>, viewer: i32) -> (h: ChatHeading)
    ensures
        h.chat_name@ == join_with(other_names(rows@, viewer), ", "@),
        h.profile_image@ == join_with(other_images(rows@, viewer), ", "@),
        h.participants.len() == rows.len(),
        forall|i: int|
            0 <= i < rows.len() ==> shows_participant(#[trigger] h.participants@[i], rows@[i], viewer),
{
    let mut names: Vec<String> = Vec::new();
    let mut images: Vec<String> = Vec::new();
    let mut participants: Vec<ChatParticipant> = Vec::new();
    let mut i: usize = 0;
    while i < rows.len()
        invariant
            i <= rows.len(),
            texts(names@) == other_names(rows@.subrange(0, i as int), viewer),
            texts(images@) == other_images(rows@.subrange(0, i as int), viewer),
            participants.len() == i,
            forall|j: int|
                0 <= j < i ==> shows_participant(#[trigger] participants@[j], rows@[j], viewer),
        decreases rows.len() - i,
    {
        let ghost pre = rows@.subrange(0, i as int);
        let ghost nxt = rows@.subrange(0, i + 1);
        assert(nxt.drop_last() =~= pre);
        assert(nxt.last() == rows@[i as int]);
        let row = &rows[i];
        if row.user_id != viewer {
            names.push(row.name.clone());
            images.push(row.profile_image.clone());
        }
        assert(texts(names@) =~= other_names(nxt, viewer));
        assert(texts(images@) =~= other_images(nxt, viewer));
        participants.push(
            ChatParticipant {
                user_id: row.user_id,
                name: row.name.clone(),
                profile_image: row.profile_image.clone(),
                is_me: row.user_id == viewer,
            },
        );
        i = i + 1;
    }
    assert(rows@.subrange(0, rows.len() as int) =~= rows@);
    ChatHeading {
        chat_name: join(&names, ", "),
        profile_image: join(&images, ", "),
        participants,
    }
}

/// A message is the viewer's own when the viewer sent it.
pub fn is_my_message(sender_id: i32, viewer: i32) -> (r: bool)
    ensures
        r == (sender_id == viewer),
{
    sender_id == viewer
}

/// The query that finds the chat that two users share.
pub open spec fn pair_chat_query_text(a: i32, b: i32) -> Seq<char> {
    "select chat_id from chat_participants where user_id in ("@ + decimal_int(a as int) + ", "@
        + decimal_int(b as int) + ") group by chat_id having count(distinct user_id) = 2"@
}

/// The query that finds the chat that `a` and `b` share.
pub fn pair_chat_query(a: i32, b: i32) -> (q: String)
    ensures
        q@ == pair_chat_query_text(a, b),
{
    let mut q = string_from("select chat_id from chat_participants where user_id in (");
    let sa = format_i32(a);
    let sb = format_i32(b);
    q.append(sa.as_str());
    q.append(", ");
    q.append(sb.as_str());
    q.append(") group by chat_id having count(distinct user_id) = 2");
    q
}

/// The chat a new message goes to.
pub enum ChatChoice {
    /// The chat the message names exists.
    Named(i32),
    /// The sender and the receiver already share this chat.
    Shared(i32),
    /// A new chat of the two is to be made.
    Create,
}

/// Chooses the chat of a new message from the number of live chats with the
/// named id and, where there is none, the chat that sender and receiver share.
pub fn choose_chat(named: i32, named_count: i64, shared: Option<i32>) -> (c: ChatChoice)
    ensures
        named_count != 0 ==> c == ChatChoice::Named(named),
        named_count == 0 ==> c == (match shared {
            Some(id) => ChatChoice::Shared(id),
            None => ChatChoice::Create,
        }),
{
    if named_count != 0 {
        ChatChoice::Named(named)
    } else {
        match shared {
            Some(id) => ChatChoice::Shared(id),
            None => ChatChoice::Create,
        }
    }
}

/// What happens on the sender's side once the chat is known.
pub struct SenderStep {
    /// The sender is added to the chat as a participant.
    pub join_chat: bool,
    /// The message is stored and announced.
    pub post_message: bool,
}

/// Decides from the number of chats the sender takes part in and its role:
/// an administrator in no chat yet joins this one; the message is posted by
/// anyone who takes part in a chat, and by administrators.
pub fn sender_step(participations: i64, role: &str) -> (s: SenderStep)
    ensures
        s.join_chat == (participations == 0 && role@ == "admin"@),
        s.post_message == (participations > 0 || role@ == "admin"@),
{
    let admin = text_eq(role, "admin");
    SenderStep { join_chat: participations == 0 && admin, post_message: participations > 0 || admin }
}

/// The rooms a chat event is sent to: every administrator, then the receiver.
pub fn event_rooms(admin_ids: Vec<i32>, receiver: i32) -> (rooms: Vec<i32>)
    ensures
        rooms@ == admin_ids@.push(receiver),
{
    let mut rooms = admin_ids;
    rooms.push(receiver);
    rooms
}

/// Whether a chat view has to look up the chat two users share: it does when
/// the request names no chat (id `0`).
pub fn pair_lookup_needed(chat_id: i32) -> (r: bool)
    ensures
        r == (chat_id == 0),
{
    chat_id == 0
}

/// The chat a view shows: the named one, or, for id `0`, the chat the two
/// users share, `0` where they share none.
pub fn session_chat_id(chat_id: i32, shared: Option<i32>) -> (r: i32)
    ensures
        chat_id != 0 ==> r == chat_id,
        chat_id == 0 ==> r == (match shared {
            Some(id) => id,
            None => 0,
        }),
{
    if chat_id == 0 {
        match shared {
            Some(id) => id,
            None => 0,
        }
    } else {
        chat_id
    }
}

/// The receiver a chat view is asked about, `0` where the request names none.
pub fn receiver_or_none(receiver: Option<i32>) -> (r: i32)
    ensures
        r == (match receiver {
            Some(id) => id,
            None => 0,
        }),
{
    match receiver {
        Some(id) => id,
        None => 0,
    }
}

/// Whether deleting a message asks if the message is the user's own: it does
/// for everyone but administrators.
pub fn delete_needs_ownership(role: &str) -> (r: bool)
    ensures
        r == (role@ != "admin"@),
{
    !text_eq(role, "admin")
}

/// Administrators may delete any message, others only their own; the rest
/// are refused with `401 Unauthorized!`.
pub fn message_delete_gate(role: &str, own_message: bool) -> (r: Result<(), ApiResponse>)
    ensures
        r is Ok <==> (role@ == "admin"@ || own_message),
        !(r is Ok) ==> fails_with(r, 401, "Unauthorized!"@),
{
    if text_eq(role, "admin") || own_message {
        Ok(())
    } else {
        Err(reply(401, "Unauthorized!"))
    }
}

/// How a presence event changes a user.
pub enum PresenceChange {
    /// The user went offline; its last activity is now.
    Offline(i32),
    /// The user came online.
    Online(i32),
    /// Nothing changes.
    Unchanged,
}

/// The change a presence event makes: `disconnect` takes the user of the
/// room offline, `join` brings it online, anything else changes nothing.
pub fn presence_change(event: &str, room: Option<i32>) -> (c: PresenceChange)
    requires
        event@ == "disconnect"@ || event@ == "join"@ ==> room is Some,
    ensures
        event@ == "disconnect"@ ==> c == PresenceChange::Offline(room->0),
        event@ != "disconnect"@ && event@ == "join"@ ==> c == PresenceChange::Online(room->0),
        event@ != "disconnect"@ && event@ != "join"@ ==> c == PresenceChange::Unchanged,
{
    if text_eq(event, "disconnect") {
        PresenceChange::Offline(room.unwrap())
    } else if text_eq(event, "join") {
        PresenceChange::Online(room.unwrap())
    } else {
        PresenceChange::Unchanged
    }
}

/// The count of unread messages sent by others.
pub const UNREAD_COUNT_QUERY: &'static str = "select count(*) as unread_counts from messages where deleted_at is null and status != 'read' and sender_id != $1";

/// The unread-count query of a user: messages of others not yet read; for
/// everyone but administrators only in the chats the user takes part in.
pub fn unread_count_query(role: &str, user_id: i32) -> (q: SqlFilter)
    ensures
        role@ == "admin"@ ==> q.text@ == UNREAD_COUNT_QUERY@ && q.params@ == seq![SqlParam::Int(user_id)],
        role@ != "admin"@ ==> q.text@ == UNREAD_COUNT_QUERY@
            + " and chat_id in (select chat_id from chat_participants where user_id = $2)"@
            && q.params@ == seq![SqlParam::Int(user_id), SqlParam::Int(user_id)],
{
    proof {
        reveal_strlit("$2");
        reveal_strlit("$");
        reveal_strlit(")");
        reveal_strlit(" and chat_id in (select chat_id from chat_participants where user_id = $2)");
        reveal_strlit(" and chat_id in (select chat_id from chat_participants where user_id = ");
    }
    let mut sf = SqlFilter::new(UNREAD_COUNT_QUERY);
    sf.params.push(SqlParam::Int(user_id));
    if !text_eq(role, "admin") {
        sf.params.push(SqlParam::Int(user_id));
        let ph = placeholder_text_of(2);
        sf.push_text(" and chat_id in (select chat_id from chat_participants where user_id = ");
        sf.push_text(ph.as_str());
        sf.push_text(")");
        proof {
            crate::numeric::lemma_decimal(2);
            assert(decimal(2) =~= seq!['2']);
        }
        assert(sf.text@ =~= UNREAD_COUNT_QUERY@
            + " and chat_id in (select chat_id from chat_participants where user_id = $2)"@);
    }
    sf
}

} // verus!
