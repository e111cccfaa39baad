use watch_market::chat::{
    chat_heading, choose_chat, delete_needs_ownership, event_rooms, is_my_message,
    message_delete_gate, pair_chat_query, pair_lookup_needed, presence_change, receiver_or_none,
    sender_step, session_chat_id, unread_count_query, ChatChoice, ParticipantRow, PresenceChange,
    UNREAD_COUNT_QUERY,
};
use watch_market::listing::chat_session_list_query;
use watch_market::sql::SqlParam;

fn row(user_id: i32, name: &str, image: &str) -> ParticipantRow {
    ParticipantRow { user_id, name: name.to_string(), profile_image: image.to_string() }
}

#[test]
fn chat_is_named_after_the_others() {
    let rows = vec![row(1, "Ann", "/images/a.png"), row(2, "Bob", "/images/b.png"), row(3, "Cy", "/images/c.png")];
    let h = chat_heading(&rows, 2);
    assert_eq!(h.chat_name, "Ann, Cy");
    assert_eq!(h.profile_image, "/images/a.png, /images/c.png");
    assert_eq!(h.participants.len(), 3);
    let me: Vec<bool> = h.participants.iter().map(|p| p.is_me).collect();
    assert_eq!(me, vec![false, true, false]);
    assert_eq!(h.participants[1].name, "Bob");
}

#[test]
fn chat_of_a_stranger_lists_everyone() {
    let rows = vec![row(1, "Ann", "a"), row(2, "Bob", "b")];
    let h = chat_heading(&rows, 9);
    assert_eq!(h.chat_name, "Ann, Bob");
    assert!(h.participants.iter().all(|p| !p.is_me));
    let h = chat_heading(&Vec::new(), 9);
    assert_eq!(h.chat_name, "");
}

#[test]
fn own_messages() {
    assert!(is_my_message(4, 4));
    assert!(!is_my_message(4, 5));
}

#[test]
fn pair_query_text() {
    assert_eq!(
        pair_chat_query(3, -8),
        "select chat_id from chat_participants where user_id in (3, -8) group by chat_id having count(distinct user_id) = 2"
    );
}

#[test]
fn message_goes_to_named_shared_or_new_chat() {
    assert!(matches!(choose_chat(5, 1, Some(9)), ChatChoice::Named(5)));
    assert!(matches!(choose_chat(5, 0, Some(9)), ChatChoice::Shared(9)));
    assert!(matches!(choose_chat(5, 0, None), ChatChoice::Create));
}

#[test]
fn sender_steps() {
    let s = sender_step(0, "admin");
    assert!(s.join_chat && s.post_message);
    let s = sender_step(2, "admin");
    assert!(!s.join_chat && s.post_message);
    let s = sender_step(2, "user");
    assert!(!s.join_chat && s.post_message);
    let s = sender_step(0, "user");
    assert!(!s.join_chat && !s.post_message);
}

#[test]
fn events_reach_administrators_then_receiver() {
    assert_eq!(event_rooms(vec![1, 2], 7), vec![1, 2, 7]);
    assert_eq!(event_rooms(vec![], 7), vec![7]);
}

#[test]
fn chat_view_ids() {
    assert!(pair_lookup_needed(0));
    assert!(!pair_lookup_needed(3));
    assert_eq!(session_chat_id(3, Some(9)), 3);
    assert_eq!(session_chat_id(0, Some(9)), 9);
    assert_eq!(session_chat_id(0, None), 0);
    assert_eq!(receiver_or_none(Some(4)), 4);
    assert_eq!(receiver_or_none(None), 0);
}

#[test]
fn deleting_messages() {
    assert!(!delete_needs_ownership("admin"));
    assert!(delete_needs_ownership("agent"));
    assert!(message_delete_gate("admin", false).is_ok());
    assert!(message_delete_gate("user", true).is_ok());
    let e = message_delete_gate("user", false).unwrap_err();
    assert_eq!((e.code, e.message.as_str()), (401, "Unauthorized!"));
}

#[test]
fn presence_events() {
    assert!(matches!(presence_change("disconnect", Some(4)), PresenceChange::Offline(4)));
    assert!(matches!(presence_change("join", Some(4)), PresenceChange::Online(4)));
    assert!(matches!(presence_change("typing", None), PresenceChange::Unchanged));
}

#[test]
fn unread_counts_query() {
    let q = unread_count_query("admin", 6);
    assert_eq!(q.text, UNREAD_COUNT_QUERY);
    assert_eq!(q.params.len(), 1);
    let q = unread_count_query("user", 6);
    assert_eq!(
        q.text,
        format!("{UNREAD_COUNT_QUERY} and chat_id in (select chat_id from chat_participants where user_id = $2)")
    );
    assert_eq!(q.params.len(), 2);
    assert!(q.params.iter().all(|p| matches!(p, SqlParam::Int(6))));
}

#[test]
fn chat_session_list_scope() {
    let q = chat_session_list_query(6, "admin");
    assert!(q.params.is_empty());
    assert_eq!(q.order_options, "m.created_at desc");
    let q = chat_session_list_query(6, "agent");
    assert!(q.base_query.ends_with(" and c.chat_id in (select chat_id from chat_participants where user_id = $1)"));
    assert!(matches!(q.params[..], [SqlParam::Int(6)]));
}
