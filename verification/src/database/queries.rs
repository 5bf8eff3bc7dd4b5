//! The queries on the chat database and what the library makes of their rows.
use vstd::prelude::*;

use crate::database::chat_db_model::{OChat, OChatView, OMessage, OMessageView};

verus! {

/// All messages related to the chat `$c_id`, as one list of messages per row.
pub const FETCH_ALL_MESSAGES: &'static str = "SELECT VALUE ->mess_chat->message as message FROM type::thing(\"chat\", $c_id) FETCH message ;";

/// The summary of the chat `$c_id`, as a list of at most one text.
pub const FETCH_SUMMARY: &'static str = "SELECT VALUE summary FROM type::thing(\"chat\", $c_id);";

/// Sets the summary of the chat `$c_id` to `$summary`, creating it if needed.
pub const STORE_SUMMARY: &'static str = "UPSERT type::thing(\"chat\",$c_id) SET summary = $summary;";

/// The id and name of the chat `$id`.
pub const FETCH_CHAT: &'static str = "SELECT id,name FROM type::thing('chat',$id)";

/// The table of chats.
pub const CHAT_TABLE: &'static str = "chat";

/// The table of messages.
pub const MESSAGE_TABLE: &'static str = "message";

/// The summary that the summary query returned: its first row, or the empty
/// text when it returned none.
pub fn summary_from_rows(rows: Vec<String>) -> (summary: String)
    ensures
        summary@ == (if rows@.len() > 0 {
            rows@[0]@
        } else {
            Seq::empty()
        }),
{
    if rows.len() > 0 {
        rows[0].clone()
    } else {
        String::new()
    }
}

/// The messages of a list of rows, seen as plain values.
pub open spec fn messages_view(ms: Seq<OMessage>) -> Seq<OMessageView> {
    ms.map_values(|m: OMessage| m@)
}

/// The messages of all rows, row after row.
pub open spec fn flat_messages(rows: Seq<Vec<OMessage>>) -> Seq<OMessageView>
    decreases rows.len(),
{
    if rows.len() == 0 {
        Seq::empty()
    } else {
        flat_messages(rows.drop_last()) + messages_view(rows.last()@)
    }
}

/// The messages of the rows that the message query returned, in order.
pub fn flatten_messages(rows: Vec<Vec<OMessage>>) -> (messages: Vec<OMessage>)
    ensures
        messages_view(messages@) == flat_messages(rows@),
{
    let ghost all = rows@;
    assert(all.len() == rows.len());
    let mut rest = rows;
    let mut messages: Vec<OMessage> = Vec::new();
    let mut i: usize = 0;
    while rest.len() > 0
        invariant
            i + rest@.len() == all.len(),
            all.len() <= usize::MAX,
            rest@ == all.skip(i as int),
            messages_view(messages@) == flat_messages(all.take(i as int)),
        decreases rest@.len(),
    {
        let mut row = rest.remove(0);
        assert(row == all[i as int]);
        assert(all.take(i + 1).drop_last() =~= all.take(i as int));
        let ghost before = messages@;
        let ghost row_view = row@;
        messages.append(&mut row);
        assert(messages_view(messages@) =~= messages_view(before) + messages_view(row_view));
        assert(rest@ =~= all.skip(i + 1));
        i = i + 1;
    }
    assert(all.take(i as int) =~= all);
    messages
}

/// The chat that a lookup returned, or the default chat when it returned
/// none.
pub fn chat_or_default(found: Option<OChat>) -> (c: OChat)
    ensures
        c@ == (match found {
            Some(f) => f@,
            None => OChatView { id: 0, name: Seq::empty(), summary: Seq::empty() },
        }),
{
    match found {
        Some(c) => c,
        None => OChat::default(),
    }
}

/// The message that an insertion returned, or the default message when it
/// returned none.
pub fn message_or_default(found: Option<OMessage>) -> (m: OMessage)
    ensures
        m@ == (match found {
            Some(f) => f@,
            None => OMessageView { id: 0, message: Seq::empty(), response: Seq::empty() },
        }),
{
    match found {
        Some(m) => m,
        None => OMessage::default(),
    }
}

/// The statement that relates the chat `chat_ref` to the message
/// `message_ref` (both record ids as the database writes them, such as
/// `chat:1743076482649`).
pub open spec fn relate_query_spec(chat_ref: Seq<char>, message_ref: Seq<char>) -> Seq<char> {
    "RELATE "@ + chat_ref + " ->mess_chat -> "@ + message_ref + ";"@
}

/// The relating statement names both records whole: `RELATE `, the chat,
/// ` ->mess_chat -> `, the message, then `;`, and nothing else.
pub proof fn lemma_relate_query_names_both(chat_ref: Seq<char>, message_ref: Seq<char>)
    ensures
        relate_query_spec(chat_ref, message_ref).len() == chat_ref.len() + message_ref.len() + 24,
        relate_query_spec(chat_ref, message_ref).subrange(0, 7) == seq![
            'R', 'E', 'L', 'A', 'T', 'E', ' ',
        ],
        relate_query_spec(chat_ref, message_ref).subrange(7, 7 + chat_ref.len() as int)
            == chat_ref,
        relate_query_spec(chat_ref, message_ref).subrange(
            7 + chat_ref.len() as int,
            23 + chat_ref.len() as int,
        ) == seq![' ', '-', '>', 'm', 'e', 's', 's', '_', 'c', 'h', 'a', 't', ' ', '-', '>', ' '],
        relate_query_spec(chat_ref, message_ref).subrange(
            23 + chat_ref.len() as int,
            23 + chat_ref.len() as int + message_ref.len() as int,
        ) == message_ref,
        relate_query_spec(chat_ref, message_ref)[23 + chat_ref.len() as int + message_ref.len() as int] == ';',
{
    reveal_strlit("RELATE ");
    reveal_strlit(" ->mess_chat -> ");
    reveal_strlit(";");
    let q = relate_query_spec(chat_ref, message_ref);
    let a = chat_ref.len() as int;
    let b = message_ref.len() as int;
    assert(q.subrange(0, 7) =~= seq!['R', 'E', 'L', 'A', 'T', 'E', ' ']);
    assert(q.subrange(7, 7 + a) =~= chat_ref);
    assert(q.subrange(7 + a, 23 + a) =~= seq![
        ' ', '-', '>', 'm', 'e', 's', 's', '_', 'c', 'h', 'a', 't', ' ', '-', '>', ' ',
    ]);
    assert(q.subrange(23 + a, 23 + a + b) =~= message_ref);
}

/// The statement that relates a chat to one of its messages.
pub fn relate_query(chat_ref: &str, message_ref: &str) -> (q: String)
    ensures
        q@ == relate_query_spec(chat_ref@, message_ref@),
{
    let mut q = "RELATE ".to_owned();
    q.append(chat_ref);
    q.append(" ->mess_chat -> ");
    q.append(message_ref);
    q.append(";");
    q
}

} // verus!
