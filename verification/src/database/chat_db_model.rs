//! The records of the chat database: chats and the messages exchanged in them.
use vstd::prelude::*;

use crate::clock::{
    is_datetime_text, is_rendering_of, local_datetime_text, now_millis, seconds_of_millis,
    CREATION_TIME_FORMAT, EARLIEST_SECS, FOUR_DIGIT_YEAR_FROM, FOUR_DIGIT_YEAR_UNTIL, LATEST_SECS,
};

verus! {

/// A chat: its id (the millisecond at which it was created), its name and
/// the running summary of its conversation.
#[derive(Debug)]
pub struct OChat {
    id: i64,
    name: String,
    summary: String,
}

/// A chat seen as plain values.
pub struct OChatView {
    pub id: i64,
    pub name: Seq<char>,
    pub summary: Seq<char>,
}

impl View for OChat {
    type V = OChatView;

    closed spec fn view(&self) -> OChatView {
        OChatView { id: self.id, name: self.name@, summary: self.summary@ }
    }
}

/// The name that a new chat gets.
pub const NEW_CHAT_NAME: &'static str = "new chat";

impl Default for OChat {
    /// The chat that stands in for a missing one: id 0, no name, no summary.
    fn default() -> (c: OChat)
        ensures
            c@ == (OChatView { id: 0, name: Seq::empty(), summary: Seq::empty() }),
    {
        OChat { id: 0, name: String::new(), summary: String::new() }
    }
}

impl OChat {
    /// A chat made of the given parts.
    pub fn from_parts(id: i64, name: String, summary: String) -> (c: OChat)
        ensures
            c@ == (OChatView { id, name: name@, summary: summary@ }),
    {
        OChat { id, name, summary }
    }

    /// A new chat named `new chat` with an empty summary, whose id is the
    /// current time in milliseconds (never before the epoch).
    pub fn new() -> (c: OChat)
        ensures
            c@.name == NEW_CHAT_NAME@,
            c@.summary == Seq::<char>::empty(),
            0 <= c@.id <= LATEST_SECS * 1000 + 999,
    {
        OChat::with_id(now_millis())
    }

    /// The new chat of `new` whose id the clock gave as `id`.
    pub fn with_id(id: i64) -> (c: OChat)
        ensures
            c@ == (OChatView { id, name: NEW_CHAT_NAME@, summary: Seq::empty() }),
    {
        OChat { id, name: NEW_CHAT_NAME.to_owned(), summary: String::new() }
    }

    pub fn id(&self) -> (r: &i64)
        ensures
            *r == self@.id,
    {
        &self.id
    }

    pub fn name(&self) -> (r: &str)
        ensures
            r@ == self@.name,
    {
        self.name.as_str()
    }

    pub fn summary(&self) -> (r: &str)
        ensures
            r@ == self@.summary,
    {
        self.summary.as_str()
    }

    /// Renames the chat; its id and summary stay.
    pub fn update_name(&mut self, name: &str)
        ensures
            final(self)@ == (OChatView { name: name@, ..old(self)@ }),
    {
        self.name = name.to_owned();
    }

    /// The chat's id read as seconds since the epoch, written as local time
    /// in the format `%Y-%m-%d %H:%M:%S`.
    pub fn get_time_creation(&self) -> (t: String)
        requires
            EARLIEST_SECS <= self@.id <= LATEST_SECS,
        ensures
            is_rendering_of(self@.id as int, t@),
            FOUR_DIGIT_YEAR_FROM <= self@.id <= FOUR_DIGIT_YEAR_UNTIL ==> is_datetime_text(t@),
    {
        match local_datetime_text(self.id, CREATION_TIME_FORMAT) {
            Some(t) => t,
            None => String::new(),
        }
    }
}

/// A message: its id (the second at which it was made), the user's text and
/// the model's response.
#[derive(Debug)]
pub struct OMessage {
    id: i64,
    message: String,
    response: String,
}

/// A message seen as plain values.
pub struct OMessageView {
    pub id: i64,
    pub message: Seq<char>,
    pub response: Seq<char>,
}

impl View for OMessage {
    type V = OMessageView;

    closed spec fn view(&self) -> OMessageView {
        OMessageView { id: self.id, message: self.message@, response: self.response@ }
    }
}

impl Default for OMessage {
    /// The message that stands in for a missing one: id 0, empty texts.
    fn default() -> (m: OMessage)
        ensures
            m@ == (OMessageView { id: 0, message: Seq::empty(), response: Seq::empty() }),
    {
        OMessage { id: 0, message: String::new(), response: String::new() }
    }
}

impl OMessage {
    /// A message made of the given parts.
    pub fn from_parts(id: i64, message: String, response: String) -> (m: OMessage)
        ensures
            m@ == (OMessageView { id, message: message@, response: response@ }),
    {
        OMessage { id, message, response }
    }

    /// A new empty message whose id is the current time in seconds: never
    /// before the epoch, and within the range of times that
    /// `get_time_creation` can write.
    pub fn new() -> (m: OMessage)
        ensures
            m@.message == Seq::<char>::empty(),
            m@.response == Seq::<char>::empty(),
            0 <= m@.id <= LATEST_SECS,
    {
        OMessage::with_millis(now_millis())
    }

    /// The new message of `new` when the clock reads `ms` milliseconds: its
    /// id is the whole seconds of `ms`.
    pub fn with_millis(ms: i64) -> (m: OMessage)
        ensures
            m@ == (OMessageView { id: (ms / 1000) as i64, message: Seq::empty(), response: Seq::empty() }),
    {
        OMessage { id: seconds_of_millis(ms), message: String::new(), response: String::new() }
    }

    /// Sets the user's text; the rest stays.
    pub fn add_message(&mut self, m: &str)
        ensures
            final(self)@ == (OMessageView { message: m@, ..old(self)@ }),
    {
        self.message = m.to_owned();
    }

    /// Sets the model's response; the rest stays.
    pub fn add_response(&mut self, r: &str)
        ensures
            final(self)@ == (OMessageView { response: r@, ..old(self)@ }),
    {
        self.response = r.to_owned();
    }

    /// The message's id read as seconds since the epoch, written as local
    /// time in the format `%Y-%m-%d %H:%M:%S`.
    pub fn get_time_creation(&self) -> (t: String)
        requires
            EARLIEST_SECS <= self@.id <= LATEST_SECS,
        ensures
            is_rendering_of(self@.id as int, t@),
            FOUR_DIGIT_YEAR_FROM <= self@.id <= FOUR_DIGIT_YEAR_UNTIL ==> is_datetime_text(t@),
    {
        match local_datetime_text(self.id, CREATION_TIME_FORMAT) {
            Some(t) => t,
            None => String::new(),
        }
    }

    pub fn message(&self) -> (r: &str)
        ensures
            r@ == self@.message,
    {
        self.message.as_str()
    }

    pub fn response(&self) -> (r: &str)
        ensures
            r@ == self@.response,
    {
        self.response.as_str()
    }

    pub fn id(&self) -> (r: &i64)
        ensures
            *r == self@.id,
    {
        &self.id
    }
}

} // verus!
