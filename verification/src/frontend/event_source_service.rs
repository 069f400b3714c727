//! The event-source component: shows the latest message the server's event
//! stream delivered.

use vstd::prelude::*;

verus! {

/// What can happen to the event source connection.
pub enum EventSourceAction {
    Connect,
    Disconnect,
    Lost,
}

/// The component's messages.
pub enum Msg {
    /// A `message` event arrived; the error's text where it could not be read.
    EsReady(Result<String, String>),
    /// The connection's state changed.
    EsCheckState,
}

/// The state an event source reports.
pub enum SourceStatus {
    Open,
    Error,
}

/// How the component answers a status report: it re-checks its state, and a
/// failed connection is worth an error line in the log.
pub fn status_msg(status: SourceStatus) -> (answer: (Msg, bool))
    ensures
        answer.0 is EsCheckState,
        answer.1 == (status is Error),
{
    match status {
        SourceStatus::Open => (Msg::EsCheckState, false),
        SourceStatus::Error => (Msg::EsCheckState, true),
    }
}

/// How `{:?}` writes a string: `<str as core::fmt::Debug>::fmt`.
pub uninterp spec fn debug_text(s: Seq<char>) -> Seq<char>;

/// Writes `s` as `{:?}` does (`<str as core::fmt::Debug>::fmt`, through
/// `format!`): quoted, with special characters escaped.
///
/// The contract names the result, a function of the text alone; the escaping
/// rules are not restated here.
#[verifier::external_body]
fn debug_string(s: &str) -> (text: String)
    ensures
        text@ == debug_text(s@),
{
    format!("{:?}", s)
}

/// The text shown while no message has arrived.
pub open spec fn waiting_text() -> Seq<char> {
    "Data hasn't fetched yet."@
}

/// The text shown for a received message.
pub open spec fn data_text_spec(data: Seq<char>) -> Seq<char> {
    "Event source data "@ + debug_text(data)
}

/// The event-source component's state.
pub struct EventSourceComponent {
    /// The last message received.
    pub data: Option<String>,
}

impl EventSourceComponent {
    /// No message yet.
    pub fn create() -> (c: Self)
        ensures
            c.data is None,
    {
        EventSourceComponent { data: None }
    }

    /// Answers one message; every message redraws. A readable message
    /// replaces the shown one, an unreadable one leaves it.
    pub fn update(&mut self, msg: Msg) -> (render: bool)
        ensures
            render,
            match msg {
                Msg::EsReady(Ok(text)) => final(self).data == Some(text),
                _ => *final(self) == *old(self),
            },
    {
        match msg {
            Msg::EsReady(response) => {
                match response {
                    Ok(text) => {
                        self.data = Some(text);
                    },
                    Err(_) => {},
                }
                true
            },
            Msg::EsCheckState => true,
        }
    }

    /// The component takes no properties: a change never redraws.
    pub fn change(&mut self) -> (render: bool)
        ensures
            !render,
            *final(self) == *old(self),
    {
        false
    }

    /// The text the component shows.
    pub fn view_data(&self) -> (text: String)
        ensures
            match self.data {
                Some(d) => text@ == data_text_spec(d@),
                None => text@ == waiting_text(),
            },
            self.data matches Some(d) ==> text@ == "Event source data "@ + debug_text(d@),
            self.data is None ==> text@ == "Data hasn't fetched yet."@,
            text@ == "Data hasn't fetched yet."@ ==> self.data is None,
    {
        match &self.data {
            Some(value) => {
                let mut text = String::from_str("Event source data ");
                let quoted = debug_string(value.as_str());
                text.append(quoted.as_str());
                proof {
                    lemma_received_data_is_shown(value@);
                }
                text
            },
            None => String::from_str("Data hasn't fetched yet."),
        }
    }
}

} // verus!

verus! {

/// A received message is always shown as `Event source data ` and its
/// `{:?}` rendering, never as the waiting text, whatever the message is.
pub proof fn lemma_received_data_is_shown(data: Seq<char>)
    ensures
        data_text_spec(data) == "Event source data "@ + debug_text(data),
        data_text_spec(data) != "Data hasn't fetched yet."@,
        waiting_text() == "Data hasn't fetched yet."@,
{
    reveal_strlit("Event source data ");
    reveal_strlit("Data hasn't fetched yet.");
    assert(data_text_spec(data)[0] == 'E');
    assert("Data hasn't fetched yet."@[0] == 'D');
}

} // verus!
