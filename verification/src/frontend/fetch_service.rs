//! The fetch component: fetches the server's JSON document on request and
//! shows it.

use vstd::prelude::*;

use crate::data::MyJsonFile;

verus! {

/// The component's messages.
pub enum Msg {
    FetchData,
    /// The response's document; the error's text where it could not be read.
    FetchReady(Result<MyJsonFile, String>),
    Ignore,
}

/// Whether an HTTP status code reports success: the 2xx range.
pub open spec fn is_success_spec(status: u16) -> bool {
    200 <= status < 300
}

/// Whether an HTTP status code reports success, as `http::StatusCode::is_success`
/// decides it.
pub fn is_success(status: u16) -> (ok: bool)
    ensures
        ok == is_success_spec(status),
        ok == (200 <= status && status <= 299),
{
    300 > status && status >= 200
}

/// The message a fetch response is answered with: a successful response
/// hands its document over, any other is ignored.
pub fn response_msg(status: u16, data: Result<MyJsonFile, String>) -> (msg: Msg)
    ensures
        is_success_spec(status) ==> msg == Msg::FetchReady(data),
        !is_success_spec(status) ==> msg is Ignore,
{
    if is_success(status) {
        Msg::FetchReady(data)
    } else {
        Msg::Ignore
    }
}

/// What the component asks of the fetch service after a message.
pub enum Command {
    Keep,
    /// Start fetching the document.
    Fetch,
}

/// The fetch component's state.
pub struct ApiComponent {
    /// Whether a fetch is under way.
    pub fetching: bool,
    /// The last document fetched, if it could be read.
    pub data: Option<MyJsonFile>,
}

impl ApiComponent {
    /// Not fetching, nothing fetched.
    pub fn create() -> (c: Self)
        ensures
            !c.fetching,
            c.data is None,
    {
        ApiComponent { fetching: false, data: None }
    }

    /// Answers one message: whether to start a fetch, and whether to redraw.
    pub fn update(&mut self, msg: Msg) -> (outcome: (bool, Command))
        ensures
            match msg {
                Msg::FetchData => {
                    &&& outcome.0
                    &&& outcome.1 is Fetch
                    &&& final(self).fetching
                    &&& final(self).data == old(self).data
                },
                Msg::FetchReady(response) => {
                    &&& outcome.0
                    &&& outcome.1 is Keep
                    &&& !final(self).fetching
                    &&& final(self).data == response.ok()
                },
                Msg::Ignore => {
                    &&& !outcome.0
                    &&& outcome.1 is Keep
                    &&& *final(self) == *old(self)
                },
            },
    {
        match msg {
            Msg::FetchData => {
                self.fetching = true;
                (true, Command::Fetch)
            },
            Msg::FetchReady(response) => {
                self.fetching = false;
                self.data = response.ok();
                (true, Command::Keep)
            },
            Msg::Ignore => (false, Command::Keep),
        }
    }
}

} // verus!

verus! {

/// The success statuses are exactly 200 through 299: below 200 and from 300
/// on (redirects, client and server errors) nothing is a success, and a
/// response with such a status is ignored.
pub proof fn lemma_success_is_the_2xx_range(status: u16)
    ensures
        is_success_spec(status) <==> (200 <= status && status <= 299),
        status >= 300 ==> !is_success_spec(status),
        status < 200 ==> !is_success_spec(status),
{
}

} // verus!
