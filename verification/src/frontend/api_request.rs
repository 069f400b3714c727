//! The request component: fetches a document in the background and shows
//! the fetch's progress.

use vstd::prelude::*;

use crate::frontend::ws_service::MyJsonFile;

verus! {

/// Why a fetch failed: the text of the browser's error value.
pub struct FetchError {
    pub err: String,
}

/// The possible states a fetch request can be in.
pub enum FetchState<T> {
    NotFetching,
    Fetching,
    Success(T),
    Failed(FetchError),
}

/// The component's messages.
pub enum Msg {
    SetFetchState(FetchState<MyJsonFile>),
    GetJson,
}

/// The document a completed fetch yields.
pub open spec fn fetched_fields() -> (Seq<char>, i32) {
    ("what is up"@, 7i32)
}

/// The document a completed fetch yields.
pub fn fetched_document() -> (doc: MyJsonFile)
    ensures
        doc.fields() == fetched_fields(),
{
    MyJsonFile { name: String::from_str("what is up"), number: 7 }
}

/// The message a finished fetch reports: the document, or the failure.
pub fn fetch_outcome(result: Result<MyJsonFile, FetchError>) -> (msg: Msg)
    ensures
        match result {
            Ok(doc) => msg == Msg::SetFetchState(FetchState::Success(doc)),
            Err(e) => msg == Msg::SetFetchState(FetchState::<MyJsonFile>::Failed(e)),
        },
{
    match result {
        Ok(doc) => Msg::SetFetchState(FetchState::Success(doc)),
        Err(e) => Msg::SetFetchState(FetchState::Failed(e)),
    }
}

/// How the component answers a message.
pub struct Outcome {
    /// Whether to redraw.
    pub render: bool,
    /// Whether to start a background fetch, whose end is reported through
    /// `fetch_outcome`.
    pub start_fetch: bool,
    /// A message to send to the component meanwhile.
    pub follow_up: Option<Msg>,
}

/// The request component's state.
pub struct ApiComponent {
    pub json: FetchState<MyJsonFile>,
}

impl ApiComponent {
    /// Nothing fetched, no fetch under way.
    pub fn create() -> (c: Self)
        ensures
            c.json is NotFetching,
    {
        ApiComponent { json: FetchState::NotFetching }
    }

    /// Answers one message. A new state is taken over and shown; a request
    /// starts a fetch and marks the component as fetching, by a message of
    /// its own, without redrawing yet.
    pub fn update(&mut self, msg: Msg) -> (outcome: Outcome)
        ensures
            match msg {
                Msg::SetFetchState(state) => {
                    &&& final(self).json == state
                    &&& outcome.render
                    &&& !outcome.start_fetch
                    &&& outcome.follow_up is None
                },
                Msg::GetJson => {
                    &&& *final(self) == *old(self)
                    &&& !outcome.render
                    &&& outcome.start_fetch
                    &&& outcome.follow_up == Some(Msg::SetFetchState(FetchState::<MyJsonFile>::Fetching))
                },
            },
    {
        match msg {
            Msg::SetFetchState(state) => {
                self.json = state;
                Outcome { render: true, start_fetch: false, follow_up: None }
            },
            Msg::GetJson => Outcome {
                render: false,
                start_fetch: true,
                follow_up: Some(Msg::SetFetchState(FetchState::Fetching)),
            },
        }
    }

    /// The component takes no properties: a change never redraws.
    pub fn change(&mut self) -> (render: bool)
        ensures
            !render,
            *final(self) == *old(self),
    {
        false
    }
}

} // verus!
