//! The root component: the page frame around the header.

use vstd::prelude::*;

use crate::frontend::header::Props;

verus! {

/// What the root component reacts to.
pub enum Msg {
    Click,
}

/// The root component's state.
pub struct App {
    pub clicked: bool,
}

impl App {
    /// A page that has not been clicked yet.
    pub fn create() -> (app: Self)
        ensures
            !app.clicked,
    {
        App { clicked: false }
    }

    /// The root component takes no properties: a change never redraws.
    pub fn change(&mut self) -> (render: bool)
        ensures
            !render,
            *final(self) == *old(self),
    {
        false
    }

    /// A click marks the page as clicked; the page is then redrawn.
    pub fn update(&mut self, msg: Msg) -> (render: bool)
        ensures
            render,
            final(self).clicked,
    {
        match msg {
            Msg::Click => {
                self.clicked = true;
            },
        }
        true
    }

    /// What the page header shows.
    pub fn header_props() -> (props: Props)
        ensures
            props.names() == ("THE GREAT KHANATE"@, "George"@),
    {
        Props {
            empire_name: String::from_str("THE GREAT KHANATE"),
            player_name: String::from_str("George"),
        }
    }
}

} // verus!
