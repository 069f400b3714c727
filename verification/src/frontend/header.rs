//! The page header: the empire and player it shows.

use vstd::prelude::*;

verus! {

/// What the header shows.
pub struct Props {
    pub empire_name: String,
    pub player_name: String,
}

impl Props {
    /// The two names as plain values.
    pub open spec fn names(&self) -> (Seq<char>, Seq<char>) {
        (self.empire_name@, self.player_name@)
    }

    /// Whether both names agree with `other`'s.
    pub fn same_as(&self, other: &Props) -> (same: bool)
        ensures
            same == (self.names() == other.names()),
    {
        self.empire_name == other.empire_name && self.player_name == other.player_name
    }
}

/// The text of the player label: the player's name in parentheses.
pub open spec fn player_label_spec(player_name: Seq<char>) -> Seq<char> {
    "("@ + player_name + ")"@
}

/// The page header component.
pub struct PageHeader {
    pub props: Props,
}

impl PageHeader {
    /// A header showing `props`.
    pub fn create(props: Props) -> (header: Self)
        ensures
            header.props == props,
    {
        PageHeader { props }
    }

    /// The header has no messages of its own: nothing changes and nothing is
    /// redrawn.
    pub fn update(&mut self, msg: ()) -> (render: bool)
        ensures
            !render,
            *final(self) == *old(self),
    {
        false
    }

    /// Takes new properties from the parent; redraws only when a name changed.
    pub fn change(&mut self, props: Props) -> (render: bool)
        ensures
            render == (old(self).props.names() != props.names()),
            final(self).props.names() == props.names(),
            render ==> final(self).props == props,
            !render ==> *final(self) == *old(self),
    {
        if !self.props.same_as(&props) {
            self.props = props;
            true
        } else {
            false
        }
    }

    /// The text of the empire label.
    pub fn empire_label(&self) -> (label: String)
        ensures
            label@ == self.props.empire_name@,
    {
        self.props.empire_name.clone()
    }

    /// The text of the player label.
    pub fn player_label(&self) -> (label: String)
        ensures
            label@ == player_label_spec(self.props.player_name@),
    {
        let mut label = String::from_str("(");
        label.append(self.props.player_name.as_str());
        label.append(")");
        label
    }
}

} // verus!
