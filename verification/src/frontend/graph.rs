//! The graph component's data.

use vstd::prelude::*;

verus! {

/// What the graph is drawn from.
pub struct Props {
    pub what: u32,
}

/// The graph component.
pub struct Graph {
    pub props: Props,
}

} // verus!
