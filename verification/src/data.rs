//! The JSON document the server and the browser components exchange.

use vstd::prelude::*;

verus! {

/// A small named counter document.
pub struct MyJsonFile {
    pub name: String,
    pub number: u32,
}

impl MyJsonFile {
    /// The document's name and number as plain values.
    pub open spec fn fields(&self) -> (Seq<char>, u32) {
        (self.name@, self.number)
    }
}

} // verus!
