//! What the HTTP endpoints answer that is not an echo of the request.

use vstd::prelude::*;

use crate::data::MyJsonFile;

verus! {

/// The document the `/json_get` endpoint serves.
pub fn get_json_file() -> (payload: MyJsonFile)
    ensures
        payload.fields() == ("asdf"@, 3u32),
{
    MyJsonFile { name: String::from_str("asdf"), number: 3 }
}

} // verus!
