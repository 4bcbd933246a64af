use vstd::prelude::*;

verus! {

/// What the server keeps about the connected browser; it holds nothing yet.
pub struct BrowserData {}

impl BrowserData {
    pub fn new() -> (b: BrowserData)
        ensures
            b == (BrowserData {}),
    {
        BrowserData {}
    }
}

} // verus!
