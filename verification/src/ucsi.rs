//! The UCSI tab. It has nothing to show yet but its name.

use vstd::prelude::*;

verus! {

#[derive(Debug, Clone, Copy, PartialEq, Eq, Structural)]
pub struct Ucsi {}

impl Default for Ucsi {
    fn default() -> (r: Ucsi)
        ensures
            r == (Ucsi {  }),
    {
        Ucsi {  }
    }
}

impl Ucsi {
    pub fn new() -> (r: Ucsi)
        ensures
            r == (Ucsi {  }),
    {
        Ucsi {  }
    }

    /// The title of the tab.
    pub fn title(&self) -> (r: &'static str)
        ensures
            r@ == "UCSI Information"@,
    {
        "UCSI Information"
    }

    /// The heading of the tab's one pane.
    pub fn status_title(&self) -> (r: &'static str)
        ensures
            r@ == "UCSI State"@,
    {
        "UCSI State"
    }
}

} // verus!
