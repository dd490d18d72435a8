//! What the application asks of the host at startup.
use vstd::prelude::*;

verus! {

/// The window or page title, and whether the cursor is captured at startup.
pub struct Props {
    pub title: String,
    pub capture_cursor: bool,
}

impl Default for Props {
    fn default() -> (r: Props)
        ensures
            r.title@ == "Default title!"@,
            !r.capture_cursor,
    {
        Props { title: "Default title!".to_owned(), capture_cursor: false }
    }
}

} // verus!
