use vstd::prelude::*;

verus! {

/// the status contains information written on the grey line
///  near the bottom of the screen
#[derive(Debug, Clone)]
pub struct Status {
    /// markdown
    pub message: String,
    /// is the current message an error?
    pub error: bool,
}

impl Status {
    pub fn new(message: String, error: bool) -> (s: Status)
        ensures
            s.message@ == message@,
            s.error == error,
    {
        Self { message, error }
    }

    pub fn from_message(message: String) -> (s: Status)
        ensures
            s.message@ == message@,
            !s.error,
    {
        Self { message, error: false }
    }

    pub fn from_error(message: String) -> (s: Status)
        ensures
            s.message@ == message@,
            s.error,
    {
        Self { message, error: true }
    }
}

} // verus!
