//! The plain commands the host's input layer hands the driving loop.
//! Mapping raw key events to these flags is the host's job.
use vstd::prelude::*;

verus! {

/// What the user asked for this frame.
#[derive(Clone, Copy, Debug, PartialEq, Eq, Structural)]
pub struct InputResult {
    pub request_exit: bool,
    pub pause: bool,
    pub randomize: bool,
    pub clear: bool,
}

impl Default for InputResult {
    /// No request at all.
    fn default() -> (r: Self)
        ensures
            r == (InputResult {
                request_exit: false,
                pause: false,
                randomize: false,
                clear: false,
            }),
    {
        Self { request_exit: false, pause: false, randomize: false, clear: false }
    }
}

} // verus!
