//! The configured shapes of the simple text transforms.

use vstd::prelude::*;

verus! {

/// The configured shorten transform: a maximum body length.
pub struct Shorten {
    /// The maximum body length, in characters.
    pub len: usize,
}

impl Shorten {
    /// The engine transform this configuration stands for.
    pub fn parse(self) -> (r: crate::action::Shorten)
        ensures
            r.len == self.len,
    {
        crate::action::Shorten { len: self.len }
    }
}

} // verus!
