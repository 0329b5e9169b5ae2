//! The configured view mode of an email source.

use vstd::prelude::*;

verus! {

/// The configured view mode.
pub enum ViewMode {
    /// Never mutate anything on the server.
    ReadOnly,
    /// Mark delivered mail as seen.
    MarkAsRead,
    /// Delete delivered mail.
    Delete,
}

impl ViewMode {
    /// The engine view mode this configuration names.
    pub fn parse(self) -> (r: crate::email::ViewMode)
        ensures
            (self is ReadOnly <==> r is ReadOnly),
            (self is MarkAsRead <==> r is MarkAsRead),
            (self is Delete <==> r is Delete),
    {
        match self {
            ViewMode::ReadOnly => crate::email::ViewMode::ReadOnly,
            ViewMode::MarkAsRead => crate::email::ViewMode::MarkAsRead,
            ViewMode::Delete => crate::email::ViewMode::Delete,
        }
    }
}

} // verus!
