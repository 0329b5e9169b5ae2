//! The closed set of sources a task can be configured with.
//!
//! Sources that share the task's generic read ledger are grouped around
//! one [`ReadFilter`][crate::read_filter::ReadFilter] handle; a source
//! with its own mark-as-read semantics, such as email, owns its dedup
//! state exclusively.  The fetching itself is I/O and stands outside this
//! library; each variant's entry-shaping logic lives in its own module.

use vstd::prelude::*;

use crate::read_filter::ReadFilter;

verus! {

/// A source consulting the task's shared read ledger.
pub enum SharedSource {
    /// An HTML page source.
    Html(crate::html::Html),
    /// An RSS feed source.
    Rss(crate::rss::Rss),
    /// A timeline source.
    Twitter(crate::twitter::Twitter),
}

/// A group of sources sharing one read ledger.
pub struct WithSharedReadFilter {
    /// The sources, consulted in order.
    pub sources: Vec<SharedSource>,
    /// The shared ledger.
    pub read_filter: ReadFilter,
}

impl WithSharedReadFilter {
    /// A group of sources around one shared ledger.
    pub fn new(sources: Vec<SharedSource>, read_filter: ReadFilter) -> (r: Self)
        ensures
            r.sources == sources,
            r.read_filter == read_filter,
    {
        WithSharedReadFilter { sources, read_filter }
    }
}

/// A source owning its dedup state exclusively.
pub enum WithCustomReadFilter {
    /// An email source: marking mail as read happens on the server.
    Email(crate::email::Email),
}

/// A task's source.
pub enum Source {
    /// Sources sharing the task's generic read ledger.
    WithSharedReadFilter(WithSharedReadFilter),
    /// A source with its own mark-as-read semantics.
    WithCustomReadFilter(WithCustomReadFilter),
}

} // verus!
