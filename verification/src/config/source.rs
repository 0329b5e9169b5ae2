//! The configured shape of a task's source and its resolution.
//!
//! A source entry is either a single shared-ledger source or a list of
//! them (they then share one ledger), or a source with custom
//! mark-as-read semantics.  The ledger itself comes from an external
//! resolver; resolution here only decides the wiring.

use vstd::prelude::*;

use crate::source::{SharedSource, Source, WithCustomReadFilter, WithSharedReadFilter};

verus! {

/// One value or several of them.
pub enum OneOrMultiple<T> {
    /// A single value.
    One(T),
    /// Several values, in order.
    Multiple(Vec<T>),
}

/// The configured shape of an RSS source.
pub struct Rss {
    /// The feed URL.
    pub url: String,
}

impl Rss {
    /// The engine source this configuration stands for.
    pub fn parse(self) -> (r: crate::rss::Rss)
        ensures
            r.url@ == self.url@,
    {
        crate::rss::Rss::new(self.url)
    }
}

/// The configured shape of a timeline source; the API credentials come
/// from the settings, not from the task configuration.
pub struct Twitter {
    /// The handle whose timeline is fetched.
    pub handle: String,
    /// Filters a tweet's text must all contain, case-insensitively.
    pub filter: Vec<String>,
}

impl Twitter {
    /// The engine source this configuration stands for, with the API
    /// credentials supplied from the settings.
    pub fn parse(self, api_key: String, api_secret: String) -> (r: crate::twitter::Twitter)
        ensures
            r.handle@ == self.handle@,
            r.api_key@ == api_key@,
            r.api_secret@ == api_secret@,
            r.token is None,
            crate::text::views_of(r.filter@) == crate::text::views_of(self.filter@),
    {
        crate::twitter::Twitter::new(self.handle, api_key, api_secret, self.filter)
    }
}

/// One configured shared-ledger source.
pub enum SharedSourceConfig {
    /// An HTML page source.
    Html(crate::config::html::Html),
    /// An RSS feed source.
    Rss(Rss),
    /// A timeline source.
    Twitter(Twitter),
}

/// The configured shape of a task's source.
pub enum SourceConfig {
    /// One or several sources sharing the task's ledger.
    WithSharedReadFilter(OneOrMultiple<SharedSourceConfig>),
    /// A source with custom mark-as-read semantics, already resolved.
    WithCustomReadFilter(crate::email::Email),
}

/// The variant correspondence between a configured shared source and the
/// engine source it resolved to.
pub open spec fn shared_source_matches(cfg: SharedSourceConfig, s: SharedSource) -> bool {
    match (cfg, s) {
        (SharedSourceConfig::Html(_), SharedSource::Html(_)) => true,
        (SharedSourceConfig::Rss(c), SharedSource::Rss(r)) => r.url@ == c.url@,
        (SharedSourceConfig::Twitter(c), SharedSource::Twitter(t)) => t.handle@ == c.handle@,
        _ => false,
    }
}

fn parse_shared_one(cfg: SharedSourceConfig, api_key: &String, api_secret: &String) -> (r:
    SharedSource)
    ensures
        shared_source_matches(cfg, r),
{
    match cfg {
        SharedSourceConfig::Html(h) => SharedSource::Html(h.parse()),
        SharedSourceConfig::Rss(c) => SharedSource::Rss(c.parse()),
        SharedSourceConfig::Twitter(c) => SharedSource::Twitter(
            c.parse(api_key.clone(), api_secret.clone()),
        ),
    }
}

impl SourceConfig {
    /// Resolves the configured source: a single shared source becomes a
    /// one-element group, several become one group in order, and all of
    /// them share the ledger the external resolver supplied; a custom
    /// source stands alone.  The timeline credentials come from the
    /// settings.
    pub fn parse(
        self,
        read_filter: crate::read_filter::ReadFilter,
        api_key: &String,
        api_secret: &String,
    ) -> (r: Source)
        ensures
            match self {
                SourceConfig::WithSharedReadFilter(OneOrMultiple::One(_)) => r matches
                    Source::WithSharedReadFilter(g) && g.sources@.len() == 1
                    && g.read_filter == read_filter,
                SourceConfig::WithSharedReadFilter(OneOrMultiple::Multiple(cs)) => r matches
                    Source::WithSharedReadFilter(g) && g.sources@.len() == cs@.len()
                    && g.read_filter == read_filter && (forall|i: int|
                    0 <= i < cs@.len() ==> shared_source_matches(cs@[i], #[trigger] g.sources@[i])),
                SourceConfig::WithCustomReadFilter(_) => r matches Source::WithCustomReadFilter(
                    WithCustomReadFilter::Email(_),
                ),
            },
    {
        match self {
            SourceConfig::WithSharedReadFilter(one_or_many) => {
                let mut sources: Vec<SharedSource> = Vec::new();
                match one_or_many {
                    OneOrMultiple::One(cfg) => {
                        let s = parse_shared_one(cfg, api_key, api_secret);
                        sources.push(s);
                    },
                    OneOrMultiple::Multiple(cfgs) => {
                        let ghost cv = cfgs@;
                        let mut rest = cfgs;
                        while rest.len() > 0
                            invariant
                                sources@.len() + rest@.len() == cv.len(),
                                rest@ == cv.skip(sources@.len() as int),
                                forall|i: int|
                                    0 <= i < sources@.len() ==> shared_source_matches(
                                        cv[i],
                                        #[trigger] sources@[i],
                                    ),
                            decreases rest.len(),
                        {
                            let ghost k = sources@.len() as int;
                            proof {
                                assert(rest@[0] == cv[k]);
                                assert(cv.skip(k).drop_first() =~= cv.skip(k + 1));
                            }
                            let cfg = rest.remove(0);
                            let s = parse_shared_one(cfg, api_key, api_secret);
                            sources.push(s);
                        }
                    },
                }
                Source::WithSharedReadFilter(WithSharedReadFilter::new(sources, read_filter))
            },
            SourceConfig::WithCustomReadFilter(email) => Source::WithCustomReadFilter(
                WithCustomReadFilter::Email(email),
            ),
        }
    }
}

} // verus!
