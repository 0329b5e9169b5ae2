//! The RSS source's logic: turning a fetched feed into entries.
//!
//! The HTTP fetch is outside this library.  The feed bytes are parsed by
//! the `rss` crate behind a trusted wrapper into the library's item model;
//! the verified logic then removes already-read items against the
//! watermark ledger, reverses the remainder into oldest-first order and
//! builds one entry per item.  Unlike the strict extraction engines, a
//! feed item missing one of its required fields is reported as an error
//! rather than accepted.

use vstd::prelude::*;
use vstd::seq_lib::group_seq_properties;

use crate::entry::{Entry, EntryV, Message, MessageV, Url, entry_views, url_of};
use crate::read_filter::{Newer, newer_survivors};

verus! {

/// An RSS source: a feed URL.
pub struct Rss {
    /// The feed URL.
    pub url: String,
}

impl Rss {
    /// A source for the feed at `url`.
    pub fn new(url: String) -> (r: Self)
        ensures
            r.url@ == url@,
    {
        Rss { url }
    }
}

/// One item of a fetched feed, as the feed declared it.
pub struct FeedItem {
    /// The item's guid value, if any.
    pub guid: Option<String>,
    /// The item's title, if any.
    pub title: Option<String>,
    /// The item's description, if any.
    pub description: Option<String>,
    /// The item's link, if any.
    pub link: Option<String>,
}

/// The mathematical view of a [`FeedItem`].
#[verifier::ext_equal]
pub struct FeedItemV {
    /// The guid value, if any.
    pub guid: Option<Seq<char>>,
    /// The title, if any.
    pub title: Option<Seq<char>>,
    /// The description, if any.
    pub description: Option<Seq<char>>,
    /// The link, if any.
    pub link: Option<Seq<char>>,
}

impl View for FeedItem {
    type V = FeedItemV;

    open spec fn view(&self) -> FeedItemV {
        FeedItemV {
            guid: match &self.guid {
                Some(g) => Some(g@),
                None => None,
            },
            title: match &self.title {
                Some(t) => Some(t@),
                None => None,
            },
            description: match &self.description {
                Some(d) => Some(d@),
                None => None,
            },
            link: match &self.link {
                Some(l) => Some(l@),
                None => None,
            },
        }
    }
}

/// The views of the items in `s`.
pub open spec fn item_views(s: Seq<FeedItem>) -> Seq<FeedItemV> {
    s.map_values(|x: FeedItem| x@)
}

/// What `rss::Channel::read_from` parses a feed to, in the library's item
/// model, named: the result depends on the bytes alone.  `None` stands for
/// a parse error.
pub uninterp spec fn feed_of(b: Seq<u8>) -> Option<Seq<FeedItemV>>;

/// Relies on `rss::Channel::read_from` for feed parsing; each parsed item
/// contributes its guid value, title, description and link.
#[verifier::external_body]
fn parse_feed_bytes(b: &[u8]) -> (r: Option<Vec<FeedItem>>)
    ensures
        match r {
            Some(items) => feed_of(b@) == Some(item_views(items@)),
            None => feed_of(b@) is None,
        },
{
    match rss::Channel::read_from(b) {
        Ok(channel) => Some(
            channel.items.into_iter().map(|i| FeedItem {
                guid: i.guid.map(|g| g.value),
                title: i.title,
                description: i.description,
                link: i.link,
            }).collect(),
        ),
        Err(_) => None,
    }
}

/// An error of the feed-to-entry step, naming the missing or bad field.
pub enum RssError {
    /// The fetched bytes are not a well-formed feed.
    InvalidFeed,
    /// An item carries no guid.
    MissingGuid,
    /// An item carries no title.
    MissingTitle,
    /// An item carries no description.
    MissingDescription,
    /// An item carries no link.
    MissingLink,
    /// An item's link is not a valid URL; carries the text.
    InvalidUrl(String),
}

/// The mathematical view of an [`RssError`].
#[verifier::ext_equal]
pub enum RssErrorV {
    /// Not a well-formed feed.
    InvalidFeed,
    /// An item carries no guid.
    MissingGuid,
    /// An item carries no title.
    MissingTitle,
    /// An item carries no description.
    MissingDescription,
    /// An item carries no link.
    MissingLink,
    /// An item's link is not a valid URL.
    InvalidUrl(Seq<char>),
}

impl View for RssError {
    type V = RssErrorV;

    open spec fn view(&self) -> RssErrorV {
        match self {
            RssError::InvalidFeed => RssErrorV::InvalidFeed,
            RssError::MissingGuid => RssErrorV::MissingGuid,
            RssError::MissingTitle => RssErrorV::MissingTitle,
            RssError::MissingDescription => RssErrorV::MissingDescription,
            RssError::MissingLink => RssErrorV::MissingLink,
            RssError::InvalidUrl(u) => RssErrorV::InvalidUrl(u@),
        }
    }
}

/// The entry one feed item becomes: the guid as the id, the title and the
/// description as the message, the link parsed as a URL.  Each required
/// field that is absent, and an invalid link, is an error.
pub open spec fn feed_entry_spec(x: FeedItemV) -> Result<EntryV, RssErrorV> {
    match x.guid {
        None => Err(RssErrorV::MissingGuid),
        Some(g) => match x.title {
            None => Err(RssErrorV::MissingTitle),
            Some(t) => match x.description {
                None => Err(RssErrorV::MissingDescription),
                Some(d) => match x.link {
                    None => Err(RssErrorV::MissingLink),
                    Some(l) => match url_of(l) {
                        None => Err(RssErrorV::InvalidUrl(l)),
                        Some(u) => Ok(
                            EntryV {
                                id: Some(g),
                                raw_contents: None,
                                msg: MessageV {
                                    title: Some(t),
                                    body: Some(d),
                                    link: Some(u),
                                    media: None,
                                },
                            },
                        ),
                    },
                },
            },
        },
    }
}

/// The entries of a whole feed, in feed order; the first bad item aborts.
pub open spec fn feed_entries_spec(items: Seq<FeedItemV>) -> Result<Seq<EntryV>, RssErrorV>
    decreases items.len(),
{
    if items.len() == 0 {
        Ok(Seq::empty())
    } else {
        match feed_entry_spec(items[0]) {
            Err(e) => Err(e),
            Ok(en) => match feed_entries_spec(items.drop_first()) {
                Err(e) => Err(e),
                Ok(rest) => Ok(seq![en] + rest),
            },
        }
    }
}

/// What a fetched feed yields for delivery: its entries with the
/// already-read suffix removed by the watermark, reversed into
/// oldest-first order.
pub open spec fn feed_delivery_spec(items: Seq<FeedItemV>, last: Option<Seq<char>>) -> Result<
    Seq<EntryV>,
    RssErrorV,
> {
    match feed_entries_spec(items) {
        Err(e) => Err(e),
        Ok(es) => Ok(newer_survivors(es, last).reverse()),
    }
}

fn feed_entry(x: &FeedItem) -> (r: Result<Entry, RssError>)
    ensures
        match r {
            Ok(e) => feed_entry_spec(x@) == Ok::<_, RssErrorV>(e@),
            Err(er) => feed_entry_spec(x@) == Err::<EntryV, _>(er@),
        },
{
    let g = match &x.guid {
        Some(g) => g.clone(),
        None => {
            return Err(RssError::MissingGuid);
        },
    };
    let t = match &x.title {
        Some(t) => t.clone(),
        None => {
            return Err(RssError::MissingTitle);
        },
    };
    let d = match &x.description {
        Some(d) => d.clone(),
        None => {
            return Err(RssError::MissingDescription);
        },
    };
    let l = match &x.link {
        Some(l) => l,
        None => {
            return Err(RssError::MissingLink);
        },
    };
    let u = match Url::parse(l.as_str()) {
        Some(u) => u,
        None => {
            return Err(RssError::InvalidUrl(l.clone()));
        },
    };
    let e = Entry {
        id: Some(g),
        raw_contents: None,
        msg: Message { title: Some(t), body: Some(d), link: Some(u), media: None },
    };
    proof {
        assert(feed_entry_spec(x@) matches Ok(ev) && ev =~~= e@);
    }
    Ok(e)
}

fn reverse_entries(v: Vec<Entry>) -> (r: Vec<Entry>)
    ensures
        entry_views(r@) == entry_views(v@).reverse(),
{
    let mut out: Vec<Entry> = Vec::new();
    let ghost sv = entry_views(v@);
    let mut i: usize = v.len();
    while i > 0
        invariant
            sv == entry_views(v@),
            i <= v.len(),
            entry_views(out@).len() == v.len() - i,
            forall|j: int|
                0 <= j < entry_views(out@).len() ==> entry_views(out@)[j] == sv[sv.len() - 1 - j],
        decreases i,
    {
        i = i - 1;
        let ghost prev = entry_views(out@);
        let e = v[i].clone();
        out.push(e);
        proof {
            assert(entry_views(out@) =~= prev.push(out@.last()@));
            assert(out@.last()@ == sv[i as int]);
        }
    }
    proof {
        assert(entry_views(out@) =~= sv.reverse());
    }
    out
}

impl Rss {
    /// Turns a fetched feed into deliverable entries: each item becomes an
    /// entry (any missing required field or invalid link is an error), the
    /// watermark removes the already-read suffix, and the survivors come
    /// back oldest first.
    pub fn entries_from_feed(&self, items: &Vec<FeedItem>, read_filter: &Newer) -> (r: Result<
        Vec<Entry>,
        RssError,
    >)
        ensures
            match r {
                Ok(out) => feed_delivery_spec(item_views(items@), read_filter@) == Ok::<
                    _,
                    RssErrorV,
                >(entry_views(out@)),
                Err(e) => feed_delivery_spec(item_views(items@), read_filter@) == Err::<
                    Seq<EntryV>,
                    _,
                >(e@),
            },
    {
        broadcast use group_seq_properties;

        let ghost iv = item_views(items@);
        let mut entries: Vec<Entry> = Vec::new();
        proof {
            assert(iv.skip(0) =~= iv);
            assert(entry_views(entries@) =~= Seq::<EntryV>::empty());
            match feed_entries_spec(iv) {
                Ok(rest) => {
                    assert(entry_views(entries@) + rest =~= rest);
                },
                Err(_) => {},
            }
        }
        let mut i: usize = 0;
        while i < items.len()
            invariant
                iv == item_views(items@),
                i <= items.len(),
                feed_entries_spec(iv) == (match feed_entries_spec(iv.skip(i as int)) {
                    Ok(rest) => Ok::<_, RssErrorV>(entry_views(entries@) + rest),
                    Err(e) => Err::<Seq<EntryV>, _>(e),
                }),
            decreases items.len() - i,
        {
            proof {
                assert(iv.skip(i as int)[0] == iv[i as int]);
                assert(iv[i as int] == items@[i as int]@);
                assert(iv.skip(i as int).drop_first() =~= iv.skip(i + 1));
            }
            let ghost prev = entry_views(entries@);
            match feed_entry(&items[i]) {
                Ok(e) => {
                    entries.push(e);
                    proof {
                        assert(entry_views(entries@) =~= prev.push(entries@.last()@));
                        match feed_entries_spec(iv.skip(i + 1)) {
                            Ok(rest) => {
                                assert(prev + (seq![entries@.last()@] + rest) =~= entry_views(
                                    entries@,
                                ) + rest);
                            },
                            Err(_) => {},
                        }
                    }
                },
                Err(e) => {
                    return Err(e);
                },
            }
            i = i + 1;
        }
        proof {
            assert(iv.skip(iv.len() as int) =~= Seq::<FeedItemV>::empty());
            assert(entry_views(entries@) + Seq::<EntryV>::empty() =~= entry_views(entries@));
        }
        read_filter.remove_read(&mut entries);
        Ok(reverse_entries(entries))
    }

    /// Turns the raw bytes of a fetched feed into deliverable entries:
    /// bytes that do not parse as a feed are an error; a parsed feed goes
    /// through the item conversion, the watermark and the reversal.
    pub fn entries_from_feed_bytes(&self, raw: &[u8], read_filter: &Newer) -> (r: Result<
        Vec<Entry>,
        RssError,
    >)
        ensures
            match feed_of(raw@) {
                None => r matches Err(e) && e@ == RssErrorV::InvalidFeed,
                Some(items) => match r {
                    Ok(out) => feed_delivery_spec(items, read_filter@) == Ok::<_, RssErrorV>(
                        entry_views(out@),
                    ),
                    Err(e) => feed_delivery_spec(items, read_filter@) == Err::<Seq<EntryV>, _>(
                        e@,
                    ),
                },
            },
    {
        match parse_feed_bytes(raw) {
            None => Err(RssError::InvalidFeed),
            Some(items) => self.entries_from_feed(&items, read_filter),
        }
    }
}

} // verus!
