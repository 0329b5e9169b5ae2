//! The timeline source's logic: filtering tweets, shaping them into
//! entries, and planning a news run against a watermark.
//!
//! The timeline API itself is outside this library; the verified logic
//! works on the fetched tweets as plain values.  A tweet passes the
//! configured filters when its lowercased text contains every lowercased
//! filter.  A news run walks the fetched timeline oldest first, sends
//! each passing tweet and moves the watermark to the id of each tweet it
//! sends, so the watermark ends at the newest delivered id.

use vstd::prelude::*;

use crate::entry::{Entry, EntryV, Media, MediaV, Message, MessageV, Url, entry_views, url_of};
use crate::text::{contains_seq, dec_rep, views_of};

verus! {

/// What `str::to_lowercase` returns, named: the result depends on the
/// characters alone.
pub uninterp spec fn lower_of(s: Seq<char>) -> Seq<char>;

/// Relies on `str::to_lowercase` for Unicode lowercasing.
#[verifier::external_body]
fn to_lower(s: &str) -> (r: String)
    ensures
        r@ == lower_of(s@),
        s@.len() == 0 ==> r@.len() == 0,
{
    s.to_lowercase()
}

/// The kind of a tweet's media entity.
pub enum TweetMediaKind {
    /// A photo.
    Photo,
    /// A video.
    Video,
    /// An animated image; it has no counterpart in the message model.
    Gif,
}

/// One media entity of a tweet.
pub struct TweetMedia {
    /// The kind of the entity.
    pub kind: TweetMediaKind,
    /// The media URL.
    pub url: String,
}

/// The mathematical view of a [`TweetMedia`].
#[verifier::ext_equal]
pub struct TweetMediaV {
    /// The kind of the entity.
    pub kind: TweetMediaKind,
    /// The media URL.
    pub url: Seq<char>,
}

impl View for TweetMedia {
    type V = TweetMediaV;

    open spec fn view(&self) -> TweetMediaV {
        TweetMediaV { kind: self.kind, url: self.url@ }
    }
}

/// One fetched tweet, as plain values.
pub struct Tweet {
    /// The tweet's numeric id.
    pub id: u64,
    /// The tweet's text.
    pub text: String,
    /// The tweet's media entities, when it has any.
    pub media: Option<Vec<TweetMedia>>,
}

/// The mathematical view of a [`Tweet`].
#[verifier::ext_equal]
pub struct TweetV {
    /// The numeric id.
    pub id: u64,
    /// The text.
    pub text: Seq<char>,
    /// The media entities, if any.
    pub media: Option<Seq<TweetMediaV>>,
}

impl View for Tweet {
    type V = TweetV;

    open spec fn view(&self) -> TweetV {
        TweetV {
            id: self.id,
            text: self.text@,
            media: match &self.media {
                Some(ms) => Some(ms@.map_values(|m: TweetMedia| m@)),
                None => None,
            },
        }
    }
}

/// The views of the tweets in `s`.
pub open spec fn tweet_views(s: Seq<Tweet>) -> Seq<TweetV> {
    s.map_values(|t: Tweet| t@)
}

/// A timeline source.
pub struct Twitter {
    /// The handle whose timeline is fetched.
    pub handle: String,
    /// The API key.
    pub api_key: String,
    /// The API secret.
    pub api_secret: String,
    /// The bearer token, once one has been obtained.
    pub token: Option<String>,
    /// Filters a tweet's text must all contain, case-insensitively.
    pub filter: Vec<String>,
}

impl Twitter {
    /// A timeline source with no bearer token yet.
    pub fn new(handle: String, api_key: String, api_secret: String, filter: Vec<String>) -> (r:
        Self)
        ensures
            r.handle@ == handle@,
            r.api_key@ == api_key@,
            r.api_secret@ == api_secret@,
            r.token is None,
            views_of(r.filter@) == views_of(filter@),
    {
        Twitter { handle, api_key, api_secret, token: None, filter }
    }
}

/// The tweet's lowercased text contains every lowercased filter.
pub open spec fn passes_filters(text: Seq<char>, filters: Seq<Seq<char>>) -> bool {
    forall|i: int|
        0 <= i < filters.len() ==> contains_seq(lower_of(text), lower_of(#[trigger] filters[i]))
}

/// True when the tweet's text contains each filter, case-insensitively.
pub fn tweet_contains_filters(tweet: &str, filters: &Vec<String>) -> (r: bool)
    ensures
        r == passes_filters(tweet@, views_of(filters@)),
{
    let lowered = to_lower(tweet);
    let ghost fv = views_of(filters@);
    let mut i: usize = 0;
    while i < filters.len()
        invariant
            fv == views_of(filters@),
            lowered@ == lower_of(tweet@),
            i <= filters.len(),
            forall|j: int| 0 <= j < i ==> contains_seq(lower_of(tweet@), lower_of(#[trigger] fv[j])),
        decreases filters.len() - i,
    {
        proof {
            assert(fv[i as int] == filters@[i as int]@);
        }
        let lf = to_lower(filters[i].as_str());
        if !crate::text::contains(lowered.as_str(), lf.as_str()) {
            return false;
        }
        i = i + 1;
    }
    true
}

/// The canonical link of a tweet on the given handle's timeline.
pub open spec fn tweet_link_spec(handle: Seq<char>, id: u64) -> Seq<char> {
    "https://twitter.com/"@ + handle + "/status/"@ + dec_rep(id as nat)
}

/// Builds the canonical link text of a tweet.
pub fn tweet_link(handle: &str, id: u64) -> (r: String)
    ensures
        r@ == tweet_link_spec(handle@, id),
{
    let mut out = String::from_str("https://twitter.com/");
    out.append(handle);
    out.append("/status/");
    let idtext = crate::text::u64_to_string(id);
    out.append(idtext.as_str());
    proof {
        assert(out@ =~= tweet_link_spec(handle@, id));
    }
    out
}

/// The message media of a tweet's entities: one photo or video per entity,
/// each with a valid URL.  A gif entity or an invalid URL leaves the
/// message without media, as the timeline source cannot represent it.
pub open spec fn media_of(ms: Seq<TweetMediaV>) -> Option<Seq<MediaV>>
    decreases ms.len(),
{
    if ms.len() == 0 {
        Some(Seq::empty())
    } else {
        match ms[0].kind {
            TweetMediaKind::Gif => None,
            TweetMediaKind::Photo => match url_of(ms[0].url) {
                None => None,
                Some(u) => match media_of(ms.drop_first()) {
                    None => None,
                    Some(rest) => Some(seq![MediaV::Photo(u)] + rest),
                },
            },
            TweetMediaKind::Video => match url_of(ms[0].url) {
                None => None,
                Some(u) => match media_of(ms.drop_first()) {
                    None => None,
                    Some(rest) => Some(seq![MediaV::Video(u)] + rest),
                },
            },
        }
    }
}

/// The entry one tweet becomes: its id stringified, its text as the body,
/// its canonical link when that parses, its media entities mapped when
/// every one of them can be.
pub open spec fn tweet_entry_spec(handle: Seq<char>, t: TweetV) -> EntryV {
    EntryV {
        id: Some(dec_rep(t.id as nat)),
        raw_contents: None,
        msg: MessageV {
            title: None,
            body: Some(t.text),
            link: match url_of(tweet_link_spec(handle, t.id)) {
                Some(u) => Some(u),
                None => None,
            },
            media: match t.media {
                None => None,
                Some(ms) => media_of(ms),
            },
        },
    }
}

/// The entries of a fetched timeline, in timeline order: tweets failing
/// the filters are dropped (an empty filter list passes everything).
pub open spec fn timeline_entries_spec(handle: Seq<char>, filters: Seq<Seq<char>>, ts: Seq<TweetV>)
    -> Seq<EntryV>
    decreases ts.len(),
{
    if ts.len() == 0 {
        Seq::empty()
    } else {
        let rest = timeline_entries_spec(handle, filters, ts.drop_first());
        if filters.len() == 0 || passes_filters(ts[0].text, filters) {
            seq![tweet_entry_spec(handle, ts[0])] + rest
        } else {
            rest
        }
    }
}

fn media_items(ms: &Vec<TweetMedia>) -> (r: Option<Vec<Media>>)
    ensures
        match r {
            Some(out) => media_of(ms@.map_values(|m: TweetMedia| m@)) == Some(
                out@.map_values(|m: Media| m@),
            ),
            None => media_of(ms@.map_values(|m: TweetMedia| m@)) is None,
        },
{
    let ghost mv = ms@.map_values(|m: TweetMedia| m@);
    let mut out: Vec<Media> = Vec::new();
    proof {
        assert(mv.skip(0) =~= mv);
    }
    let mut i: usize = 0;
    while i < ms.len()
        invariant
            mv == ms@.map_values(|m: TweetMedia| m@),
            i <= ms.len(),
            media_of(mv) == (match media_of(mv.skip(i as int)) {
                Some(rest) => Some(out@.map_values(|m: Media| m@) + rest),
                None => None::<Seq<MediaV>>,
            }),
        decreases ms.len() - i,
    {
        proof {
            assert(mv.skip(i as int)[0] == mv[i as int]);
            assert(mv[i as int] == ms@[i as int]@);
            assert(mv.skip(i as int).drop_first() =~= mv.skip(i + 1));
        }
        let ghost prev = out@.map_values(|m: Media| m@);
        let u = match &ms[i].kind {
            TweetMediaKind::Gif => {
                return None;
            },
            TweetMediaKind::Photo => match Url::parse(ms[i].url.as_str()) {
                Some(u) => Media::Photo(u),
                None => {
                    return None;
                },
            },
            TweetMediaKind::Video => match Url::parse(ms[i].url.as_str()) {
                Some(u) => Media::Video(u),
                None => {
                    return None;
                },
            },
        };
        out.push(u);
        proof {
            assert(out@.map_values(|m: Media| m@) =~= prev.push(out@.last()@));
            match media_of(mv.skip(i + 1)) {
                Some(rest) => {
                    assert(prev + (seq![out@.last()@] + rest) =~= out@.map_values(|m: Media| m@)
                        + rest);
                },
                None => {},
            }
        }
        i = i + 1;
    }
    proof {
        assert(mv.skip(mv.len() as int) =~= Seq::<TweetMediaV>::empty());
        assert(out@.map_values(|m: Media| m@) + Seq::<MediaV>::empty() =~= out@.map_values(
            |m: Media| m@,
        ));
    }
    Some(out)
}

fn tweet_entry(handle: &str, t: &Tweet) -> (r: Entry)
    ensures
        r@ == tweet_entry_spec(handle@, t@),
{
    let link_text = tweet_link(handle, t.id);
    let link = Url::parse(link_text.as_str());
    let media = match &t.media {
        None => None,
        Some(ms) => media_items(ms),
    };
    let id = crate::text::u64_to_string(t.id);
    let e = Entry {
        id: Some(id),
        raw_contents: None,
        msg: Message { title: None, body: Some(t.text.clone()), link, media },
    };
    proof {
        assert(e@ =~~= tweet_entry_spec(handle@, t@));
    }
    e
}

impl Twitter {
    /// Turns a fetched timeline into entries, in timeline order, dropping
    /// tweets that fail the configured filters.
    pub fn entries_from_tweets(&self, tweets: &Vec<Tweet>) -> (r: Vec<Entry>)
        ensures
            entry_views(r@) == timeline_entries_spec(
                self.handle@,
                views_of(self.filter@),
                tweet_views(tweets@),
            ),
    {
        let ghost tv = tweet_views(tweets@);
        let ghost fv = views_of(self.filter@);
        let mut out: Vec<Entry> = Vec::new();
        proof {
            assert(tv.skip(0) =~= tv);
            assert(entry_views(out@) =~= Seq::<EntryV>::empty());
            assert(entry_views(out@) + timeline_entries_spec(self.handle@, fv, tv)
                =~= timeline_entries_spec(self.handle@, fv, tv));
        }
        let mut i: usize = 0;
        while i < tweets.len()
            invariant
                tv == tweet_views(tweets@),
                fv == views_of(self.filter@),
                i <= tweets.len(),
                entry_views(out@) + timeline_entries_spec(self.handle@, fv, tv.skip(i as int))
                    == timeline_entries_spec(self.handle@, fv, tv),
            decreases tweets.len() - i,
        {
            proof {
                assert(tv.skip(i as int)[0] == tv[i as int]);
                assert(tv[i as int] == tweets@[i as int]@);
                assert(tv.skip(i as int).drop_first() =~= tv.skip(i + 1));
            }
            let ghost prev = entry_views(out@);
            let keep = if self.filter.len() == 0 {
                true
            } else {
                tweet_contains_filters(tweets[i].text.as_str(), &self.filter)
            };
            if keep {
                let e = tweet_entry(self.handle.as_str(), &tweets[i]);
                out.push(e);
                proof {
                    assert(entry_views(out@) =~= prev.push(out@.last()@));
                    assert((prev + seq![out@.last()@]) + timeline_entries_spec(
                        self.handle@,
                        fv,
                        tv.skip(i + 1),
                    ) =~= prev + (seq![out@.last()@] + timeline_entries_spec(
                        self.handle@,
                        fv,
                        tv.skip(i + 1),
                    )));
                }
            }
            i = i + 1;
        }
        proof {
            assert(tv.skip(tv.len() as int) =~= Seq::<TweetV>::empty());
            assert(entry_views(out@) + Seq::<EntryV>::empty() =~= entry_views(out@));
        }
        out
    }
}

/// What a news run sends and where the watermark ends, walking the
/// timeline oldest first: every passing tweet's text is sent in order,
/// and the watermark moves to each sent tweet's id, ending at the newest
/// one sent (or staying put when nothing passes).
pub open spec fn plan_news_spec(
    ts_oldest_first: Seq<TweetV>,
    filters: Option<Seq<Seq<char>>>,
    last: Option<u64>,
) -> (Seq<Seq<char>>, Option<u64>)
    decreases ts_oldest_first.len(),
{
    if ts_oldest_first.len() == 0 {
        (Seq::empty(), last)
    } else {
        let t = ts_oldest_first[0];
        let passes = match filters {
            None => true,
            Some(fs) => passes_filters(t.text, fs),
        };
        if passes {
            let (rest, l) = plan_news_spec(ts_oldest_first.drop_first(), filters, Some(t.id));
            (seq![t.text] + rest, l)
        } else {
            plan_news_spec(ts_oldest_first.drop_first(), filters, last)
        }
    }
}

/// Plans a news run over a timeline fetched newest first: the texts to
/// send, oldest first, and the watermark after the run.
pub fn plan_news(tweets: &Vec<Tweet>, filters: &Option<Vec<String>>, last: Option<u64>) -> (r: (
    Vec<String>,
    Option<u64>,
))
    ensures
        ({
            let plan = plan_news_spec(tweet_views(tweets@).reverse(), match filters {
                Some(fs) => Some(views_of(fs@)),
                None => None,
            }, last);
            views_of(r.0@) == plan.0 && r.1 == plan.1
        }),
{
    let ghost rev = tweet_views(tweets@).reverse();
    let ghost fv: Option<Seq<Seq<char>>> = match filters {
        Some(fs) => Some(views_of(fs@)),
        None => None,
    };
    let mut texts: Vec<String> = Vec::new();
    let mut watermark = last;
    proof {
        assert(rev.skip(0) =~= rev);
        assert(views_of(texts@) =~= Seq::<Seq<char>>::empty());
        assert(views_of(texts@) + plan_news_spec(rev, fv, last).0 =~= plan_news_spec(
            rev,
            fv,
            last,
        ).0);
    }
    let mut k: usize = 0;
    while k < tweets.len()
        invariant
            rev == tweet_views(tweets@).reverse(),
            fv == (match filters {
                Some(fs) => Some(views_of(fs@)),
                None => None::<Seq<Seq<char>>>,
            }),
            k <= tweets.len(),
            rev.len() == tweets@.len(),
            plan_news_spec(rev, fv, last).0 == views_of(texts@) + plan_news_spec(
                rev.skip(k as int),
                fv,
                watermark,
            ).0,
            plan_news_spec(rev, fv, last).1 == plan_news_spec(rev.skip(k as int), fv, watermark).1,
        decreases tweets.len() - k,
    {
        let i = tweets.len() - 1 - k;
        proof {
            assert(rev.skip(k as int)[0] == rev[k as int]);
            assert(rev[k as int] == tweet_views(tweets@)[tweets@.len() - 1 - k]);
            assert(tweet_views(tweets@)[i as int] == tweets@[i as int]@);
            assert(rev.skip(k as int).drop_first() =~= rev.skip(k + 1));
        }
        let passes = match filters {
            None => true,
            Some(fs) => tweet_contains_filters(tweets[i].text.as_str(), fs),
        };
        if passes {
            let ghost prev = views_of(texts@);
            texts.push(tweets[i].text.clone());
            watermark = Some(tweets[i].id);
            proof {
                assert(views_of(texts@) =~= prev.push(texts@.last()@));
                assert((prev + seq![texts@.last()@]) + plan_news_spec(
                    rev.skip(k + 1),
                    fv,
                    watermark,
                ).0 =~= prev + (seq![texts@.last()@] + plan_news_spec(
                    rev.skip(k + 1),
                    fv,
                    watermark,
                ).0));
            }
        }
        k = k + 1;
    }
    proof {
        assert(rev.skip(rev.len() as int) =~= Seq::<TweetV>::empty());
        assert(views_of(texts@) + Seq::<Seq<char>>::empty() =~= views_of(texts@));
    }
    (texts, watermark)
}

} // verus!
