//! The data model flowing through the pipeline: [`Entry`], [`Message`],
//! [`Media`] and [`Url`].
//!
//! An entry is one unit of content.  Its `id` is an opaque, source-defined
//! identifier used only for deduplication; `raw_contents` carries an unparsed
//! payload until an extraction step consumes it; `msg` is the structured,
//! user-facing payload, all of whose fields are independently optional.
//!
//! Each type has a mathematical view (`EntryV`, `MessageV`, `MediaV`) over
//! character sequences; the library's contracts are stated over these views.

use vstd::prelude::*;

verus! {

/// An opaque, source-defined entry identifier; compared lexically.
pub type EntryId = String;

/// A validated URL, held as its normalized serialization.
pub struct Url {
    /// The normalized textual form of the URL.
    pub text: String,
}

/// What `url::Url::parse` accepts and how it normalizes, named: the result
/// depends on the input characters alone.  `None` stands for a parse error.
pub uninterp spec fn url_of(s: Seq<char>) -> Option<Seq<char>>;

/// Relies on `url::Url::parse` for URL validation and normalization.
#[verifier::external_body]
fn parse_url_str(s: &str) -> (r: Option<String>)
    ensures
        r is Some <==> url_of(s@) is Some,
        r matches Some(u) ==> url_of(s@) == Some(u@),
{
    match url::Url::parse(s) {
        Ok(u) => Some(u.as_str().to_owned()),
        Err(_) => None,
    }
}

impl View for Url {
    type V = Seq<char>;

    open spec fn view(&self) -> Seq<char> {
        self.text@
    }
}

impl Url {
    /// Parses and normalizes `s`; `None` when `s` is not a valid URL.
    pub fn parse(s: &str) -> (r: Option<Url>)
        ensures
            r is Some <==> url_of(s@) is Some,
            r matches Some(u) ==> url_of(s@) == Some(u@),
    {
        match parse_url_str(s) {
            Some(text) => Some(Url { text }),
            None => None,
        }
    }

    /// The textual form of the URL.
    pub fn as_str(&self) -> (r: &str)
        ensures
            r@ == self@,
    {
        self.text.as_str()
    }
}

impl Clone for Url {
    fn clone(&self) -> (r: Self)
        ensures
            r@ == self@,
    {
        Url { text: self.text.clone() }
    }
}

/// A media attachment: a photo or a video, each at a URL.
pub enum Media {
    /// A photo at the given URL.
    Photo(Url),
    /// A video at the given URL.
    Video(Url),
}

/// The mathematical view of a [`Media`] value.
#[verifier::ext_equal]
pub enum MediaV {
    /// A photo at the given URL text.
    Photo(Seq<char>),
    /// A video at the given URL text.
    Video(Seq<char>),
}

impl View for Media {
    type V = MediaV;

    open spec fn view(&self) -> MediaV {
        match self {
            Media::Photo(u) => MediaV::Photo(u@),
            Media::Video(u) => MediaV::Video(u@),
        }
    }
}

impl Clone for Media {
    fn clone(&self) -> (r: Self)
        ensures
            r@ == self@,
    {
        match self {
            Media::Photo(u) => Media::Photo(u.clone()),
            Media::Video(u) => Media::Video(u.clone()),
        }
    }
}

/// The structured, user-facing payload of an entry.  Every field is
/// independently optional; consumers must not assume any is populated.
pub struct Message {
    /// The title line.
    pub title: Option<String>,
    /// The body text.
    pub body: Option<String>,
    /// A link to the original content.
    pub link: Option<Url>,
    /// Media attachments, in order.
    pub media: Option<Vec<Media>>,
}

/// The mathematical view of a [`Message`].
#[verifier::ext_equal]
pub struct MessageV {
    /// The title text, if set.
    pub title: Option<Seq<char>>,
    /// The body text, if set.
    pub body: Option<Seq<char>>,
    /// The link text, if set.
    pub link: Option<Seq<char>>,
    /// The media attachments, if set.
    pub media: Option<Seq<MediaV>>,
}

/// The view of an optional string.
pub open spec fn opt_view(o: Option<String>) -> Option<Seq<char>> {
    match o {
        Some(s) => Some(s@),
        None => None,
    }
}

/// The view of an optional URL.
pub open spec fn opt_url_view(o: Option<Url>) -> Option<Seq<char>> {
    match o {
        Some(u) => Some(u@),
        None => None,
    }
}

/// The view of an optional media list.
pub open spec fn opt_media_view(o: Option<Vec<Media>>) -> Option<Seq<MediaV>> {
    match o {
        Some(v) => Some(v@.map_values(|m: Media| m@)),
        None => None,
    }
}

impl View for Message {
    type V = MessageV;

    open spec fn view(&self) -> MessageV {
        MessageV {
            title: opt_view(self.title),
            body: opt_view(self.body),
            link: opt_url_view(self.link),
            media: opt_media_view(self.media),
        }
    }
}

fn clone_media_list(v: &Vec<Media>) -> (r: Vec<Media>)
    ensures
        r@.map_values(|m: Media| m@) =~= v@.map_values(|m: Media| m@),
{
    let mut out: Vec<Media> = Vec::new();
    let mut i: usize = 0;
    while i < v.len()
        invariant
            i <= v.len(),
            out@.map_values(|m: Media| m@) =~= v@.take(i as int).map_values(|m: Media| m@),
        decreases v.len() - i,
    {
        let ghost prev = out@;
        let c = v[i].clone();
        proof {
            assert(c@ == v@[i as int]@);
        }
        out.push(c);
        proof {
            assert(out@.map_values(|m: Media| m@) =~= prev.map_values(|m: Media| m@).push(c@));
            assert(v@.take(i + 1).map_values(|m: Media| m@) =~= v@.take(i as int).map_values(
                |m: Media| m@,
            ).push(v@[i as int]@));
        }
        i = i + 1;
    }
    proof {
        assert(v@.take(v@.len() as int) =~= v@);
    }
    out
}

impl Clone for Message {
    fn clone(&self) -> (r: Self)
        ensures
            r@ =~= self@,
    {
        Message {
            title: match &self.title {
                Some(t) => Some(t.clone()),
                None => None,
            },
            body: match &self.body {
                Some(b) => Some(b.clone()),
                None => None,
            },
            link: match &self.link {
                Some(l) => Some(l.clone()),
                None => None,
            },
            media: match &self.media {
                Some(m) => Some(clone_media_list(m)),
                None => None,
            },
        }
    }
}

impl Default for Message {
    /// The message with every field unset.
    fn default() -> (r: Self)
        ensures
            r@ == (MessageV { title: None, body: None, link: None, media: None }),
    {
        Message { title: None, body: None, link: None, media: None }
    }
}

/// One unit of content flowing through the pipeline.
pub struct Entry {
    /// Source-defined stable identifier; `None` until an extraction step
    /// assigns one.
    pub id: Option<EntryId>,
    /// Unparsed payload carried until an extraction or transform step
    /// consumes it.
    pub raw_contents: Option<String>,
    /// The structured payload.
    pub msg: Message,
}

/// The mathematical view of an [`Entry`].
#[verifier::ext_equal]
pub struct EntryV {
    /// The identifier text, if set.
    pub id: Option<Seq<char>>,
    /// The raw payload text, if set.
    pub raw_contents: Option<Seq<char>>,
    /// The view of the structured payload.
    pub msg: MessageV,
}

impl View for Entry {
    type V = EntryV;

    open spec fn view(&self) -> EntryV {
        EntryV { id: opt_view(self.id), raw_contents: opt_view(self.raw_contents), msg: self.msg@ }
    }
}

/// The views of the entries in `s`.
pub open spec fn entry_views(s: Seq<Entry>) -> Seq<EntryV> {
    s.map_values(|e: Entry| e@)
}

impl Clone for Entry {
    fn clone(&self) -> (r: Self)
        ensures
            r@ =~= self@,
    {
        Entry {
            id: match &self.id {
                Some(i) => Some(i.clone()),
                None => None,
            },
            raw_contents: match &self.raw_contents {
                Some(c) => Some(c.clone()),
                None => None,
            },
            msg: self.msg.clone(),
        }
    }
}

impl Default for Entry {
    /// The entry with no id, no raw contents and an empty message.
    fn default() -> (r: Self)
        ensures
            r@ == (EntryV {
                id: None,
                raw_contents: None,
                msg: MessageV { title: None, body: None, link: None, media: None },
            }),
    {
        Entry { id: None, raw_contents: None, msg: Message::default() }
    }
}

impl EntryV {
    /// An entry reaching a sink should have at least one of title and body
    /// set; a sink may treat an entirely empty message as a no-op send.
    pub open spec fn has_content(&self) -> bool {
        self.msg.title is Some || self.msg.body is Some
    }
}

} // verus!
