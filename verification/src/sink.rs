//! The outbound channels and the stdout sink's formatting.
//!
//! A sink takes a message and an optional tag; delivery itself is I/O and
//! stands outside this library.  What stands here is the closed set of
//! sinks a task can be configured with, and the exact text the stdout
//! sink writes for a message.

use vstd::prelude::*;

use crate::entry::{MediaV, Message};
use crate::telegram::Telegram;
use crate::text::{join_spec, views_of};

verus! {

/// The sink printing every message to standard output; mostly for
/// debugging and dry runs.
pub struct Stdout;

/// An outbound channel of a task.
pub enum Sink {
    /// A chat-bot sink.
    Telegram(Telegram),
    /// The stdout sink.
    Stdout(Stdout),
    /// The sink that discards every message.
    Null,
}

impl Sink {
    /// Whether the sink can address sent messages afterwards, which makes
    /// keeping an entry-to-message map worthwhile.
    pub fn has_message_id_support(&self) -> (r: bool)
        ensures
            r == self is Telegram,
    {
        match self {
            Sink::Telegram(_) => true,
            Sink::Stdout(_) => false,
            Sink::Null => false,
        }
    }
}

/// An optional text, or the word `None`.
pub open spec fn opt_or_none(o: Option<Seq<char>>) -> Seq<char> {
    match o {
        Some(s) => s,
        None => "None"@,
    }
}

/// One attachment described for printing.
pub open spec fn media_desc_one(m: MediaV) -> Seq<char> {
    match m {
        MediaV::Photo(u) => "photo "@ + u,
        MediaV::Video(u) => "video "@ + u,
    }
}

/// The attachments described for printing: the word `None`, or the
/// descriptions comma-joined.
pub open spec fn media_desc(ms: Option<Seq<MediaV>>) -> Seq<char> {
    match ms {
        None => "None"@,
        Some(s) => join_spec(s.map_values(|m: MediaV| media_desc_one(m)), ", "@),
    }
}

/// The exact text the stdout sink writes for a message with an optional
/// tag.
pub open spec fn stdout_format_spec(m: crate::entry::MessageV, tag: Option<Seq<char>>) -> Seq<
    char,
> {
    "------------------------------\nMessage:\nTitle: "@ + opt_or_none(m.title)
        + "\n\nBody:\n"@ + opt_or_none(m.body) + "\n\nLink: "@ + opt_or_none(m.link)
        + "\n\nMedia: "@ + media_desc(m.media) + "\n\nTag: "@ + opt_or_none(tag)
        + "\n------------------------------\n"@
}

fn append_opt(out: &mut String, o: &Option<String>)
    ensures
        final(out)@ == old(out)@ + opt_or_none(match o {
            Some(s) => Some(s@),
            None => None,
        }),
{
    match o {
        Some(s) => out.append(s.as_str()),
        None => out.append("None"),
    }
}

impl Stdout {
    /// The exact text the stdout sink writes for `msg` with `tag`: the
    /// framed block naming the title, body, link, media and tag, each
    /// `None` when absent.
    pub fn format_message(&self, msg: &Message, tag: &Option<String>) -> (r: String)
        ensures
            r@ == stdout_format_spec(msg@, match tag {
                Some(t) => Some(t@),
                None => None,
            }),
    {
        let mut out = String::from_str("------------------------------\nMessage:\nTitle: ");
        append_opt(&mut out, &msg.title);
        out.append("\n\nBody:\n");
        append_opt(&mut out, &msg.body);
        out.append("\n\nLink: ");
        match &msg.link {
            Some(u) => out.append(u.as_str()),
            None => out.append("None"),
        }
        out.append("\n\nMedia: ");
        match &msg.media {
            None => out.append("None"),
            Some(ms) => {
                let ghost mv = msg@.media->0;
                let mut parts: Vec<String> = Vec::new();
                let mut i: usize = 0;
                while i < ms.len()
                    invariant
                        mv == msg@.media->0,
                        mv.len() == ms@.len(),
                        forall|j: int| 0 <= j < ms@.len() ==> mv[j] == (#[trigger] ms@[j])@,
                        i <= ms.len(),
                        views_of(parts@) =~= mv.take(i as int).map_values(
                            |m: MediaV| media_desc_one(m),
                        ),
                    decreases ms.len() - i,
                {
                    let ghost prev = views_of(parts@);
                    let mut p = String::new();
                    match &ms[i] {
                        crate::entry::Media::Photo(u) => {
                            p.append("photo ");
                            p.append(u.as_str());
                        },
                        crate::entry::Media::Video(u) => {
                            p.append("video ");
                            p.append(u.as_str());
                        },
                    }
                    parts.push(p);
                    proof {
                        assert(views_of(parts@) =~= prev.push(parts@.last()@));
                        assert(parts@.last()@ =~= media_desc_one(mv[i as int]));
                        assert(mv.take(i + 1).map_values(|m: MediaV| media_desc_one(m))
                            =~= mv.take(i as int).map_values(|m: MediaV| media_desc_one(m)).push(
                            media_desc_one(mv[i as int]),
                        ));
                    }
                    i = i + 1;
                }
                proof {
                    assert(mv.take(mv.len() as int) =~= mv);
                }
                let joined = crate::text::join(&parts, ", ");
                out.append(joined.as_str());
            },
        }
        out.append("\n\nTag: ");
        append_opt(&mut out, tag);
        out.append("\n------------------------------\n");
        proof {
            assert(out@ =~= stdout_format_spec(msg@, match tag {
                Some(t) => Some(t@),
                None => None,
            }));
        }
        out
    }
}

} // verus!
