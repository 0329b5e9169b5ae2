//! The HTTP transform's logic: which URL a fetch must request and what
//! the response body becomes.
//!
//! The fetch itself is I/O and stands outside this library.  The verified
//! part decides the request URL from the entry's message link and shapes
//! the response body into the raw contents of a fresh entry, which the
//! merge-fallback rule then completes from the original.

use vstd::prelude::*;

use crate::entry::{Entry, EntryV, Message, MessageV, Url};

verus! {

/// An error of the HTTP transform.
pub enum HttpError {
    /// The entry's message carries no link to fetch.
    MissingUrl,
    /// The transport failed; carries its description.
    Other(String),
}

/// The mathematical view of an [`HttpError`].
#[verifier::ext_equal]
pub enum HttpErrorV {
    /// No link to fetch.
    MissingUrl,
    /// The transport failed.
    Other(Seq<char>),
}

impl View for HttpError {
    type V = HttpErrorV;

    open spec fn view(&self) -> HttpErrorV {
        match self {
            HttpError::MissingUrl => HttpErrorV::MissingUrl,
            HttpError::Other(m) => HttpErrorV::Other(m@),
        }
    }
}

/// The URL an HTTP transform must fetch for an entry: its message link,
/// exactly when the message carries one.
pub fn http_request_url(entry: &Entry) -> (r: Result<Url, HttpError>)
    ensures
        match r {
            Ok(u) => entry@.msg.link == Some(u@),
            Err(e) => entry@.msg.link is None && e@ == HttpErrorV::MissingUrl,
        },
{
    match &entry.msg.link {
        Some(u) => Ok(u.clone()),
        None => Err(HttpError::MissingUrl),
    }
}

/// The entry a fetched response body becomes: the body as raw contents
/// and nothing else set, ready for an extraction step; the merge-fallback
/// rule completes it from the original entry.
pub fn entry_from_response(body: String) -> (r: Entry)
    ensures
        r@ == (EntryV {
            id: None,
            raw_contents: Some(body@),
            msg: MessageV { title: None, body: None, link: None, media: None },
        }),
{
    Entry {
        id: None,
        raw_contents: Some(body),
        msg: Message { title: None, body: None, link: None, media: None },
    }
}

} // verus!
