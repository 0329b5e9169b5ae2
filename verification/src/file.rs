//! The file source's logic: how a file's text becomes an entry.
//!
//! Reading the file is outside this library.

use vstd::prelude::*;

use crate::entry::{Entry, EntryV, Message, MessageV};
use crate::text::trim_spec;

verus! {

/// A source reading one local file.
pub struct File {
    /// The path of the file, as text.
    pub path: String,
}

impl File {
    /// A source for the file at `path`.
    pub fn new(path: String) -> (r: Self)
        ensures
            r.path@ == path@,
    {
        File { path }
    }

    /// The entry a file's text becomes: the text, trimmed of surrounding
    /// blanks, as the message body.
    pub fn entry_from_text(&self, text: &str) -> (r: Entry)
        ensures
            r@ == (EntryV {
                id: None,
                raw_contents: None,
                msg: MessageV {
                    title: None,
                    body: Some(trim_spec(text@)),
                    link: None,
                    media: None,
                },
            }),
    {
        let body = crate::text::trim(text);
        Entry {
            id: None,
            raw_contents: None,
            msg: Message { title: None, body: Some(body), link: None, media: None },
        }
    }
}

} // verus!
