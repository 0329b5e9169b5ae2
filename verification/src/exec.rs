//! The shell-exec source and sink logic: what is handed to and read from a
//! child process.
//!
//! Spawning the process, writing its stdin and reading its stdout are
//! outside this library; what stands here is the compute part of each
//! edge: how a command's output becomes an entry, and which bytes a send
//! writes to the child's stdin.

use vstd::prelude::*;

use crate::entry::{Entry, EntryV, Message, MessageV};

verus! {

/// A shell command used as a source or a sink.
pub struct Exec {
    /// The command, run through the shell.
    pub cmd: String,
}

impl Exec {
    /// A source or sink running `cmd`.
    pub fn new(cmd: String) -> (r: Self)
        ensures
            r.cmd@ == cmd@,
    {
        Exec { cmd }
    }

    /// The entry a command's captured output becomes: the raw contents,
    /// with nothing else set, ready for an extraction step.
    pub fn entry_from_output(&self, out: String) -> (r: Entry)
        ensures
            r@ == (EntryV {
                id: None,
                raw_contents: Some(out@),
                msg: MessageV { title: None, body: None, link: None, media: None },
            }),
    {
        Entry {
            id: None,
            raw_contents: Some(out),
            msg: Message { title: None, body: None, link: None, media: None },
        }
    }

    /// What a send writes to the child's stdin: the message body, or
    /// nothing at all when the message has none (a no-op send).
    pub fn stdin_payload(&self, msg: &Message) -> (r: Option<String>)
        ensures
            match r {
                Some(b) => msg@.body == Some(b@),
                None => msg@.body is None,
            },
    {
        match &msg.body {
            Some(b) => Some(b.clone()),
            None => None,
        }
    }
}

} // verus!
