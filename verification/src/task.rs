//! A task: one source's entries taken through an action chain towards one
//! sink, with the task's read ledger and its optional entry-to-message
//! map.
//!
//! Fetching and delivery are I/O and stand outside this library; a task's
//! verified part is the pipeline run over a fetched batch, and the map
//! that lets a sink address previously sent messages by entry id.

use vstd::prelude::*;

use crate::action::{Action, TransformError, TransformErrorV, actions_wf, run_actions,
    run_actions_spec};
use crate::entry::{Entry, EntryV, entry_views};
use crate::read_filter::ReadFilter;
use crate::sink::Sink;

verus! {

/// The answer of an external resolver: the value, a graceful "not
/// available", or a hard resolver error.
pub enum ExternalDataResult<T> {
    /// The resolver supplied the value.
    Found(T),
    /// The resolver has no value; the feature degrades gracefully.
    Unavailable,
    /// The resolver itself failed; carries its description.
    Failed(String),
}

/// A persistent map from entry ids to the message ids they were delivered
/// under, used to edit or delete previously sent messages.
pub struct EntryToMsgMap {
    /// The recorded pairs, oldest first.
    pub pairs: Vec<(String, i64)>,
}

/// The mathematical view of an [`EntryToMsgMap`].
pub open spec fn map_view(m: EntryToMsgMap) -> Seq<(Seq<char>, i64)> {
    m.pairs@.map_values(|p: (String, i64)| (p.0@, p.1))
}

/// The message id most recently recorded for `id`, if any.
pub open spec fn lookup_spec(pairs: Seq<(Seq<char>, i64)>, id: Seq<char>) -> Option<i64>
    decreases pairs.len(),
{
    if pairs.len() == 0 {
        None
    } else if pairs.last().0 == id {
        Some(pairs.last().1)
    } else {
        lookup_spec(pairs.drop_last(), id)
    }
}

impl EntryToMsgMap {
    /// An empty map.
    pub fn new() -> (r: Self)
        ensures
            map_view(r).len() == 0,
    {
        EntryToMsgMap { pairs: Vec::new() }
    }

    /// Records that the entry `id` was delivered as message `msg_id`.
    pub fn insert(&mut self, id: String, msg_id: i64)
        ensures
            map_view(*final(self)) == map_view(*old(self)).push((id@, msg_id)),
    {
        self.pairs.push((id, msg_id));
        proof {
            assert(map_view(*self) =~= map_view(*old(self)).push((id@, msg_id)));
        }
    }

    /// The message id most recently recorded for `id`, if any.
    pub fn get(&self, id: &String) -> (r: Option<i64>)
        ensures
            r == lookup_spec(map_view(*self), id@),
    {
        let ghost pv = map_view(*self);
        proof {
            assert forall|j: int| 0 <= j < self.pairs@.len() implies pv[j] == (
            #[trigger] self.pairs@[j].0@,
            self.pairs@[j].1,
            ) by {
                assert(pv[j] == (self.pairs@[j].0@, self.pairs@[j].1));
            }
        }
        let mut i: usize = self.pairs.len();
        proof {
            assert(pv.take(pv.len() as int) =~= pv);
        }
        while i > 0
            invariant
                pv == map_view(*self),
                pv.len() == self.pairs@.len(),
                forall|j: int|
                    0 <= j < self.pairs@.len() ==> pv[j] == (
                    #[trigger] self.pairs@[j].0@,
                    self.pairs@[j].1,
                    ),
                i <= self.pairs.len(),
                lookup_spec(pv, id@) == lookup_spec(pv.take(i as int), id@),
            decreases i,
        {
            i = i - 1;
            proof {
                assert(pv.take(i + 1).last() == pv[i as int]);
                assert(pv.take(i + 1).drop_last() =~= pv.take(i as int));
            }
            if self.pairs[i].0 == *id {
                return Some(self.pairs[i].1);
            }
        }
        proof {
            assert(pv.take(0) =~= Seq::<(Seq<char>, i64)>::empty());
        }
        None
    }
}

/// One runnable unit: a tag, the task's read ledger, its action chain,
/// its sink and its optional entry-to-message map.  The source feeding it
/// is an external collaborator handing over batches of entries.
pub struct Task {
    /// An optional tag, placed near a message body, distinguishing this
    /// task from others that may be similar.
    pub tag: Option<String>,
    /// The task's read ledger, when dedup is available.
    pub read_filter: Option<ReadFilter>,
    /// The action chain, when one is configured.
    pub actions: Option<Vec<Action>>,
    /// The sink, when one is configured.
    pub sink: Option<Sink>,
    /// The entry-to-message map, when enabled and available.
    pub entry_to_msg_map: Option<EntryToMsgMap>,
}

impl Task {
    /// Runs the task's chain over one fetched batch: the configured steps
    /// in order, with the task's read ledger answering the dedup steps; a
    /// task without a chain passes the batch through unchanged.
    pub fn run(&self, entries: Vec<Entry>) -> (r: Result<Vec<Entry>, TransformError>)
        requires
            self.actions matches Some(acts) ==> actions_wf(acts@.map_values(|a: Action| a@)),
        ensures
            match &self.actions {
                None => r matches Ok(out) && entry_views(out@) == entry_views(entries@),
                Some(acts) => {
                    let spec_r = run_actions_spec(
                        acts@.map_values(|a: Action| a@),
                        match &self.read_filter {
                            Some(f) => Some(f.inner@),
                            None => None,
                        },
                        entry_views(entries@),
                    );
                    match r {
                        Ok(out) => spec_r == Ok::<_, TransformErrorV>(entry_views(out@)),
                        Err(e) => spec_r == Err::<Seq<EntryV>, _>(e@),
                    }
                },
            },
    {
        match &self.actions {
            None => Ok(entries),
            Some(acts) => {
                let rf = match &self.read_filter {
                    Some(f) => Some(f),
                    None => None,
                };
                run_actions(acts, rf, entries)
            },
        }
    }
}

} // verus!
