//! The read-state deduplication engine: a per-task, named ledger with two
//! interchangeable strategies.
//!
//! [`Newer`] (newer-than-last-read) assumes the source yields entries in a
//! stable, reverse-chronological order: the entry carrying the watermark id
//! and everything after it in the batch is considered read.  [`NotPresent`]
//! (not-present-in-read-list) keeps an ordered set of ids and considers an
//! id read exactly when it is in the set; unordered sources must use it.
//!
//! `remove_read` removes read entries in place, preserving the relative
//! order of survivors; `mark_as_read` updates the ledger and must be called
//! only after delivery of that exact id has been confirmed.

use vstd::prelude::*;
use vstd::seq_lib::group_seq_properties;

use crate::entry::{Entry, EntryId, EntryV, entry_views};

verus! {

/// The strategy kind of a read filter, without its state.
pub enum Kind {
    /// Keep a single watermark id; for monotonically ordered sources.
    NewerThanLastRead,
    /// Keep the set of all seen ids; for unordered sources.
    NotPresentInReadList,
}

impl Clone for Kind {
    fn clone(&self) -> (r: Self)
        ensures
            r == *self,
    {
        match self {
            Kind::NewerThanLastRead => Kind::NewerThanLastRead,
            Kind::NotPresentInReadList => Kind::NotPresentInReadList,
        }
    }
}

/// The newer-than-last-read strategy: everything at and after the watermark
/// id in a batch is read.
pub struct Newer {
    /// The id of the most recently read entry, if any.
    pub last_read_id: Option<String>,
}

impl View for Newer {
    type V = Option<Seq<char>>;

    open spec fn view(&self) -> Option<Seq<char>> {
        match self.last_read_id {
            Some(s) => Some(s@),
            None => None,
        }
    }
}

/// The not-present-in-read-list strategy: an id is read exactly when it is
/// in the list.
pub struct NotPresent {
    /// Every id marked as read so far, in insertion order, without
    /// duplicates.
    pub read_list: Vec<String>,
}

impl View for NotPresent {
    type V = Seq<Seq<char>>;

    open spec fn view(&self) -> Seq<Seq<char>> {
        self.read_list@.map_values(|s: String| s@)
    }
}

/// The state of one of the two strategies.
pub enum Inner {
    /// The watermark strategy.
    NewerThanLastRead(Newer),
    /// The seen-set strategy.
    NotPresentInReadList(NotPresent),
}

/// The mathematical view of a strategy state.
#[verifier::ext_equal]
pub enum InnerV {
    /// The watermark id, if any.
    NewerThanLastRead(Option<Seq<char>>),
    /// The seen ids, in insertion order.
    NotPresentInReadList(Seq<Seq<char>>),
}

impl View for Inner {
    type V = InnerV;

    open spec fn view(&self) -> InnerV {
        match self {
            Inner::NewerThanLastRead(n) => InnerV::NewerThanLastRead(n@),
            Inner::NotPresentInReadList(n) => InnerV::NotPresentInReadList(n@),
        }
    }
}

/// A per-task, named dedup ledger.
pub struct ReadFilter {
    /// The task-scoped name of the ledger.
    pub name: String,
    /// The strategy and its state.
    pub inner: Inner,
}

/// The entry carries exactly the watermark id.
pub open spec fn newer_matches(e: EntryV, last: Option<Seq<char>>) -> bool {
    last matches Some(l) && e.id == Some(l)
}

/// The survivors of a batch under the watermark strategy: the longest prefix
/// in which the watermark id does not occur.  The entry carrying the
/// watermark and everything after it is removed.
pub open spec fn newer_survivors(s: Seq<EntryV>, last: Option<Seq<char>>) -> Seq<EntryV>
    decreases s.len(),
{
    if s.len() == 0 {
        s
    } else if newer_matches(s[0], last) {
        Seq::empty()
    } else {
        seq![s[0]] + newer_survivors(s.drop_first(), last)
    }
}

/// The id is read under the seen-set strategy.
pub open spec fn np_read(id: Option<Seq<char>>, list: Seq<Seq<char>>) -> bool {
    match id {
        Some(i) => list.contains(i),
        None => false,
    }
}

/// The survivors of a batch under the seen-set strategy: the entries whose
/// id is not in the list, in their original order.
pub open spec fn np_survivors(s: Seq<EntryV>, list: Seq<Seq<char>>) -> Seq<EntryV> {
    s.filter(|e: EntryV| !np_read(e.id, list))
}

/// The seen-set after marking `id`: unchanged when already present, else
/// `id` appended.
pub open spec fn np_mark(list: Seq<Seq<char>>, id: Seq<char>) -> Seq<Seq<char>> {
    if list.contains(id) {
        list
    } else {
        list.push(id)
    }
}

/// The survivors of a batch under either strategy.
pub open spec fn survivors(inner: InnerV, s: Seq<EntryV>) -> Seq<EntryV> {
    match inner {
        InnerV::NewerThanLastRead(last) => newer_survivors(s, last),
        InnerV::NotPresentInReadList(list) => np_survivors(s, list),
    }
}

fn entry_id_is(e: &Entry, last: &String) -> (r: bool)
    ensures
        r == (e@.id == Some(last@)),
{
    match &e.id {
        Some(id) => *id == *last,
        None => false,
    }
}

proof fn lemma_newer_no_match(s: Seq<EntryV>, last: Option<Seq<char>>)
    requires
        forall|j: int| 0 <= j < s.len() ==> !newer_matches(s[j], last),
    ensures
        newer_survivors(s, last) == s,
    decreases s.len(),
{
    if s.len() > 0 {
        lemma_newer_no_match(s.drop_first(), last);
        assert(seq![s[0]] + s.drop_first() =~= s);
    }
}

proof fn lemma_newer_first_match(s: Seq<EntryV>, last: Option<Seq<char>>, k: int)
    requires
        0 <= k < s.len(),
        newer_matches(s[k], last),
        forall|j: int| 0 <= j < k ==> !newer_matches(s[j], last),
    ensures
        newer_survivors(s, last) == s.take(k),
    decreases s.len(),
{
    if k == 0 {
        assert(s.take(0) =~= Seq::<EntryV>::empty());
    } else {
        lemma_newer_first_match(s.drop_first(), last, k - 1);
        assert(seq![s[0]] + s.drop_first().take(k - 1) =~= s.take(k));
    }
}

fn find_entry_with_id(entries: &Vec<Entry>, last: &String) -> (r: Option<usize>)
    ensures
        match r {
            Some(i) => i < entries@.len() && entry_views(entries@)[i as int].id == Some(last@)
                && (forall|j: int|
                0 <= j < i ==> entry_views(entries@)[j].id != Some(last@)),
            None => forall|j: int|
                0 <= j < entries@.len() ==> entry_views(entries@)[j].id != Some(last@),
        },
{
    let ghost s = entry_views(entries@);
    let mut i: usize = 0;
    while i < entries.len()
        invariant
            s == entry_views(entries@),
            i <= entries.len(),
            forall|j: int| 0 <= j < i ==> s[j].id != Some(last@),
        decreases entries.len() - i,
    {
        proof {
            assert(s[i as int] == entries@[i as int]@);
        }
        if entry_id_is(&entries[i], last) {
            return Some(i);
        }
        i = i + 1;
    }
    None
}

impl Newer {
    /// Removes, in place, the entry carrying the watermark id and every
    /// entry after it, keeping the prefix of newer entries in order.
    pub fn remove_read(&self, entries: &mut Vec<Entry>)
        ensures
            entry_views(final(entries)@) == newer_survivors(entry_views(old(entries)@), self@),
    {
        match &self.last_read_id {
            None => {
                proof {
                    lemma_newer_no_match(entry_views(entries@), self@);
                }
            },
            Some(last) => {
                let ghost s = entry_views(entries@);
                match find_entry_with_id(entries, last) {
                    Some(i) => {
                        proof {
                            lemma_newer_first_match(s, Some(last@), i as int);
                            assert(entry_views(entries@.subrange(0, i as int)) =~= entry_views(
                                entries@,
                            ).take(i as int));
                        }
                        entries.truncate(i);
                    },
                    None => {
                        proof {
                            lemma_newer_no_match(s, self@);
                        }
                    },
                }
            },
        }
    }

    /// Sets the watermark to `id` unconditionally.  Callers must pass ids in
    /// increasing recency order, normally the newest successfully delivered
    /// id once per batch; an out-of-order call silently regresses the
    /// watermark and causes re-delivery, which is a caller obligation.
    pub fn mark_as_read(&mut self, id: &EntryId)
        ensures
            final(self)@ == Some(id@),
    {
        self.last_read_id = Some(id.clone());
    }
}

fn list_contains(list: &Vec<String>, id: &String) -> (r: bool)
    ensures
        r == list@.map_values(|s: String| s@).contains(id@),
{
    let ghost l = list@.map_values(|s: String| s@);
    let mut i: usize = 0;
    while i < list.len()
        invariant
            l == list@.map_values(|s: String| s@),
            i <= list.len(),
            forall|j: int| 0 <= j < i ==> l[j] != id@,
        decreases list.len() - i,
    {
        proof {
            assert(l[i as int] == list@[i as int]@);
        }
        if list[i] == *id {
            assert(l[i as int] == id@);
            return true;
        }
        i = i + 1;
    }
    assert(forall|j: int| 0 <= j < l.len() ==> l[j] != id@);
    false
}

impl NotPresent {
    /// Removes, in place, every entry whose id is in the read list,
    /// preserving the relative order of survivors.  Entries without an id
    /// are never removed.
    pub fn remove_read(&self, entries: &mut Vec<Entry>)
        ensures
            entry_views(final(entries)@) == np_survivors(entry_views(old(entries)@), self@),
    {
        broadcast use group_seq_properties;

        let ghost pred = |e: EntryV| !np_read(e.id, self@);
        let ghost s = entry_views(entries@);
        let mut out: Vec<Entry> = Vec::new();
        let mut i: usize = 0;
        while i < entries.len()
            invariant
                s == entry_views(entries@),
                i <= entries.len(),
                pred == (|e: EntryV| !np_read(e.id, self@)),
                entry_views(out@) == s.take(i as int).filter(pred),
            decreases entries.len() - i,
        {
            proof {
                assert(s[i as int] == entries@[i as int]@);
            }
            let read = match &entries[i].id {
                Some(id) => list_contains(&self.read_list, id),
                None => false,
            };
            proof {
                assert(read == np_read(s[i as int].id, self@));
                assert(s.take(i + 1) =~= s.take(i as int) + seq![s[i as int]]);
                Seq::<EntryV>::filter_distributes_over_add(
                    s.take(i as int),
                    seq![s[i as int]],
                    pred,
                );
                reveal(Seq::filter);
                assert(seq![s[i as int]].drop_last() =~= Seq::<EntryV>::empty());
            }
            if !read {
                let ghost prev = entry_views(out@);
                let e = entries[i].clone();
                proof {
                    assert(e@ == s[i as int]);
                }
                out.push(e);
                proof {
                    reveal_with_fuel(Seq::filter, 3);
                    assert(entry_views(out@) =~= prev.push(s[i as int]));
                    assert(seq![s[i as int]].filter(pred) =~= seq![s[i as int]]);
                    assert(entry_views(out@) =~= s.take(i + 1).filter(pred));
                }
            } else {
                proof {
                    reveal_with_fuel(Seq::filter, 3);
                    assert(seq![s[i as int]].filter(pred) =~= Seq::<EntryV>::empty());
                    assert(entry_views(out@) =~= s.take(i + 1).filter(pred));
                }
            }
            i = i + 1;
        }
        proof {
            assert(s.take(s.len() as int) =~= s);
        }
        *entries = out;
    }

    /// Appends `id` to the read list unless it is already present; marking
    /// is idempotent.
    pub fn mark_as_read(&mut self, id: &EntryId)
        ensures
            final(self)@ == np_mark(old(self)@, id@),
    {
        if !list_contains(&self.read_list, id) {
            let ghost prev = self@;
            self.read_list.push(id.clone());
            proof {
                assert(self@ =~= prev.push(id@));
            }
        }
    }
}

impl ReadFilter {
    /// The strategy kind of this ledger.
    pub fn kind(&self) -> (r: Kind)
        ensures
            r is NewerThanLastRead <==> self.inner is NewerThanLastRead,
    {
        match &self.inner {
            Inner::NewerThanLastRead(_) => Kind::NewerThanLastRead,
            Inner::NotPresentInReadList(_) => Kind::NotPresentInReadList,
        }
    }

    /// Removes, in place, every entry the strategy classifies as read,
    /// preserving the relative order of survivors.
    pub fn remove_read(&self, entries: &mut Vec<Entry>)
        ensures
            entry_views(final(entries)@) == survivors(self.inner@, entry_views(old(entries)@)),
    {
        match &self.inner {
            Inner::NewerThanLastRead(n) => n.remove_read(entries),
            Inner::NotPresentInReadList(n) => n.remove_read(entries),
        }
    }

    /// Updates the ledger so that a later `remove_read` classifies `id`
    /// (and, for the watermark strategy, everything at and after it in a
    /// batch) as read.
    pub fn mark_as_read(&mut self, id: &EntryId)
        ensures
            final(self).name == old(self).name,
            old(self).inner is NewerThanLastRead ==> final(self).inner@
                == InnerV::NewerThanLastRead(Some(id@)),
            old(self).inner matches Inner::NotPresentInReadList(n) ==> final(self).inner@
                == InnerV::NotPresentInReadList(np_mark(n@, id@)),
    {
        match &mut self.inner {
            Inner::NewerThanLastRead(n) => n.mark_as_read(id),
            Inner::NotPresentInReadList(n) => n.mark_as_read(id),
        }
    }
}

proof fn lemma_newer_survivors_no_match(s: Seq<EntryV>, last: Option<Seq<char>>)
    ensures
        forall|j: int|
            0 <= j < newer_survivors(s, last).len() ==> !newer_matches(
                newer_survivors(s, last)[j],
                last,
            ),
    decreases s.len(),
{
    if s.len() > 0 && !newer_matches(s[0], last) {
        lemma_newer_survivors_no_match(s.drop_first(), last);
        assert(forall|j: int|
            1 <= j < newer_survivors(s, last).len() ==> newer_survivors(s, last)[j]
                == newer_survivors(s.drop_first(), last)[j - 1]);
    }
}

proof fn lemma_filter_all(s: Seq<EntryV>, pred: spec_fn(EntryV) -> bool)
    requires
        forall|j: int| 0 <= j < s.len() ==> pred(s[j]),
    ensures
        s.filter(pred) == s,
    decreases s.len(),
{
    reveal(Seq::filter);
    if s.len() > 0 {
        lemma_filter_all(s.drop_last(), pred);
        assert(s.drop_last().push(s.last()) =~= s);
    }
}

/// Dedup is idempotent: running `remove_read` twice with no intervening
/// `mark_as_read` yields the same surviving sequence as running it once,
/// for every strategy state and every batch.
pub proof fn lemma_remove_read_idempotent(inner: InnerV, s: Seq<EntryV>)
    ensures
        survivors(inner, survivors(inner, s)) == survivors(inner, s),
{
    match inner {
        InnerV::NewerThanLastRead(last) => {
            lemma_newer_survivors_no_match(s, last);
            lemma_newer_no_match(newer_survivors(s, last), last);
        },
        InnerV::NotPresentInReadList(list) => {
            let pred = |e: EntryV| !np_read(e.id, list);
            broadcast use Seq::lemma_filter_pred;

            lemma_filter_all(s.filter(pred), pred);
        },
    }
}

/// The watermark is effective: after `mark_as_read(id)`, `remove_read` on a
/// batch containing `id` removes that entry and every entry after it in the
/// batch (the entries the source considers not newer than `id`), leaving
/// exactly the prefix of newer entries.
pub proof fn lemma_watermark_removes_marked(id: Seq<char>, s: Seq<EntryV>, k: int)
    requires
        0 <= k < s.len(),
        s[k].id == Some(id),
        forall|j: int| 0 <= j < k ==> s[j].id != Some(id),
    ensures
        survivors(InnerV::NewerThanLastRead(Some(id)), s) == s.take(k),
{
    lemma_newer_first_match(s, Some(id), k);
}

/// Marking is idempotent for the seen-set strategy: marking an id any
/// number of times at least once leaves the same list as marking it once.
pub proof fn lemma_np_mark_idempotent(list: Seq<Seq<char>>, id: Seq<char>)
    ensures
        np_mark(np_mark(list, id), id) == np_mark(list, id),
{
    if !list.contains(id) {
        assert(list.push(id)[list.len() as int] == id);
        assert(np_mark(list, id).contains(id));
    }
}

} // verus!
