//! The action chain: an ordered list of filter and transform steps executed
//! in sequence over a batch of entries.
//!
//! Filter steps operate on the whole batch at once and only remove entries.
//! Transform steps operate per entry and may expand one entry into many;
//! the read-filter step is the one batch-level transform and is never run
//! per entry.  Every per-entry transform is subject to the field
//! merge-fallback rule: a field left unset by the transform is backfilled
//! from the original input entry, and each original field is claimed by
//! **only the first** output that needs it — it is not duplicated across
//! siblings.  An error from any step aborts the whole chain for that batch
//! and carries the original, pre-transform entry.

use vstd::prelude::*;

use crate::entry::{Entry, EntryV, MessageV, entry_views};
use crate::json::{Json, JsonError, JsonErrorV, JsonV};
use crate::read_filter::{InnerV, ReadFilter, survivors};

verus! {

/// What `str::to_uppercase` returns, named: the result depends on the
/// characters alone.
pub uninterp spec fn upper_of(s: Seq<char>) -> Seq<char>;

/// Relies on `str::to_uppercase` for Unicode uppercasing.
#[verifier::external_body]
fn to_upper(s: &str) -> (r: String)
    ensures
        r@ == upper_of(s@),
        s@.len() == 0 ==> r@.len() == 0,
{
    s.to_uppercase()
}

/// Keeps only the first `num` entries of a batch.
pub struct Take {
    /// How many entries to keep.
    pub num: usize,
}

/// A batch-level filter step: it removes entries and never adds any.
pub trait Filter {
    /// The surviving subsequence of a batch.
    spec fn filter_spec(&self, s: Seq<EntryV>) -> Seq<EntryV>;

    /// Filtering only removes: the result is no longer than the input and
    /// every surviving entry was in the input.
    proof fn filter_shrinks(&self, s: Seq<EntryV>)
        ensures
            self.filter_spec(s).len() <= s.len(),
            forall|i: int| 0 <= i < self.filter_spec(s).len() ==> s.contains(self.filter_spec(s)[i]),
    ;

    /// Removes entries from the batch in place, preserving the relative
    /// order of survivors.
    fn filter(&self, entries: &mut Vec<Entry>)
        ensures
            entry_views(final(entries)@) == self.filter_spec(entry_views(old(entries)@)),
    ;
}

impl Filter for Take {
    /// The first `num` entries.
    open spec fn filter_spec(&self, s: Seq<EntryV>) -> Seq<EntryV> {
        if self.num <= s.len() {
            s.take(self.num as int)
        } else {
            s
        }
    }

    proof fn filter_shrinks(&self, s: Seq<EntryV>) {
        assert forall|i: int| 0 <= i < self.filter_spec(s).len() implies s.contains(
            self.filter_spec(s)[i],
        ) by {
            assert(self.filter_spec(s)[i] == s[i]);
        }
    }

    fn filter(&self, entries: &mut Vec<Entry>) {
        if self.num <= entries.len() {
            proof {
                assert(entry_views(entries@.subrange(0, self.num as int)) =~= entry_views(
                    entries@,
                ).take(self.num as int));
            }
            entries.truncate(self.num);
        }
    }
}

proof fn lemma_contains_drop_first<A>(s: Seq<A>, x: A)
    requires
        s.len() > 0,
        s.drop_first().contains(x),
    ensures
        s.contains(x),
{
    let i = choose|i: int| 0 <= i < s.drop_first().len() && s.drop_first()[i] == x;
    assert(s[i + 1] == x);
}

proof fn lemma_newer_survivors_subset(s: Seq<EntryV>, last: Option<Seq<char>>)
    ensures
        crate::read_filter::newer_survivors(s, last).len() <= s.len(),
        forall|i: int|
            0 <= i < crate::read_filter::newer_survivors(s, last).len() ==> s.contains(
                crate::read_filter::newer_survivors(s, last)[i],
            ),
    decreases s.len(),
{
    let out = crate::read_filter::newer_survivors(s, last);
    if s.len() > 0 && !crate::read_filter::newer_matches(s[0], last) {
        lemma_newer_survivors_subset(s.drop_first(), last);
        assert forall|i: int| 0 <= i < out.len() implies s.contains(out[i]) by {
            if i == 0 {
                assert(out[0] == s[0]);
            } else {
                let rest = crate::read_filter::newer_survivors(s.drop_first(), last);
                assert(out[i] == rest[i - 1]);
                lemma_contains_drop_first(s, rest[i - 1]);
            }
        }
    }
}

proof fn lemma_filter_subset<A>(s: Seq<A>, pred: spec_fn(A) -> bool)
    ensures
        forall|i: int| 0 <= i < s.filter(pred).len() ==> s.contains(s.filter(pred)[i]),
    decreases s.len(),
{
    reveal(Seq::filter);
    broadcast use Seq::lemma_filter_len;

    if s.len() > 0 {
        lemma_filter_subset(s.drop_last(), pred);
        let out = s.filter(pred);
        assert forall|i: int| 0 <= i < out.len() implies s.contains(out[i]) by {
            let sub = s.drop_last().filter(pred);
            if i < sub.len() {
                assert(sub.contains(sub[i]));
                let j = choose|j: int| 0 <= j < s.drop_last().len() && s.drop_last()[j] == sub[i];
                assert(s[j] == out[i]);
            } else {
                assert(out[i] == s.last());
                assert(s[s.len() - 1] == out[i]);
            }
        }
    }
}

impl Filter for ReadFilter {
    /// The entries the strategy does not classify as read.
    open spec fn filter_spec(&self, s: Seq<EntryV>) -> Seq<EntryV> {
        survivors(self.inner@, s)
    }

    proof fn filter_shrinks(&self, s: Seq<EntryV>) {
        broadcast use Seq::lemma_filter_len;

        match self.inner@ {
            InnerV::NewerThanLastRead(last) => {
                lemma_newer_survivors_subset(s, last);
            },
            InnerV::NotPresentInReadList(list) => {
                lemma_filter_subset(s, |e: EntryV| !crate::read_filter::np_read(e.id, list));
            },
        }
    }

    fn filter(&self, entries: &mut Vec<Entry>) {
        self.remove_read(entries);
    }
}

/// A batch-level filter step of a chain.
pub enum FilterAction {
    /// Remove already-read entries through the task's shared read filter.
    ReadFilterRemoval,
    /// Keep only the first entries of the batch.
    Take(Take),
}

/// The mathematical view of a [`FilterAction`].
#[verifier::ext_equal]
pub enum FilterActionV {
    /// Remove already-read entries.
    ReadFilterRemoval,
    /// Keep only the first `num` entries.
    Take(nat),
}

impl View for FilterAction {
    type V = FilterActionV;

    open spec fn view(&self) -> FilterActionV {
        match self {
            FilterAction::ReadFilterRemoval => FilterActionV::ReadFilterRemoval,
            FilterAction::Take(t) => FilterActionV::Take(t.num as nat),
        }
    }
}

/// The survivors of one filter step.  A missing read filter disables dedup
/// for the step: the batch passes unchanged.
pub open spec fn filter_step_spec(f: FilterActionV, rf: Option<InnerV>, s: Seq<EntryV>) -> Seq<
    EntryV,
> {
    match f {
        FilterActionV::ReadFilterRemoval => match rf {
            Some(inner) => survivors(inner, s),
            None => s,
        },
        FilterActionV::Take(n) => if n <= s.len() {
            s.take(n as int)
        } else {
            s
        },
    }
}

/// Shortens the message body to at most `len` characters.
pub struct Shorten {
    /// The maximum body length, in characters.
    pub len: usize,
}

/// A per-entry or batch transform step.
pub enum Transform {
    /// The read filter as a transform: a batch-level, order-sensitive
    /// operation, never run per entry.
    ReadFilter,
    /// JSON extraction.
    Json(Json),
    /// Uppercase the title and body.
    Caps,
    /// Shorten the body.
    Shorten(Shorten),
}

/// The mathematical view of a [`Transform`].
#[verifier::ext_equal]
pub enum TransformV {
    /// The read filter as a batch transform.
    ReadFilter,
    /// JSON extraction.
    Json(JsonV),
    /// Uppercase the title and body.
    Caps,
    /// Shorten the body to the given number of characters.
    Shorten(nat),
}

impl View for Transform {
    type V = TransformV;

    open spec fn view(&self) -> TransformV {
        match self {
            Transform::ReadFilter => TransformV::ReadFilter,
            Transform::Json(q) => TransformV::Json(q@),
            Transform::Caps => TransformV::Caps,
            Transform::Shorten(s) => TransformV::Shorten(s.len as nat),
        }
    }
}

impl TransformV {
    /// The transform's configuration is well formed.
    pub open spec fn wf(&self) -> bool {
        match self {
            TransformV::Json(q) => q.wf(),
            _ => true,
        }
    }
}

/// The cause of a failed transform step.
pub enum TransformErrorKind {
    /// JSON extraction failed.
    Json(JsonError),
}

/// The mathematical view of a [`TransformErrorKind`].
#[verifier::ext_equal]
pub enum TransformErrorKindV {
    /// JSON extraction failed.
    Json(JsonErrorV),
}

impl View for TransformErrorKind {
    type V = TransformErrorKindV;

    open spec fn view(&self) -> TransformErrorKindV {
        match self {
            TransformErrorKind::Json(e) => TransformErrorKindV::Json(e@),
        }
    }
}

/// A failed transform step, carrying the original, pre-transform entry that
/// triggered it, for diagnostics.
pub struct TransformError {
    /// The cause of the failure.
    pub kind: TransformErrorKind,
    /// The original entry, as it was before the failing step ran.
    pub original_entry: Entry,
}

/// The mathematical view of a [`TransformError`].
#[verifier::ext_equal]
pub struct TransformErrorV {
    /// The cause of the failure.
    pub kind: TransformErrorKindV,
    /// The original entry, before the failing step.
    pub original_entry: EntryV,
}

impl View for TransformError {
    type V = TransformErrorV;

    open spec fn view(&self) -> TransformErrorV {
        TransformErrorV { kind: self.kind@, original_entry: self.original_entry@ }
    }
}

/// One merge-fallback step on one optional field: an output field that is
/// set keeps its value and leaves the fallback untouched; one that is unset
/// takes the whole remaining fallback, which is thereby claimed and not
/// available to later outputs.
pub open spec fn spec_claim<T>(out: Option<T>, rem: Option<T>) -> (Option<T>, Option<T>) {
    match out {
        Some(v) => (Some(v), rem),
        None => (rem, None),
    }
}

fn claim<T>(out: Option<T>, rem: Option<T>) -> (r: (Option<T>, Option<T>))
    ensures
        r == spec_claim(out, rem),
{
    match out {
        Some(v) => (Some(v), rem),
        None => (rem, None),
    }
}

/// One output entry merged with the remaining fallback state: the merged
/// entry, and what is left of the fallback for later siblings.
pub open spec fn merge_one_spec(out: EntryV, rem: EntryV) -> (EntryV, EntryV) {
    let (id_m, id_r) = spec_claim(out.id, rem.id);
    let (raw_m, raw_r) = spec_claim(out.raw_contents, rem.raw_contents);
    let (title_m, title_r) = spec_claim(out.msg.title, rem.msg.title);
    let (body_m, body_r) = spec_claim(out.msg.body, rem.msg.body);
    let (link_m, link_r) = spec_claim(out.msg.link, rem.msg.link);
    let (media_m, media_r) = spec_claim(out.msg.media, rem.msg.media);
    (
        EntryV {
            id: id_m,
            raw_contents: raw_m,
            msg: MessageV { title: title_m, body: body_m, link: link_m, media: media_m },
        },
        EntryV {
            id: id_r,
            raw_contents: raw_r,
            msg: MessageV { title: title_r, body: body_r, link: link_r, media: media_r },
        },
    )
}

/// The merge-fallback rule over a whole output batch: outputs are merged in
/// order, each claim depleting the fallback for its successors.
pub open spec fn merge_seq(outs: Seq<EntryV>, rem: EntryV) -> Seq<EntryV>
    decreases outs.len(),
{
    if outs.len() == 0 {
        Seq::empty()
    } else {
        let (m, rem2) = merge_one_spec(outs[0], rem);
        seq![m] + merge_seq(outs.drop_first(), rem2)
    }
}

fn merge_one(out: Entry, rem: Entry) -> (r: (Entry, Entry))
    ensures
        r.0@ == merge_one_spec(out@, rem@).0,
        r.1@ == merge_one_spec(out@, rem@).1,
{
    let Entry { id: oid, raw_contents: oraw, msg: omsg } = out;
    let Entry { id: rid, raw_contents: rraw, msg: rmsg } = rem;
    let (id_m, id_r) = claim(oid, rid);
    let (raw_m, raw_r) = claim(oraw, rraw);
    let (title_m, title_r) = claim(omsg.title, rmsg.title);
    let (body_m, body_r) = claim(omsg.body, rmsg.body);
    let (link_m, link_r) = claim(omsg.link, rmsg.link);
    let (media_m, media_r) = claim(omsg.media, rmsg.media);
    let merged = Entry {
        id: id_m,
        raw_contents: raw_m,
        msg: crate::entry::Message { title: title_m, body: body_m, link: link_m, media: media_m },
    };
    let rest = Entry {
        id: id_r,
        raw_contents: raw_r,
        msg: crate::entry::Message { title: title_r, body: body_r, link: link_r, media: media_r },
    };
    proof {
        assert(merged@ =~= merge_one_spec(out@, rem@).0);
        assert(rest@ =~= merge_one_spec(out@, rem@).1);
    }
    (merged, rest)
}

/// Merges a transform's outputs with the original input entry under the
/// claim-once rule.
fn merge_with_fallback(outputs: Vec<Entry>, original: &Entry) -> (r: Vec<Entry>)
    ensures
        entry_views(r@) == merge_seq(entry_views(outputs@), original@),
{
    let ghost outsv = entry_views(outputs@);
    let mut rem = original.clone();
    let mut out: Vec<Entry> = Vec::new();
    let mut i: usize = 0;
    proof {
        assert(outsv.skip(0) =~= outsv);
        assert(entry_views(out@) =~= Seq::<EntryV>::empty());
        assert(entry_views(out@) + merge_seq(outsv, rem@) =~= merge_seq(outsv, rem@));
    }
    while i < outputs.len()
        invariant
            outsv == entry_views(outputs@),
            i <= outputs.len(),
            merge_seq(outsv, original@) == entry_views(out@) + merge_seq(
                outsv.skip(i as int),
                rem@,
            ),
        decreases outputs.len() - i,
    {
        proof {
            assert(outsv.skip(i as int)[0] == outsv[i as int]);
            assert(outsv[i as int] == outputs@[i as int]@);
            assert(outsv.skip(i as int).drop_first() =~= outsv.skip(i + 1));
        }
        let ghost prev = entry_views(out@);
        let ghost rem_prev = rem@;
        let o = outputs[i].clone();
        let (m, rem2) = merge_one(o, rem);
        rem = rem2;
        out.push(m);
        proof {
            assert(entry_views(out@) =~= prev.push(out@.last()@));
            assert(out@.last()@ == merge_one_spec(outsv[i as int], rem_prev).0);
            assert(merge_seq(outsv.skip(i as int), rem_prev) == seq![
                merge_one_spec(outsv[i as int], rem_prev).0,
            ] + merge_seq(outsv.skip(i + 1), rem@));
            assert(prev + (seq![out@.last()@] + merge_seq(outsv.skip(i + 1), rem@)) =~= entry_views(
                out@,
            ) + merge_seq(outsv.skip(i + 1), rem@));
        }
        i = i + 1;
    }
    proof {
        assert(outsv.skip(outsv.len() as int) =~= Seq::<EntryV>::empty());
        assert(entry_views(out@) + Seq::<EntryV>::empty() =~= entry_views(out@));
    }
    out
}

/// The claim-once law: when one input entry with a link is expanded into
/// two outputs that both omit the link, only the first merged output
/// carries the input's link; the second is left without one.
pub proof fn lemma_merge_fallback_claim_once(o1: EntryV, o2: EntryV, orig: EntryV)
    requires
        o1.msg.link is None,
        o2.msg.link is None,
        orig.msg.link is Some,
    ensures
        merge_seq(seq![o1, o2], orig).len() == 2,
        merge_seq(seq![o1, o2], orig)[0].msg.link == orig.msg.link,
        merge_seq(seq![o1, o2], orig)[1].msg.link is None,
{
    reveal_with_fuel(merge_seq, 4);
    let s = seq![o1, o2];
    let (m1, rem1) = merge_one_spec(o1, orig);
    assert(s[0] == o1);
    assert(s.drop_first() =~= seq![o2]);
    let (m2, rem2) = merge_one_spec(o2, rem1);
    assert(seq![o2][0] == o2);
    assert(seq![o2].drop_first() =~= Seq::<EntryV>::empty());
    assert(merge_seq(s, orig) =~= seq![m1, m2]);
}

/// The uppercased entry produced by the caps transform: only the title and
/// body are produced; everything else is left for the fallback rule.
pub open spec fn caps_spec(e: EntryV) -> EntryV {
    EntryV {
        id: None,
        raw_contents: None,
        msg: MessageV {
            title: match e.msg.title {
                Some(t) => Some(upper_of(t)),
                None => None,
            },
            body: match e.msg.body {
                Some(b) => Some(upper_of(b)),
                None => None,
            },
            link: None,
            media: None,
        },
    }
}

/// The shortened entry produced by the shorten transform: only the body is
/// produced, cut to at most `n` characters.
pub open spec fn shorten_spec(e: EntryV, n: nat) -> EntryV {
    EntryV {
        id: None,
        raw_contents: None,
        msg: MessageV {
            title: None,
            body: match e.msg.body {
                Some(b) => Some(
                    if n <= b.len() {
                        b.take(n as int)
                    } else {
                        b
                    },
                ),
                None => None,
            },
            link: None,
            media: None,
        },
    }
}

/// What one per-entry transform produces for one entry, before the
/// merge-fallback rule is applied.  The read-filter transform has no
/// per-entry behaviour: dedup is batch-level and order-sensitive, so running
/// it per entry is a programming error, excluded by this function's callers.
pub open spec fn transform_one_spec(t: TransformV, e: EntryV) -> Result<
    Seq<EntryV>,
    TransformErrorKindV,
> {
    match t {
        TransformV::ReadFilter => Ok(seq![e]),
        TransformV::Json(q) => match crate::json::parse_spec(e, q) {
            Ok(outs) => Ok(outs),
            Err(er) => Err(TransformErrorKindV::Json(er)),
        },
        TransformV::Caps => Ok(seq![caps_spec(e)]),
        TransformV::Shorten(n) => Ok(seq![shorten_spec(e, n)]),
    }
}

/// One entry taken through a per-entry transform and the merge-fallback
/// rule; an error is wrapped with the original, pre-transform entry.
pub open spec fn run_one_spec(t: TransformV, e: EntryV) -> Result<Seq<EntryV>, TransformErrorV> {
    match transform_one_spec(t, e) {
        Err(k) => Err(TransformErrorV { kind: k, original_entry: e }),
        Ok(outs) => Ok(merge_seq(outs, e)),
    }
}

/// A whole batch taken through a per-entry transform, outputs concatenated
/// in entry order; the first failing entry aborts the batch.
pub open spec fn transform_entries_spec(t: TransformV, s: Seq<EntryV>) -> Result<
    Seq<EntryV>,
    TransformErrorV,
>
    decreases s.len(),
{
    if s.len() == 0 {
        Ok(Seq::empty())
    } else {
        match run_one_spec(t, s[0]) {
            Err(e) => Err(e),
            Ok(outs) => match transform_entries_spec(t, s.drop_first()) {
                Err(e) => Err(e),
                Ok(rest) => Ok(outs + rest),
            },
        }
    }
}

/// A whole batch taken through one transform step.  The read-filter
/// transform removes read entries from the batch; a missing read filter
/// disables dedup for the step.  Every other transform runs per entry.
pub open spec fn transform_batch_spec(t: TransformV, rf: Option<InnerV>, s: Seq<EntryV>) -> Result<
    Seq<EntryV>,
    TransformErrorV,
> {
    match t {
        TransformV::ReadFilter => Ok(
            match rf {
                Some(inner) => survivors(inner, s),
                None => s,
            },
        ),
        _ => transform_entries_spec(t, s),
    }
}

impl Transform {
    /// Runs the transform on one entry, producing its raw outputs.
    fn transform_one(&self, entry: &Entry) -> (r: Result<Vec<Entry>, TransformErrorKind>)
        requires
            self@.wf(),
            !(self@ is ReadFilter),
        ensures
            match r {
                Ok(outs) => transform_one_spec(self@, entry@) == Ok::<_, TransformErrorKindV>(
                    entry_views(outs@),
                ),
                Err(e) => transform_one_spec(self@, entry@) == Err::<Seq<EntryV>, _>(e@),
            },
    {
        match self {
            // excluded by the precondition: dedup is batch-level only
            Transform::ReadFilter => {
                proof {
                    assert(false);
                }
                Ok(Vec::new())
            },
            Transform::Json(q) => match q.parse(entry) {
                Ok(outs) => Ok(outs),
                Err(e) => Err(TransformErrorKind::Json(e)),
            },
            Transform::Caps => {
                let title = match &entry.msg.title {
                    Some(t) => Some(to_upper(t.as_str())),
                    None => None,
                };
                let body = match &entry.msg.body {
                    Some(b) => Some(to_upper(b.as_str())),
                    None => None,
                };
                let e = Entry {
                    id: None,
                    raw_contents: None,
                    msg: crate::entry::Message { title, body, link: None, media: None },
                };
                let mut out: Vec<Entry> = Vec::new();
                out.push(e);
                proof {
                    assert(out@.len() == 1);
                    assert(out@[0]@ =~= caps_spec(entry@));
                    assert(entry_views(out@) =~= seq![caps_spec(entry@)]);
                }
                Ok(out)
            },
            Transform::Shorten(sh) => {
                let body = match &entry.msg.body {
                    Some(b) => {
                        let blen = b.as_str().unicode_len();
                        if sh.len <= blen {
                            Some(b.as_str().substring_char(0, sh.len).to_owned())
                        } else {
                            Some(b.clone())
                        }
                    },
                    None => None,
                };
                let e = Entry {
                    id: None,
                    raw_contents: None,
                    msg: crate::entry::Message { title: None, body, link: None, media: None },
                };
                let mut out: Vec<Entry> = Vec::new();
                out.push(e);
                proof {
                    assert(out@[0]@ =~= shorten_spec(entry@, self@->Shorten_0));
                    assert(entry_views(out@) =~= seq![shorten_spec(entry@, self@->Shorten_0)]);
                }
                Ok(out)
            },
        }
    }

    /// Runs the transform over a whole batch: the read-filter variant
    /// filters the batch through `rf`; every other variant runs per entry,
    /// applies the merge-fallback rule and concatenates the outputs in
    /// order.  The first failing entry aborts the batch, its error carrying
    /// that original entry.
    pub fn transform(&self, rf: Option<&ReadFilter>, entries: Vec<Entry>) -> (r: Result<
        Vec<Entry>,
        TransformError,
    >)
        requires
            self@.wf(),
        ensures
            match r {
                Ok(out) => transform_batch_spec(
                    self@,
                    match rf {
                        Some(f) => Some(f.inner@),
                        None => None,
                    },
                    entry_views(entries@),
                ) == Ok::<_, TransformErrorV>(entry_views(out@)),
                Err(e) => transform_batch_spec(
                    self@,
                    match rf {
                        Some(f) => Some(f.inner@),
                        None => None,
                    },
                    entry_views(entries@),
                ) == Err::<Seq<EntryV>, _>(e@),
            },
    {
        match self {
            Transform::ReadFilter => {
                let mut entries = entries;
                match rf {
                    Some(f) => {
                        f.remove_read(&mut entries);
                    },
                    None => (),
                }
                Ok(entries)
            },
            _ => {
                let ghost sv = entry_views(entries@);
                let mut out: Vec<Entry> = Vec::new();
                let mut i: usize = 0;
                proof {
                    assert(sv.skip(0) =~= sv);
                    assert(entry_views(out@) =~= Seq::<EntryV>::empty());
                    match transform_entries_spec(self@, sv) {
                        Ok(rest) => {
                            assert(entry_views(out@) + rest =~= rest);
                        },
                        Err(_) => {},
                    }
                }
                while i < entries.len()
                    invariant
                        self@.wf(),
                        !(self@ is ReadFilter),
                        sv == entry_views(entries@),
                        i <= entries.len(),
                        transform_entries_spec(self@, sv) == (match transform_entries_spec(
                            self@,
                            sv.skip(i as int),
                        ) {
                            Ok(rest) => Ok::<_, TransformErrorV>(entry_views(out@) + rest),
                            Err(e) => Err::<Seq<EntryV>, _>(e),
                        }),
                    decreases entries.len() - i,
                {
                    proof {
                        assert(sv.skip(i as int)[0] == sv[i as int]);
                        assert(sv[i as int] == entries@[i as int]@);
                        assert(sv.skip(i as int).drop_first() =~= sv.skip(i + 1));
                    }
                    let entry = &entries[i];
                    match self.transform_one(entry) {
                        Ok(outs) => {
                            let ghost prev = entry_views(out@);
                            let ghost outsv = entry_views(outs@);
                            let mut merged = merge_with_fallback(outs, entry);
                            let ghost mergedv = entry_views(merged@);
                            out.append(&mut merged);
                            proof {
                                assert(entry_views(out@) =~= prev + mergedv);
                                match transform_entries_spec(self@, sv.skip(i + 1)) {
                                    Ok(rest) => {
                                        assert((prev + mergedv) + rest =~= prev + (mergedv
                                            + rest));
                                    },
                                    Err(_) => {},
                                }
                            }
                        },
                        Err(k) => {
                            return Err(
                                TransformError { kind: k, original_entry: entries[i].clone() },
                            );
                        },
                    }
                    i = i + 1;
                }
                proof {
                    assert(sv.skip(sv.len() as int) =~= Seq::<EntryV>::empty());
                    assert(entry_views(out@) + Seq::<EntryV>::empty() =~= entry_views(out@));
                }
                Ok(out)
            },
        }
    }
}

/// One step of an action chain: a batch filter or a transform.
pub enum Action {
    /// A batch-level filter step.
    Filter(FilterAction),
    /// A transform step.
    Transform(Transform),
}

/// The mathematical view of an [`Action`].
#[verifier::ext_equal]
pub enum ActionV {
    /// A batch-level filter step.
    Filter(FilterActionV),
    /// A transform step.
    Transform(TransformV),
}

impl View for Action {
    type V = ActionV;

    open spec fn view(&self) -> ActionV {
        match self {
            Action::Filter(f) => ActionV::Filter(f@),
            Action::Transform(t) => ActionV::Transform(t@),
        }
    }
}

impl ActionV {
    /// The step's configuration is well formed.
    pub open spec fn wf(&self) -> bool {
        match self {
            ActionV::Transform(t) => t.wf(),
            ActionV::Filter(_) => true,
        }
    }
}

/// One chain step applied to a batch.
pub open spec fn action_step_spec(a: ActionV, rf: Option<InnerV>, s: Seq<EntryV>) -> Result<
    Seq<EntryV>,
    TransformErrorV,
> {
    match a {
        ActionV::Filter(f) => Ok(filter_step_spec(f, rf, s)),
        ActionV::Transform(t) => transform_batch_spec(t, rf, s),
    }
}

/// A whole chain applied to a batch: steps strictly in configured order,
/// each consuming the previous step's output; the first failing step aborts
/// the run.
pub open spec fn run_actions_spec(acts: Seq<ActionV>, rf: Option<InnerV>, s: Seq<EntryV>) -> Result<
    Seq<EntryV>,
    TransformErrorV,
>
    decreases acts.len(),
{
    if acts.len() == 0 {
        Ok(s)
    } else {
        match action_step_spec(acts[0], rf, s) {
            Err(e) => Err(e),
            Ok(s2) => run_actions_spec(acts.drop_first(), rf, s2),
        }
    }
}

/// Every step of the chain is well formed.
pub open spec fn actions_wf(acts: Seq<ActionV>) -> bool {
    forall|i: int| 0 <= i < acts.len() ==> (#[trigger] acts[i]).wf()
}

fn apply_filter_action(f: &FilterAction, rf: Option<&ReadFilter>, entries: &mut Vec<Entry>)
    ensures
        entry_views(final(entries)@) == filter_step_spec(
            f@,
            match rf {
                Some(r) => Some(r.inner@),
                None => None,
            },
            entry_views(old(entries)@),
        ),
{
    match f {
        FilterAction::ReadFilterRemoval => {
            match rf {
                Some(r) => {
                    r.remove_read(entries);
                },
                None => (),
            }
        },
        FilterAction::Take(t) => {
            t.filter(entries);
        },
    }
}

/// Runs an action chain over a batch of entries: steps strictly in
/// configured order, each consuming the whole batch and producing the next
/// one.  Filter steps only remove entries; per-entry transforms expand or
/// shrink the batch under the merge-fallback rule.  The first failing step
/// aborts the run, its error carrying the original entry that triggered it.
/// A missing read filter disables dedup steps for the run.
pub fn run_actions(actions: &Vec<Action>, rf: Option<&ReadFilter>, entries: Vec<Entry>) -> (r:
    Result<Vec<Entry>, TransformError>)
    requires
        actions_wf(actions@.map_values(|a: Action| a@)),
    ensures
        match r {
            Ok(out) => run_actions_spec(
                actions@.map_values(|a: Action| a@),
                match rf {
                    Some(f) => Some(f.inner@),
                    None => None,
                },
                entry_views(entries@),
            ) == Ok::<_, TransformErrorV>(entry_views(out@)),
            Err(e) => run_actions_spec(
                actions@.map_values(|a: Action| a@),
                match rf {
                    Some(f) => Some(f.inner@),
                    None => None,
                },
                entry_views(entries@),
            ) == Err::<Seq<EntryV>, _>(e@),
        },
{
    let ghost acts = actions@.map_values(|a: Action| a@);
    let ghost rfv: Option<InnerV> = match rf {
        Some(f) => Some(f.inner@),
        None => None,
    };
    let mut cur = entries;
    let mut i: usize = 0;
    proof {
        assert(acts.skip(0) =~= acts);
    }
    while i < actions.len()
        invariant
            acts == actions@.map_values(|a: Action| a@),
            actions_wf(acts),
            rfv == (match rf {
                Some(f) => Some(f.inner@),
                None => None,
            }),
            i <= actions.len(),
            run_actions_spec(acts, rfv, entry_views(entries@)) == run_actions_spec(
                acts.skip(i as int),
                rfv,
                entry_views(cur@),
            ),
        decreases actions.len() - i,
    {
        proof {
            assert(acts.skip(i as int)[0] == acts[i as int]);
            assert(acts[i as int] == actions@[i as int]@);
            assert(acts.skip(i as int).drop_first() =~= acts.skip(i + 1));
        }
        match &actions[i] {
            Action::Filter(f) => {
                apply_filter_action(f, rf, &mut cur);
            },
            Action::Transform(t) => {
                match t.transform(rf, cur) {
                    Ok(next) => {
                        cur = next;
                    },
                    Err(e) => {
                        return Err(e);
                    },
                }
            },
        }
        i = i + 1;
    }
    proof {
        assert(acts.skip(acts.len() as int) =~= Seq::<ActionV>::empty());
    }
    Ok(cur)
}

} // verus!
