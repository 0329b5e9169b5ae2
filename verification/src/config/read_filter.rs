//! The configured shape of a read filter and its ledger state.
//!
//! The persisted state is exactly the strategy's fields: a single
//! last-read id, or an ordered list of ids; `unparse` refuses to persist
//! an empty state.

use vstd::prelude::*;

use crate::text::views_of;

verus! {

/// The configured strategy kind of a task's read filter.
pub enum Kind {
    /// The watermark strategy.
    NewerThanRead,
    /// The seen-set strategy.
    NotPresentInReadList,
}

impl Kind {
    /// The engine strategy kind this configuration names.
    pub fn parse(self) -> (r: crate::read_filter::Kind)
        ensures
            self is NewerThanRead <==> r is NewerThanLastRead,
    {
        match self {
            Kind::NewerThanRead => crate::read_filter::Kind::NewerThanLastRead,
            Kind::NotPresentInReadList => crate::read_filter::Kind::NotPresentInReadList,
        }
    }
}

/// The persisted state of the watermark strategy: the last read id.
pub struct Newer {
    /// The last read id.
    pub last_read_id: String,
}

impl Newer {
    /// The engine state this persisted state stands for.
    pub fn parse(self) -> (r: crate::read_filter::Newer)
        ensures
            r@ == Some(self.last_read_id@),
    {
        crate::read_filter::Newer { last_read_id: Some(self.last_read_id) }
    }

    /// The persisted state of an engine state; `None` when there is no
    /// watermark to persist.
    pub fn unparse(read_filter: &crate::read_filter::Newer) -> (r: Option<Self>)
        ensures
            match r {
                Some(c) => read_filter@ == Some(c.last_read_id@),
                None => read_filter@ is None,
            },
    {
        match &read_filter.last_read_id {
            Some(id) => Some(Newer { last_read_id: id.clone() }),
            None => None,
        }
    }
}

/// The persisted state of the seen-set strategy: the read ids, in order.
pub struct NotPresent {
    /// The read ids, oldest first.
    pub read_list: Vec<String>,
}

fn clone_string_list(v: &Vec<String>) -> (r: Vec<String>)
    ensures
        views_of(r@) == views_of(v@),
{
    let mut out: Vec<String> = Vec::new();
    let mut i: usize = 0;
    while i < v.len()
        invariant
            i <= v.len(),
            views_of(out@) == views_of(v@.take(i as int)),
        decreases v.len() - i,
    {
        let ghost prev = views_of(out@);
        let s = v[i].clone();
        out.push(s);
        proof {
            assert(views_of(out@) =~= prev.push(v@[i as int]@));
            assert(views_of(v@.take(i + 1)) =~= prev.push(v@[i as int]@));
        }
        i = i + 1;
    }
    proof {
        assert(v@.take(v@.len() as int) =~= v@);
    }
    out
}

impl NotPresent {
    /// The engine state this persisted state stands for.
    pub fn parse(self) -> (r: crate::read_filter::NotPresent)
        ensures
            r@ == views_of(self.read_list@),
    {
        crate::read_filter::NotPresent { read_list: self.read_list }
    }

    /// The persisted state of an engine state; `None` when the list is
    /// empty and there is nothing to persist.
    pub fn unparse(read_filter: &crate::read_filter::NotPresent) -> (r: Option<Self>)
        ensures
            match r {
                Some(c) => views_of(c.read_list@) == read_filter@ && read_filter@.len() > 0,
                None => read_filter@.len() == 0,
            },
    {
        if read_filter.read_list.len() == 0 {
            None
        } else {
            Some(NotPresent { read_list: clone_string_list(&read_filter.read_list) })
        }
    }
}

/// The persisted shape of a whole read filter: its strategy and state.
pub enum ReadFilter {
    /// The watermark strategy with its state.
    NewerThanRead(Newer),
    /// The seen-set strategy with its state.
    NotPresentInReadList(NotPresent),
}

impl ReadFilter {
    /// The engine ledger this persisted shape stands for, under the given
    /// task-scoped name.
    pub fn parse(self, name: &str) -> (r: crate::read_filter::ReadFilter)
        ensures
            r.name@ == name@,
            match self {
                ReadFilter::NewerThanRead(x) => r.inner@
                    == crate::read_filter::InnerV::NewerThanLastRead(Some(x.last_read_id@)),
                ReadFilter::NotPresentInReadList(x) => r.inner@
                    == crate::read_filter::InnerV::NotPresentInReadList(views_of(x.read_list@)),
            },
    {
        let inner = match self {
            ReadFilter::NewerThanRead(x) => crate::read_filter::Inner::NewerThanLastRead(
                x.parse(),
            ),
            ReadFilter::NotPresentInReadList(x) => crate::read_filter::Inner::NotPresentInReadList(
                x.parse(),
            ),
        };
        crate::read_filter::ReadFilter { name: name.to_owned(), inner }
    }

    /// The persisted shape of an engine ledger state; `None` when the
    /// state holds nothing worth persisting.
    pub fn unparse(read_filter: &crate::read_filter::Inner) -> (r: Option<Self>)
        ensures
            match read_filter {
                crate::read_filter::Inner::NewerThanLastRead(x) => match r {
                    Some(c) => c matches ReadFilter::NewerThanRead(n) && x@ == Some(
                        n.last_read_id@,
                    ),
                    None => x@ is None,
                },
                crate::read_filter::Inner::NotPresentInReadList(x) => match r {
                    Some(c) => c matches ReadFilter::NotPresentInReadList(n) && views_of(
                        n.read_list@,
                    ) == x@,
                    None => x@.len() == 0,
                },
            },
    {
        match read_filter {
            crate::read_filter::Inner::NewerThanLastRead(x) => match Newer::unparse(x) {
                Some(n) => Some(ReadFilter::NewerThanRead(n)),
                None => None,
            },
            crate::read_filter::Inner::NotPresentInReadList(x) => match NotPresent::unparse(x) {
                Some(n) => Some(ReadFilter::NotPresentInReadList(n)),
                None => None,
            },
        }
    }
}

} // verus!
