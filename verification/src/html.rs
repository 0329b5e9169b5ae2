//! The HTML extraction engine: turns a parsed HTML document into zero or
//! more structured entries, one per matched item.
//!
//! A query is an ordered list of matchers (tag, class, or attribute with
//! value) applied as a descendant chain: the document is searched depth
//! first for nodes matching the first matcher, each match's descendants for
//! the second, and so on.  Each query level can carry an ignore list: a
//! candidate that also matches an ignored matcher is skipped.  The matched
//! node's data — its text content or a named attribute — may be piped
//! through a regex match-and-replace before it is assigned to an entry
//! field.
//!
//! The document is modeled by [`HtmlNode`], a tree of elements with
//! attributes, own text and children; producing such a tree from markup is
//! the caller's concern.

use vstd::prelude::*;

use crate::entry::{Entry, EntryV, Media, MediaV, Message, MessageV, Url, entry_views, url_of};
use crate::text::{int_rep, is_blank, join_spec, occurs_at};

verus! {

/// An element of a parsed HTML document.
pub struct HtmlNode {
    /// The tag name, lower case.
    pub tag: String,
    /// The attributes, in document order.
    pub attrs: Vec<(String, String)>,
    /// The element's own text content, before any child element's text.
    pub text: String,
    /// The child elements, in document order.
    pub children: Vec<HtmlNode>,
}

/// The mathematical view of an [`HtmlNode`].
#[verifier::ext_equal]
pub struct NodeV {
    /// The tag name.
    pub tag: Seq<char>,
    /// The attributes, in document order.
    pub attrs: Seq<(Seq<char>, Seq<char>)>,
    /// The element's own text content.
    pub text: Seq<char>,
    /// The child elements.
    pub children: Seq<NodeV>,
}

/// The view of an [`HtmlNode`], structurally.
pub open spec fn node_view(n: HtmlNode) -> NodeV
    decreases n,
{
    NodeV {
        tag: n.tag@,
        attrs: Seq::new(
            n.attrs@.len(),
            |i: int|
                if 0 <= i < n.attrs@.len() {
                    (n.attrs@[i].0@, n.attrs@[i].1@)
                } else {
                    (Seq::empty(), Seq::empty())
                },
        ),
        text: n.text@,
        children: Seq::new(
            n.children@.len(),
            |i: int|
                if 0 <= i < n.children@.len() {
                    node_view(n.children@[i])
                } else {
                    NodeV {
                        tag: Seq::empty(),
                        attrs: Seq::empty(),
                        text: Seq::empty(),
                        children: Seq::empty(),
                    }
                },
        ),
    }
}

impl View for HtmlNode {
    type V = NodeV;

    open spec fn view(&self) -> NodeV {
        node_view(*self)
    }
}

/// The views of the nodes in `s`.
pub open spec fn node_views(s: Seq<HtmlNode>) -> Seq<NodeV> {
    s.map_values(|n: HtmlNode| n@)
}

/// The views of the string pairs in `v`.
pub open spec fn pairs_view(v: Seq<(String, String)>) -> Seq<(Seq<char>, Seq<char>)> {
    v.map_values(|p: (String, String)| (p.0@, p.1@))
}

fn clone_string_pairs(v: &Vec<(String, String)>) -> (r: Vec<(String, String)>)
    ensures
        pairs_view(r@) == pairs_view(v@),
{
    let mut out: Vec<(String, String)> = Vec::new();
    let mut i: usize = 0;
    while i < v.len()
        invariant
            i <= v.len(),
            pairs_view(out@) == pairs_view(v@.take(i as int)),
        decreases v.len() - i,
    {
        let ghost prev = pairs_view(out@);
        let a = v[i].0.clone();
        let b = v[i].1.clone();
        out.push((a, b));
        proof {
            assert(pairs_view(out@) =~= prev.push((v@[i as int].0@, v@[i as int].1@)));
            assert(pairs_view(v@.take(i + 1)) =~= prev.push((v@[i as int].0@, v@[i as int].1@)));
        }
        i = i + 1;
    }
    proof {
        assert(v@.take(v@.len() as int) =~= v@);
    }
    out
}

/// A deep copy of a node, equal to the original in its view.
pub fn clone_node(n: &HtmlNode) -> (r: HtmlNode)
    ensures
        r@ == n@,
    decreases *n,
{
    let attrs = clone_string_pairs(&n.attrs);
    let mut children: Vec<HtmlNode> = Vec::new();
    let mut i: usize = 0;
    while i < n.children.len()
        invariant
            i <= n.children.len(),
            children@.len() == i,
            forall|j: int| 0 <= j < i ==> (#[trigger] children@[j])@ == n.children@[j]@,
        decreases n.children.len() - i,
    {
        let c = clone_node(&n.children[i]);
        children.push(c);
        i = i + 1;
    }
    let ghost cseq = children@;
    let r = HtmlNode { tag: n.tag.clone(), attrs, text: n.text.clone(), children };
    proof {
        assert(r.children@ == cseq);
        assert(pairs_view(r.attrs@).len() == pairs_view(n.attrs@).len());
        assert(r@.attrs.len() == n@.attrs.len());
        assert forall|j: int| 0 <= j < r@.attrs.len() implies r@.attrs[j] == n@.attrs[j] by {
            assert(r@.attrs[j] == (r.attrs@[j].0@, r.attrs@[j].1@));
            assert(n@.attrs[j] == (n.attrs@[j].0@, n.attrs@[j].1@));
            assert(pairs_view(r.attrs@)[j] == (r.attrs@[j].0@, r.attrs@[j].1@));
            assert(pairs_view(n.attrs@)[j] == (n.attrs@[j].0@, n.attrs@[j].1@));
        }
        assert(r@.attrs =~= n@.attrs);
        assert(r@.children.len() == n@.children.len());
        assert forall|j: int| 0 <= j < r@.children.len() implies r@.children[j] == n@.children[j]
            by {
            assert(r@.children[j] == node_view(r.children@[j]));
            assert(n@.children[j] == node_view(n.children@[j]));
            assert(cseq[j]@ == n.children@[j]@);
        }
        assert(r@.children =~= n@.children);
        assert(r@ =~= n@);
    }
    r
}

impl Clone for HtmlNode {
    fn clone(&self) -> (r: Self)
        ensures
            r@ == self@,
    {
        clone_node(self)
    }
}

/// The type of node matcher used in a query.
pub enum QueryKind {
    /// Match elements with this tag name.
    Tag(String),
    /// Match elements whose class list contains this class.
    Class(String),
    /// Match elements carrying this attribute with exactly this value.
    Attr {
        /// The attribute name.
        name: String,
        /// The required attribute value.
        value: String,
    },
}

/// The mathematical view of a [`QueryKind`].
#[verifier::ext_equal]
pub enum QueryKindV {
    /// Match by tag name.
    Tag(Seq<char>),
    /// Match by class.
    Class(Seq<char>),
    /// Match by attribute name and value.
    Attr {
        /// The attribute name.
        name: Seq<char>,
        /// The required attribute value.
        value: Seq<char>,
    },
}

impl View for QueryKind {
    type V = QueryKindV;

    open spec fn view(&self) -> QueryKindV {
        match self {
            QueryKind::Tag(t) => QueryKindV::Tag(t@),
            QueryKind::Class(c) => QueryKindV::Class(c@),
            QueryKind::Attr { name, value } => QueryKindV::Attr { name: name@, value: value@ },
        }
    }
}

/// Where the data of a matched node is read from.
pub enum DataLocation {
    /// The node's text content.
    Text,
    /// The value of the named attribute.
    Attr(String),
}

/// The mathematical view of a [`DataLocation`].
#[verifier::ext_equal]
pub enum DataLocationV {
    /// The node's text content.
    Text,
    /// The value of the named attribute.
    Attr(Seq<char>),
}

impl View for DataLocation {
    type V = DataLocationV;

    open spec fn view(&self) -> DataLocationV {
        match self {
            DataLocation::Text => DataLocationV::Text,
            DataLocation::Attr(a) => DataLocationV::Attr(a@),
        }
    }
}

/// One level of a descendant-chain query: a matcher the node must fit and
/// matchers it must not fit.
pub struct Query {
    /// The matcher the node must fit.
    pub kind: QueryKind,
    /// Matchers the node must not fit, if any.
    pub ignore: Option<Vec<QueryKind>>,
}

/// The mathematical view of a [`Query`].
#[verifier::ext_equal]
pub struct QueryV {
    /// The matcher the node must fit.
    pub kind: QueryKindV,
    /// Matchers the node must not fit, if any.
    pub ignore: Option<Seq<QueryKindV>>,
}

impl View for Query {
    type V = QueryV;

    open spec fn view(&self) -> QueryV {
        QueryV {
            kind: self.kind@,
            ignore: match &self.ignore {
                Some(igs) => Some(igs@.map_values(|k: QueryKind| k@)),
                None => None,
            },
        }
    }
}

/// A regex match-and-replace applied to extracted data.
pub struct ReplaceRegex {
    /// The pattern to match.
    pub re: String,
    /// The replacement text; named capture groups are supported.
    pub replace_with: String,
}

/// The mathematical view of a [`ReplaceRegex`].
#[verifier::ext_equal]
pub struct ReplaceRegexV {
    /// The pattern to match.
    pub re: Seq<char>,
    /// The replacement text.
    pub replace_with: Seq<char>,
}

impl View for ReplaceRegex {
    type V = ReplaceRegexV;

    open spec fn view(&self) -> ReplaceRegexV {
        ReplaceRegexV { re: self.re@, replace_with: self.replace_with@ }
    }
}

/// A complete data query: the descendant chain to the node and where in
/// the node the data lies, with an optional regex replacement.
pub struct QueryData {
    /// The descendant chain of matchers, applied level by level.
    pub query: Vec<Query>,
    /// Where the data of the matched node is read from.
    pub data_location: DataLocation,
    /// A regex match-and-replace applied to the data, if any.
    pub regex: Option<ReplaceRegex>,
}

/// The mathematical view of a [`QueryData`].
#[verifier::ext_equal]
pub struct QueryDataV {
    /// The descendant chain of matchers.
    pub query: Seq<QueryV>,
    /// Where the data is read from.
    pub data_location: DataLocationV,
    /// The regex replacement, if any.
    pub regex: Option<ReplaceRegexV>,
}

impl View for QueryData {
    type V = QueryDataV;

    open spec fn view(&self) -> QueryDataV {
        QueryDataV {
            query: self.query@.map_values(|q: Query| q@),
            data_location: self.data_location@,
            regex: match &self.regex {
                Some(r) => Some(r@),
                None => None,
            },
        }
    }
}

/// What `regex::Regex::new` + `regex::Regex::replace_all` produce, named:
/// whether the pattern compiles and the replaced text (named capture groups
/// included) depend on the three arguments alone.  `None` stands for an
/// invalid pattern.
pub uninterp spec fn regex_replace_of(re: Seq<char>, rep: Seq<char>, hay: Seq<char>) -> Option<
    Seq<char>,
>;

/// Relies on `regex::Regex::new` for pattern compilation and
/// `regex::Regex::replace_all` for replacement.
#[verifier::external_body]
fn regex_replace(re: &str, rep: &str, hay: &str) -> (r: Option<String>)
    ensures
        r is Some <==> regex_replace_of(re@, rep@, hay@) is Some,
        r matches Some(s) ==> regex_replace_of(re@, rep@, hay@) == Some(s@),
{
    match regex::Regex::new(re) {
        Ok(rx) => Some(rx.replace_all(hay, rep).into_owned()),
        Err(_) => None,
    }
}

/// What `chrono::DateTime::parse_from_rfc3339` accepts, reduced to the Unix
/// timestamp in seconds, named: the result depends on the characters alone.
/// `None` stands for a parse error.
pub uninterp spec fn rfc3339_secs_of(s: Seq<char>) -> Option<i64>;

/// Relies on `chrono::DateTime::parse_from_rfc3339` for date parsing and
/// `chrono::DateTime::timestamp` for the epoch seconds.
#[verifier::external_body]
fn parse_rfc3339_secs(s: &str) -> (r: Option<i64>)
    ensures
        r == rfc3339_secs_of(s@),
{
    match chrono::DateTime::parse_from_rfc3339(s) {
        Ok(dt) => Some(dt.timestamp()),
        Err(_) => None,
    }
}

/// The value of the first attribute named `name`, if any.
pub open spec fn attr_of(attrs: Seq<(Seq<char>, Seq<char>)>, name: Seq<char>) -> Option<Seq<char>>
    decreases attrs.len(),
{
    if attrs.len() == 0 {
        None
    } else if attrs[0].0 == name {
        Some(attrs[0].1)
    } else {
        attr_of(attrs.drop_first(), name)
    }
}

/// `c` occurs in the class list `s` as a whole, blank-separated token at
/// position `i`.
pub open spec fn class_token_at(s: Seq<char>, c: Seq<char>, i: int) -> bool {
    &&& occurs_at(s, c, i)
    &&& (i == 0 || is_blank(s[i - 1]))
    &&& (i + c.len() == s.len() || is_blank(s[i + c.len()]))
}

/// The class list `s` contains `c` as a whole token.
pub open spec fn has_class_token(s: Seq<char>, c: Seq<char>) -> bool {
    exists|i: int| class_token_at(s, c, i)
}

/// The node fits the matcher.
pub open spec fn matches_kind(n: NodeV, k: QueryKindV) -> bool {
    match k {
        QueryKindV::Tag(t) => n.tag == t,
        QueryKindV::Class(c) => match attr_of(n.attrs, "class"@) {
            Some(s) => has_class_token(s, c),
            None => false,
        },
        QueryKindV::Attr { name, value } => attr_of(n.attrs, name) == Some(value),
    }
}

/// The node fits the query: it fits the matcher and none of the ignored
/// matchers.
pub open spec fn matches_query(n: NodeV, q: QueryV) -> bool {
    &&& matches_kind(n, q.kind)
    &&& (match q.ignore {
        Some(igs) => forall|i: int| 0 <= i < igs.len() ==> !matches_kind(n, #[trigger] igs[i]),
        None => true,
    })
}

/// Every node of the subtree rooted at `n` (the node itself included, in
/// depth-first document order) that fits the query.
pub open spec fn find_in(n: NodeV, q: QueryV) -> Seq<NodeV>
    decreases n, 1int,
{
    (if matches_query(n, q) {
        seq![n]
    } else {
        Seq::empty()
    }) + find_in_list(n.children, q)
}

/// Every fitting node of the subtrees rooted at the nodes of `ns`, in
/// order.
pub open spec fn find_in_list(ns: Seq<NodeV>, q: QueryV) -> Seq<NodeV>
    decreases ns, 0int,
{
    if ns.len() == 0 {
        Seq::empty()
    } else {
        find_in(ns[0], q) + find_in_list(ns.drop_first(), q)
    }
}

/// Every fitting strict descendant of each node of `ns`, in order: the
/// nodes themselves are not candidates.
pub open spec fn find_desc_each(ns: Seq<NodeV>, q: QueryV) -> Seq<NodeV>
    decreases ns.len(),
{
    if ns.len() == 0 {
        Seq::empty()
    } else {
        find_in_list(ns[0].children, q) + find_desc_each(ns.drop_first(), q)
    }
}

/// The candidates of a descendant chain started at `ns`: each query level
/// searches the strict descendants of the previous level's matches.  With
/// no levels, the start nodes themselves.
pub open spec fn find_chain(ns: Seq<NodeV>, qs: Seq<QueryV>) -> Seq<NodeV>
    decreases qs.len(),
{
    if qs.len() == 0 {
        ns
    } else {
        find_chain(find_desc_each(ns, qs[0]), qs.drop_first())
    }
}

fn string_pair_is(attrs: &Vec<(String, String)>, i: usize, name: &String) -> (r: bool)
    requires
        i < attrs@.len(),
    ensures
        r == (attrs@[i as int].0@ == name@),
{
    attrs[i].0 == *name
}

fn attr_value<'a>(attrs: &'a Vec<(String, String)>, name: &String, attrsv: Ghost<
    Seq<(Seq<char>, Seq<char>)>,
>) -> (r: Option<&'a String>)
    requires
        attrsv@.len() == attrs@.len(),
        forall|i: int|
            0 <= i < attrs@.len() ==> attrsv@[i] == (#[trigger] attrs@[i].0@, attrs@[i].1@),
    ensures
        match r {
            Some(v) => attr_of(attrsv@, name@) == Some(v@),
            None => attr_of(attrsv@, name@) is None,
        },
{
    let mut i: usize = 0;
    while i < attrs.len()
        invariant
            attrsv@.len() == attrs@.len(),
            forall|j: int|
                0 <= j < attrs@.len() ==> attrsv@[j] == (#[trigger] attrs@[j].0@, attrs@[j].1@),
            i <= attrs.len(),
            forall|j: int| 0 <= j < i ==> attrsv@[j].0 != name@,
        decreases attrs.len() - i,
    {
        if string_pair_is(attrs, i, name) {
            proof {
                lemma_attr_of_found(attrsv@, name@, i as int);
            }
            return Some(&attrs[i].1);
        }
        i = i + 1;
    }
    proof {
        lemma_attr_of_none(attrsv@, name@);
    }
    None
}

proof fn lemma_attr_of_none(attrs: Seq<(Seq<char>, Seq<char>)>, name: Seq<char>)
    requires
        forall|j: int| 0 <= j < attrs.len() ==> attrs[j].0 != name,
    ensures
        attr_of(attrs, name) is None,
    decreases attrs.len(),
{
    if attrs.len() > 0 {
        lemma_attr_of_none(attrs.drop_first(), name);
    }
}

proof fn lemma_attr_of_found(attrs: Seq<(Seq<char>, Seq<char>)>, name: Seq<char>, k: int)
    requires
        0 <= k < attrs.len(),
        attrs[k].0 == name,
        forall|j: int| 0 <= j < k ==> attrs[j].0 != name,
    ensures
        attr_of(attrs, name) == Some(attrs[k].1),
    decreases attrs.len(),
{
    if k > 0 {
        lemma_attr_of_found(attrs.drop_first(), name, k - 1);
    }
}

/// The class list `s` contains `c` as a whole, blank-separated token.
fn has_class(s: &str, c: &str) -> (r: bool)
    ensures
        r == has_class_token(s@, c@),
{
    let slen: usize = s.unicode_len();
    let clen: usize = c.unicode_len();
    if clen > slen {
        proof {
            assert forall|i: int| !class_token_at(s@, c@, i) by {}
        }
        return false;
    }
    let mut i: usize = 0;
    while i <= slen - clen
        invariant
            slen == s@.len(),
            clen == c@.len(),
            clen <= slen,
            i <= slen - clen + 1,
            forall|j: int| 0 <= j < i ==> !class_token_at(s@, c@, j),
        decreases slen - clen - i + 1,
    {
        let here = crate::text::matches_at(s, slen, i, c, clen);
        if here {
            let left_ok = i == 0 || crate::text::is_blank_char(s.get_char(i - 1));
            let right_ok = i + clen == slen || crate::text::is_blank_char(s.get_char(i + clen));
            if left_ok && right_ok {
                proof {
                    assert(class_token_at(s@, c@, i as int));
                }
                return true;
            }
            proof {
                assert(!class_token_at(s@, c@, i as int));
            }
        } else {
            proof {
                assert(!class_token_at(s@, c@, i as int));
            }
        }
        if i == slen - clen {
            proof {
                assert forall|j: int| !class_token_at(s@, c@, j) by {
                    if 0 <= j <= slen - clen {
                    } else {
                        assert(!occurs_at(s@, c@, j));
                    }
                }
            }
            return false;
        }
        i = i + 1;
    }
    proof {
        assert forall|j: int| !class_token_at(s@, c@, j) by {
            if 0 <= j <= slen - clen {
            } else {
                assert(!occurs_at(s@, c@, j));
            }
        }
    }
    false
}

fn kind_matches(n: &HtmlNode, k: &QueryKind, class_name: &String) -> (r: bool)
    requires
        class_name@ == "class"@,
    ensures
        r == matches_kind(n@, k@),
{
    let ghost attrsv = n@.attrs;
    proof {
        assert forall|i: int| 0 <= i < n.attrs@.len() implies attrsv[i] == (
        #[trigger] n.attrs@[i].0@,
        n.attrs@[i].1@,
        ) by {
            assert(attrsv[i] == (n.attrs@[i].0@, n.attrs@[i].1@));
        }
    }
    match k {
        QueryKind::Tag(t) => n.tag == *t,
        QueryKind::Class(c) => {
            match attr_value(&n.attrs, class_name, Ghost(attrsv)) {
                Some(classes) => has_class(classes.as_str(), c.as_str()),
                None => false,
            }
        },
        QueryKind::Attr { name, value } => {
            match attr_value(&n.attrs, name, Ghost(attrsv)) {
                Some(v) => *v == *value,
                None => false,
            }
        },
    }
}

fn query_matches(n: &HtmlNode, q: &Query, class_name: &String) -> (r: bool)
    requires
        class_name@ == "class"@,
    ensures
        r == matches_query(n@, q@),
{
    if !kind_matches(n, &q.kind, class_name) {
        return false;
    }
    match &q.ignore {
        None => true,
        Some(igs) => {
            let ghost igsv = q@.ignore->0;
            let mut i: usize = 0;
            while i < igs.len()
                invariant
                    class_name@ == "class"@,
                    q@.ignore matches Some(g) && g == igsv,
                    igsv.len() == igs@.len(),
                    forall|j: int| 0 <= j < igs@.len() ==> igsv[j] == (#[trigger] igs@[j])@,
                    i <= igs.len(),
                    matches_kind(n@, q@.kind),
                    forall|j: int| 0 <= j < i ==> !matches_kind(n@, #[trigger] igsv[j]),
                decreases igs.len() - i,
            {
                if kind_matches(n, &igs[i], class_name) {
                    return false;
                }
                i = i + 1;
            }
            true
        },
    }
}

fn find_in_node(n: &HtmlNode, q: &Query, class_name: &String, out: &mut Vec<HtmlNode>)
    requires
        class_name@ == "class"@,
    ensures
        node_views(final(out)@) == node_views(old(out)@) + find_in(n@, q@),
    decreases *n,
{
    let ghost init = node_views(out@);
    if query_matches(n, q, class_name) {
        let c = clone_node(n);
        out.push(c);
        proof {
            assert(node_views(out@) =~= init + seq![n@]);
        }
    } else {
        proof {
            assert(init + Seq::<NodeV>::empty() =~= init);
        }
    }
    let ghost mid = node_views(out@);
    let ghost matchpart = if matches_query(n@, q@) {
        seq![n@]
    } else {
        Seq::<NodeV>::empty()
    };
    let ghost cv = n@.children;
    proof {
        assert(cv.skip(0) =~= cv);
        assert forall|j: int| 0 <= j < n.children@.len() implies cv[j] == (
        #[trigger] n.children@[j])@ by {
            assert(cv[j] == node_view(n.children@[j]));
        }
    }
    let mut i: usize = 0;
    while i < n.children.len()
        invariant
            class_name@ == "class"@,
            cv == n@.children,
            cv.len() == n.children@.len(),
            forall|j: int| 0 <= j < n.children@.len() ==> cv[j] == (#[trigger] n.children@[j])@,
            i <= n.children.len(),
            node_views(out@) + find_in_list(cv.skip(i as int), q@) == mid + find_in_list(cv, q@),
        decreases n.children.len() - i,
    {
        proof {
            assert(cv.skip(i as int)[0] == cv[i as int]);
            assert(cv.skip(i as int).drop_first() =~= cv.skip(i + 1));
        }
        let ghost before = node_views(out@);
        find_in_node(&n.children[i], q, class_name, out);
        proof {
            assert((before + find_in(cv[i as int], q@)) + find_in_list(cv.skip(i + 1), q@) =~=
            before + (find_in(cv[i as int], q@) + find_in_list(cv.skip(i + 1), q@)));
        }
        i = i + 1;
    }
    proof {
        assert(cv.skip(cv.len() as int) =~= Seq::<NodeV>::empty());
        assert(node_views(out@) + Seq::<NodeV>::empty() =~= node_views(out@));
        assert(node_views(out@) =~= mid + find_in_list(cv, q@));
        assert(mid =~= init + matchpart);
        assert(init + (matchpart + find_in_list(cv, q@)) =~= (init + matchpart) + find_in_list(
            cv,
            q@,
        ));
    }
}

fn find_desc_node(n: &HtmlNode, q: &Query, class_name: &String, out: &mut Vec<HtmlNode>)
    requires
        class_name@ == "class"@,
    ensures
        node_views(final(out)@) == node_views(old(out)@) + find_in_list(n@.children, q@),
{
    let ghost init = node_views(out@);
    let ghost cv = n@.children;
    proof {
        assert(cv.skip(0) =~= cv);
        assert(init + Seq::<NodeV>::empty() =~= init);
        assert forall|j: int| 0 <= j < n.children@.len() implies cv[j] == (
        #[trigger] n.children@[j])@ by {
            assert(cv[j] == node_view(n.children@[j]));
        }
    }
    let mut i: usize = 0;
    while i < n.children.len()
        invariant
            class_name@ == "class"@,
            cv == n@.children,
            cv.len() == n.children@.len(),
            forall|j: int| 0 <= j < n.children@.len() ==> cv[j] == (#[trigger] n.children@[j])@,
            i <= n.children.len(),
            node_views(out@) + find_in_list(cv.skip(i as int), q@) == init + find_in_list(cv, q@),
        decreases n.children.len() - i,
    {
        proof {
            assert(cv.skip(i as int)[0] == cv[i as int]);
            assert(cv.skip(i as int).drop_first() =~= cv.skip(i + 1));
        }
        let ghost before = node_views(out@);
        find_in_node(&n.children[i], q, class_name, out);
        proof {
            assert((before + find_in(cv[i as int], q@)) + find_in_list(cv.skip(i + 1), q@) =~=
            before + (find_in(cv[i as int], q@) + find_in_list(cv.skip(i + 1), q@)));
        }
        i = i + 1;
    }
    proof {
        assert(cv.skip(cv.len() as int) =~= Seq::<NodeV>::empty());
        assert(node_views(out@) + Seq::<NodeV>::empty() =~= node_views(out@));
    }
}

fn find_level(ns: &Vec<HtmlNode>, q: &Query, class_name: &String) -> (r: Vec<HtmlNode>)
    requires
        class_name@ == "class"@,
    ensures
        node_views(r@) == find_desc_each(node_views(ns@), q@),
{
    let ghost nsv = node_views(ns@);
    let mut out: Vec<HtmlNode> = Vec::new();
    proof {
        assert(nsv.skip(0) =~= nsv);
        assert(node_views(out@) =~= Seq::<NodeV>::empty());
        assert(node_views(out@) + find_desc_each(nsv, q@) =~= find_desc_each(nsv, q@));
    }
    let mut i: usize = 0;
    while i < ns.len()
        invariant
            class_name@ == "class"@,
            nsv == node_views(ns@),
            i <= ns.len(),
            node_views(out@) + find_desc_each(nsv.skip(i as int), q@) == find_desc_each(nsv, q@),
        decreases ns.len() - i,
    {
        proof {
            assert(nsv.skip(i as int)[0] == nsv[i as int]);
            assert(nsv[i as int] == ns@[i as int]@);
            assert(nsv.skip(i as int).drop_first() =~= nsv.skip(i + 1));
        }
        let ghost before = node_views(out@);
        find_desc_node(&ns[i], q, class_name, &mut out);
        proof {
            assert((before + find_in_list(nsv[i as int].children, q@)) + find_desc_each(
                nsv.skip(i + 1),
                q@,
            ) =~= before + (find_in_list(nsv[i as int].children, q@) + find_desc_each(
                nsv.skip(i + 1),
                q@,
            )));
        }
        i = i + 1;
    }
    proof {
        assert(nsv.skip(nsv.len() as int) =~= Seq::<NodeV>::empty());
        assert(node_views(out@) + Seq::<NodeV>::empty() =~= node_views(out@));
    }
    out
}

/// The candidates of the descendant chain `qs` started at the nodes of
/// `start`, cloned out of the tree in document order.
fn find_chain_exec(start: Vec<HtmlNode>, qs: &Vec<Query>, class_name: &String) -> (r: Vec<
    HtmlNode,
>)
    requires
        class_name@ == "class"@,
    ensures
        node_views(r@) == find_chain(node_views(start@), qs@.map_values(|q: Query| q@)),
{
    let ghost qsv = qs@.map_values(|q: Query| q@);
    let ghost target = find_chain(node_views(start@), qsv);
    let mut cur = start;
    let mut level: usize = 0;
    proof {
        assert(qsv.skip(0) =~= qsv);
    }
    while level < qs.len()
        invariant
            class_name@ == "class"@,
            qsv == qs@.map_values(|q: Query| q@),
            level <= qs.len(),
            find_chain(node_views(cur@), qsv.skip(level as int)) == target,
        decreases qs.len() - level,
    {
        proof {
            assert(qsv.skip(level as int)[0] == qsv[level as int]);
            assert(qsv[level as int] == qs@[level as int]@);
            assert(qsv.skip(level as int).drop_first() =~= qsv.skip(level + 1));
        }
        cur = find_level(&cur, &qs[level], class_name);
        level = level + 1;
    }
    proof {
        assert(qsv.skip(qsv.len() as int) =~= Seq::<QueryV>::empty());
    }
    cur
}

/// The text content of a node: its own text followed by its children's
/// text contents, in document order, concatenated without separators.
pub open spec fn full_text(n: NodeV) -> Seq<char>
    decreases n, 1int,
{
    n.text + concat_texts(n.children)
}

/// The concatenated text contents of the nodes of `ns`.
pub open spec fn concat_texts(ns: Seq<NodeV>) -> Seq<char>
    decreases ns, 0int,
{
    if ns.len() == 0 {
        Seq::empty()
    } else {
        full_text(ns[0]) + concat_texts(ns.drop_first())
    }
}

fn full_text_of(n: &HtmlNode) -> (r: String)
    ensures
        r@ == full_text(n@),
    decreases *n,
{
    let mut out = n.text.clone();
    let ghost cv = n@.children;
    proof {
        assert(cv.skip(0) =~= cv);
        assert forall|j: int| 0 <= j < n.children@.len() implies cv[j] == (
        #[trigger] n.children@[j])@ by {
            assert(cv[j] == node_view(n.children@[j]));
        }
    }
    let mut i: usize = 0;
    while i < n.children.len()
        invariant
            cv == n@.children,
            cv.len() == n.children@.len(),
            forall|j: int| 0 <= j < n.children@.len() ==> cv[j] == (#[trigger] n.children@[j])@,
            i <= n.children.len(),
            out@ + concat_texts(cv.skip(i as int)) == full_text(n@),
        decreases n.children.len() - i,
    {
        proof {
            assert(cv.skip(i as int)[0] == cv[i as int]);
            assert(cv.skip(i as int).drop_first() =~= cv.skip(i + 1));
        }
        let ghost before = out@;
        let piece = full_text_of(&n.children[i]);
        out.append(piece.as_str());
        proof {
            assert((before + full_text(cv[i as int])) + concat_texts(cv.skip(i + 1)) =~= before + (
            full_text(cv[i as int]) + concat_texts(cv.skip(i + 1))));
        }
        i = i + 1;
    }
    proof {
        assert(cv.skip(cv.len() as int) =~= Seq::<NodeV>::empty());
        assert(out@ + Seq::<char>::empty() =~= out@);
    }
    out
}

/// An error of the HTML extraction engine, each bound to the item that
/// caused it by aborting the whole extraction.
pub enum HtmlError {
    /// The required link query matched nothing for an item.
    UrlNotFound,
    /// An extracted link was not a valid URL; carries the offending text.
    InvalidUrl(String),
    /// The id query matched nothing for an item.
    IdNotFound,
    /// The image query matched nothing and was not marked optional.
    ImageNotFound,
    /// A regex of a query did not compile; carries the pattern.
    InvalidRegexPattern(String),
    /// A date id did not parse; carries the offending text.
    InvalidTimeFormat(String),
}

/// The mathematical view of an [`HtmlError`].
#[verifier::ext_equal]
pub enum HtmlErrorV {
    /// The required link query matched nothing.
    UrlNotFound,
    /// An extracted link was not a valid URL.
    InvalidUrl(Seq<char>),
    /// The id query matched nothing.
    IdNotFound,
    /// The image query matched nothing and was not optional.
    ImageNotFound,
    /// A regex of a query did not compile.
    InvalidRegexPattern(Seq<char>),
    /// A date id did not parse.
    InvalidTimeFormat(Seq<char>),
}

impl View for HtmlError {
    type V = HtmlErrorV;

    open spec fn view(&self) -> HtmlErrorV {
        match self {
            HtmlError::UrlNotFound => HtmlErrorV::UrlNotFound,
            HtmlError::InvalidUrl(u) => HtmlErrorV::InvalidUrl(u@),
            HtmlError::IdNotFound => HtmlErrorV::IdNotFound,
            HtmlError::ImageNotFound => HtmlErrorV::ImageNotFound,
            HtmlError::InvalidRegexPattern(r) => HtmlErrorV::InvalidRegexPattern(r@),
            HtmlError::InvalidTimeFormat(t) => HtmlErrorV::InvalidTimeFormat(t@),
        }
    }
}

/// How an item's id is interpreted.
pub enum IdQueryKind {
    /// The extracted text is the id as it stands.
    String,
    /// The extracted text is an RFC 3339 date; the id is its Unix
    /// timestamp in seconds.
    Date,
}

/// The mathematical view of an [`IdQueryKind`].
#[verifier::ext_equal]
pub enum IdQueryKindV {
    /// The text is the id.
    String,
    /// The text is a date, normalized to epoch seconds.
    Date,
}

impl View for IdQueryKind {
    type V = IdQueryKindV;

    open spec fn view(&self) -> IdQueryKindV {
        match self {
            IdQueryKind::String => IdQueryKindV::String,
            IdQueryKind::Date => IdQueryKindV::Date,
        }
    }
}

/// The query for an item's id.
pub struct IdQuery {
    /// How the extracted text is interpreted.
    pub kind: IdQueryKind,
    /// Where the id is found, scoped to the item.
    pub inner: QueryData,
}

/// The mathematical view of an [`IdQuery`].
#[verifier::ext_equal]
pub struct IdQueryV {
    /// How the extracted text is interpreted.
    pub kind: IdQueryKindV,
    /// Where the id is found.
    pub inner: QueryDataV,
}

impl View for IdQuery {
    type V = IdQueryV;

    open spec fn view(&self) -> IdQueryV {
        IdQueryV { kind: self.kind@, inner: self.inner@ }
    }
}

/// A query for one body text, optionally prefixed.
pub struct TextQuery {
    /// Text put before the extracted string, if any.
    pub prepend: Option<String>,
    /// Where the text is found, scoped to the item.
    pub inner: QueryData,
}

/// The mathematical view of a [`TextQuery`].
#[verifier::ext_equal]
pub struct TextQueryV {
    /// Text put before the extracted string, if any.
    pub prepend: Option<Seq<char>>,
    /// Where the text is found.
    pub inner: QueryDataV,
}

impl View for TextQuery {
    type V = TextQueryV;

    open spec fn view(&self) -> TextQueryV {
        TextQueryV {
            prepend: match &self.prepend {
                Some(ps) => Some(ps@),
                None => None,
            },
            inner: self.inner@,
        }
    }
}

/// The query for an item's link, optionally prefixed.
pub struct LinkQuery {
    /// Text put before the extracted URL text, if any.
    pub prepend: Option<String>,
    /// Where the link is found, scoped to the item.
    pub inner: QueryData,
}

/// The mathematical view of a [`LinkQuery`].
#[verifier::ext_equal]
pub struct LinkQueryV {
    /// Text put before the extracted URL text, if any.
    pub prepend: Option<Seq<char>>,
    /// Where the link is found.
    pub inner: QueryDataV,
}

impl View for LinkQuery {
    type V = LinkQueryV;

    open spec fn view(&self) -> LinkQueryV {
        LinkQueryV {
            prepend: match &self.prepend {
                Some(ps) => Some(ps@),
                None => None,
            },
            inner: self.inner@,
        }
    }
}

/// The query for an item's image.
pub struct ImageQuery {
    /// Where the image URL is found, scoped to the item.
    pub inner: QueryData,
    /// When set, a missing image is not an error.
    pub optional: bool,
}

/// The mathematical view of an [`ImageQuery`].
#[verifier::ext_equal]
pub struct ImageQueryV {
    /// Where the image URL is found.
    pub inner: QueryDataV,
    /// When set, a missing image is not an error.
    pub optional: bool,
}

impl View for ImageQuery {
    type V = ImageQueryV;

    open spec fn view(&self) -> ImageQueryV {
        ImageQueryV { inner: self.inner@, optional: self.optional }
    }
}

/// The HTML extraction query: where items are in the document and which of
/// their parts become entry fields.
pub struct Html {
    /// The descendant chain to the item nodes.
    pub itemq: Vec<Query>,
    /// The query of the optional title.
    pub titleq: Option<QueryData>,
    /// The queries whose texts are paragraph-joined into the body.
    pub textq: Vec<TextQuery>,
    /// The query of the required id.
    pub idq: IdQuery,
    /// The query of the required link.
    pub linkq: LinkQuery,
    /// The query of the optional image.
    pub imgq: Option<ImageQuery>,
}

/// The mathematical view of an [`Html`] query.
#[verifier::ext_equal]
pub struct HtmlV {
    /// The descendant chain to the item nodes.
    pub itemq: Seq<QueryV>,
    /// The query of the optional title.
    pub titleq: Option<QueryDataV>,
    /// The text queries.
    pub textq: Seq<TextQueryV>,
    /// The query of the required id.
    pub idq: IdQueryV,
    /// The query of the required link.
    pub linkq: LinkQueryV,
    /// The query of the optional image.
    pub imgq: Option<ImageQueryV>,
}

impl View for Html {
    type V = HtmlV;

    open spec fn view(&self) -> HtmlV {
        HtmlV {
            itemq: self.itemq@.map_values(|q: Query| q@),
            titleq: match &self.titleq {
                Some(qd) => Some(qd@),
                None => None,
            },
            textq: self.textq@.map_values(|t: TextQuery| t@),
            idq: self.idq@,
            linkq: self.linkq@,
            imgq: match &self.imgq {
                Some(iq) => Some(iq@),
                None => None,
            },
        }
    }
}

/// The data read from a matched node: its text content or the named
/// attribute; `None` when the attribute is absent.
pub open spec fn raw_data_of(n: NodeV, loc: DataLocationV) -> Option<Seq<char>> {
    match loc {
        DataLocationV::Text => Some(full_text(n)),
        DataLocationV::Attr(a) => attr_of(n.attrs, a),
    }
}

/// The data of a matched node after the query's regex replacement, when one
/// is configured; an invalid pattern is an error.
pub open spec fn data_of(n: NodeV, qd: QueryDataV) -> Result<Option<Seq<char>>, HtmlErrorV> {
    match raw_data_of(n, qd.data_location) {
        None => Ok(None),
        Some(s) => match qd.regex {
            None => Ok(Some(s)),
            Some(r) => match regex_replace_of(r.re, r.replace_with, s) {
                Some(t) => Ok(Some(t)),
                None => Err(HtmlErrorV::InvalidRegexPattern(r.re)),
            },
        },
    }
}

/// The data of the first node matched by the query chain within the item's
/// subtree; `None` when nothing matches or the matched node lacks the
/// queried attribute.
pub open spec fn field_of(item: NodeV, qd: QueryDataV) -> Result<Option<Seq<char>>, HtmlErrorV> {
    let c = find_chain(seq![item], qd.query);
    if c.len() == 0 {
        Ok(None)
    } else {
        data_of(c[0], qd)
    }
}

/// `s` with the query's prepend text put in front, when one is configured.
pub open spec fn prepended(prepend: Option<Seq<char>>, s: Seq<char>) -> Seq<char> {
    match prepend {
        Some(p) => p + s,
        None => s,
    }
}

/// The extracted title, when a title query is configured and matches.
pub open spec fn title_of(item: NodeV, titleq: Option<QueryDataV>) -> Result<
    Option<Seq<char>>,
    HtmlErrorV,
> {
    match titleq {
        None => Ok(None),
        Some(qd) => field_of(item, qd),
    }
}

/// The texts contributed by the text queries, in query order; a query that
/// matches nothing contributes nothing.
pub open spec fn texts_of(item: NodeV, textq: Seq<TextQueryV>) -> Result<
    Seq<Seq<char>>,
    HtmlErrorV,
>
    decreases textq.len(),
{
    if textq.len() == 0 {
        Ok(Seq::empty())
    } else {
        match field_of(item, textq[0].inner) {
            Err(e) => Err(e),
            Ok(opt) => match texts_of(item, textq.drop_first()) {
                Err(e) => Err(e),
                Ok(rest) => match opt {
                    Some(t) => Ok(seq![prepended(textq[0].prepend, t)] + rest),
                    None => Ok(rest),
                },
            },
        }
    }
}

/// The extracted id: the text under the id query, as it stands or, for a
/// date id, normalized to its Unix timestamp in seconds.  A missing id is
/// a hard error.
pub open spec fn id_of(item: NodeV, idq: IdQueryV) -> Result<Seq<char>, HtmlErrorV> {
    match field_of(item, idq.inner) {
        Err(e) => Err(e),
        Ok(None) => Err(HtmlErrorV::IdNotFound),
        Ok(Some(s)) => match idq.kind {
            IdQueryKindV::String => Ok(s),
            IdQueryKindV::Date => match rfc3339_secs_of(s) {
                Some(t) => Ok(int_rep(t as int)),
                None => Err(HtmlErrorV::InvalidTimeFormat(s)),
            },
        },
    }
}

/// The extracted link: the prepended text under the link query, parsed as
/// a URL.  A missing or invalid link is a hard error.
pub open spec fn link_of(item: NodeV, linkq: LinkQueryV) -> Result<Seq<char>, HtmlErrorV> {
    match field_of(item, linkq.inner) {
        Err(e) => Err(e),
        Ok(None) => Err(HtmlErrorV::UrlNotFound),
        Ok(Some(s)) => {
            let w = prepended(linkq.prepend, s);
            match url_of(w) {
                Some(u) => Ok(u),
                None => Err(HtmlErrorV::InvalidUrl(w)),
            }
        },
    }
}

/// The extracted image URL.  A missing image is an error only when the
/// query is not marked optional; an invalid URL is always an error.
pub open spec fn img_of(item: NodeV, imgq: Option<ImageQueryV>) -> Result<
    Option<Seq<char>>,
    HtmlErrorV,
> {
    match imgq {
        None => Ok(None),
        Some(iq) => match field_of(item, iq.inner) {
            Err(e) => Err(e),
            Ok(None) => if iq.optional {
                Ok(None)
            } else {
                Err(HtmlErrorV::ImageNotFound)
            },
            Ok(Some(s)) => match url_of(s) {
                Some(u) => Ok(Some(u)),
                None => Err(HtmlErrorV::InvalidUrl(s)),
            },
        },
    }
}

/// The entry extracted from one item: title, paragraph-joined body, id,
/// link and image, evaluated in that order; the first error aborts.
pub open spec fn extract_item(item: NodeV, h: HtmlV) -> Result<EntryV, HtmlErrorV> {
    match title_of(item, h.titleq) {
        Err(e) => Err(e),
        Ok(title) => match texts_of(item, h.textq) {
            Err(e) => Err(e),
            Ok(texts) => match id_of(item, h.idq) {
                Err(e) => Err(e),
                Ok(id) => match link_of(item, h.linkq) {
                    Err(e) => Err(e),
                    Ok(link) => match img_of(item, h.imgq) {
                        Err(e) => Err(e),
                        Ok(img) => Ok(
                            EntryV {
                                id: Some(id),
                                raw_contents: None,
                                msg: MessageV {
                                    title,
                                    body: Some(join_spec(texts, "\n\n"@)),
                                    link: Some(link),
                                    media: match img {
                                        Some(u) => Some(seq![MediaV::Photo(u)]),
                                        None => None,
                                    },
                                },
                            },
                        ),
                    },
                },
            },
        },
    }
}

/// The entries extracted from the items, in document order; the first
/// failing item aborts the whole batch.
pub open spec fn extract_items(items: Seq<NodeV>, h: HtmlV) -> Result<Seq<EntryV>, HtmlErrorV>
    decreases items.len(),
{
    if items.len() == 0 {
        Ok(Seq::empty())
    } else {
        match extract_item(items[0], h) {
            Err(e) => Err(e),
            Ok(e) => match extract_items(items.drop_first(), h) {
                Err(er) => Err(er),
                Ok(rest) => Ok(seq![e] + rest),
            },
        }
    }
}

/// The extraction result for a whole document: the item chain yields the
/// candidates, and each candidate yields one entry.
pub open spec fn html_extract(doc: NodeV, h: HtmlV) -> Result<Seq<EntryV>, HtmlErrorV> {
    match extract_items(find_chain(seq![doc], h.itemq), h) {
        Err(e) => Err(e),
        Ok(out) => Ok(out),
    }
}

fn ghost_attrs_setup(n: &HtmlNode) -> (r: Ghost<Seq<(Seq<char>, Seq<char>)>>)
    ensures
        r@ == n@.attrs,
        r@.len() == n.attrs@.len(),
        forall|i: int| 0 <= i < n.attrs@.len() ==> r@[i] == (#[trigger] n.attrs@[i].0@, n.attrs@[i].1@),
{
    let ghost attrsv = n@.attrs;
    proof {
        assert forall|i: int| 0 <= i < n.attrs@.len() implies attrsv[i] == (
        #[trigger] n.attrs@[i].0@,
        n.attrs@[i].1@,
        ) by {
            assert(attrsv[i] == (n.attrs@[i].0@, n.attrs@[i].1@));
        }
    }
    Ghost(attrsv)
}

fn extract_field(item: &HtmlNode, qd: &QueryData, class_name: &String) -> (r: Result<
    Option<String>,
    HtmlError,
>)
    requires
        class_name@ == "class"@,
    ensures
        match r {
            Ok(opt) => field_of(item@, qd@) == Ok::<_, HtmlErrorV>(
                match opt {
                    Some(t) => Some(t@),
                    None => None,
                },
            ),
            Err(e) => field_of(item@, qd@) == Err::<Option<Seq<char>>, _>(e@),
        },
{
    let mut start: Vec<HtmlNode> = Vec::new();
    let d = clone_node(item);
    start.push(d);
    proof {
        assert(node_views(start@) =~= seq![item@]);
    }
    let c = find_chain_exec(start, &qd.query, class_name);
    let ghost cspec = find_chain(seq![item@], qd@.query);
    proof {
        assert(node_views(c@) == cspec);
    }
    if c.len() == 0 {
        return Ok(None);
    }
    let n = &c[0];
    proof {
        assert(n@ == cspec[0]);
    }
    let raw: Option<String> = match &qd.data_location {
        DataLocation::Text => Some(full_text_of(n)),
        DataLocation::Attr(a) => {
            let attrsv = ghost_attrs_setup(n);
            match attr_value(&n.attrs, a, attrsv) {
                Some(v) => Some(v.clone()),
                None => None,
            }
        },
    };
    proof {
        match &raw {
            Some(sv) => {
                assert(raw_data_of(cspec[0], qd@.data_location) == Some(sv@));
            },
            None => {
                assert(raw_data_of(cspec[0], qd@.data_location) is None);
            },
        }
    }
    match raw {
        None => Ok(None),
        Some(sv) => match &qd.regex {
            None => Ok(Some(sv)),
            Some(r) => match regex_replace(r.re.as_str(), r.replace_with.as_str(), sv.as_str()) {
                Some(t) => Ok(Some(t)),
                None => Err(HtmlError::InvalidRegexPattern(r.re.clone())),
            },
        },
    }
}

fn prepend_str(prepend: &Option<String>, s: String) -> (r: String)
    ensures
        r@ == prepended(
            match prepend {
                Some(p) => Some(p@),
                None => None,
            },
            s@,
        ),
{
    match prepend {
        Some(p) => {
            let mut out = p.clone();
            out.append(s.as_str());
            out
        },
        None => s,
    }
}

fn extract_texts(item: &HtmlNode, h: &Html, class_name: &String) -> (r: Result<
    Vec<String>,
    HtmlError,
>)
    requires
        class_name@ == "class"@,
    ensures
        match r {
            Ok(ts) => texts_of(item@, h@.textq) == Ok::<_, HtmlErrorV>(
                crate::text::views_of(ts@),
            ),
            Err(e) => texts_of(item@, h@.textq) == Err::<Seq<Seq<char>>, _>(e@),
        },
{
    let ghost tqs = h@.textq;
    let mut out: Vec<String> = Vec::new();
    proof {
        assert(tqs.skip(0) =~= tqs);
        assert(crate::text::views_of(out@) =~= Seq::<Seq<char>>::empty());
        match texts_of(item@, tqs) {
            Ok(rest) => {
                assert(crate::text::views_of(out@) + rest =~= rest);
            },
            Err(_) => {},
        }
    }
    let mut i: usize = 0;
    while i < h.textq.len()
        invariant
            class_name@ == "class"@,
            tqs == h@.textq,
            i <= h.textq.len(),
            texts_of(item@, tqs) == (match texts_of(item@, tqs.skip(i as int)) {
                Ok(rest) => Ok::<_, HtmlErrorV>(crate::text::views_of(out@) + rest),
                Err(e) => Err::<Seq<Seq<char>>, _>(e),
            }),
        decreases h.textq.len() - i,
    {
        proof {
            assert(tqs.skip(i as int)[0] == tqs[i as int]);
            assert(tqs[i as int] == h.textq@[i as int]@);
            assert(tqs.skip(i as int).drop_first() =~= tqs.skip(i + 1));
        }
        let ghost prev = crate::text::views_of(out@);
        match extract_field(item, &h.textq[i].inner, class_name) {
            Ok(Some(t)) => {
                let w = prepend_str(&h.textq[i].prepend, t);
                out.push(w);
                proof {
                    assert(crate::text::views_of(out@) =~= prev.push(out@.last()@));
                    match texts_of(item@, tqs.skip(i + 1)) {
                        Ok(rest) => {
                            assert(prev + (seq![out@.last()@] + rest) =~= crate::text::views_of(
                                out@,
                            ) + rest);
                        },
                        Err(_) => {},
                    }
                }
            },
            Ok(None) => (),
            Err(e) => {
                return Err(e);
            },
        }
        i = i + 1;
    }
    proof {
        assert(tqs.skip(tqs.len() as int) =~= Seq::<TextQueryV>::empty());
        assert(crate::text::views_of(out@) + Seq::<Seq<char>>::empty() =~= crate::text::views_of(
            out@,
        ));
    }
    Ok(out)
}

fn extract_one_item(item: &HtmlNode, h: &Html, class_name: &String) -> (r: Result<
    Entry,
    HtmlError,
>)
    requires
        class_name@ == "class"@,
    ensures
        match r {
            Ok(e) => extract_item(item@, h@) == Ok::<_, HtmlErrorV>(e@),
            Err(e) => extract_item(item@, h@) == Err::<EntryV, _>(e@),
        },
{
    let title = match &h.titleq {
        None => None,
        Some(qd) => match extract_field(item, qd, class_name) {
            Ok(t) => t,
            Err(e) => {
                return Err(e);
            },
        },
    };
    let texts = match extract_texts(item, h, class_name) {
        Ok(t) => t,
        Err(e) => {
            return Err(e);
        },
    };
    let id = match extract_field(item, &h.idq.inner, class_name) {
        Ok(None) => {
            return Err(HtmlError::IdNotFound);
        },
        Ok(Some(t)) => match &h.idq.kind {
            IdQueryKind::String => t,
            IdQueryKind::Date => match parse_rfc3339_secs(t.as_str()) {
                Some(secs) => crate::text::i64_to_string(secs),
                None => {
                    return Err(HtmlError::InvalidTimeFormat(t));
                },
            },
        },
        Err(e) => {
            return Err(e);
        },
    };
    let link = match extract_field(item, &h.linkq.inner, class_name) {
        Ok(None) => {
            return Err(HtmlError::UrlNotFound);
        },
        Ok(Some(t)) => {
            let w = prepend_str(&h.linkq.prepend, t);
            match Url::parse(w.as_str()) {
                Some(u) => u,
                None => {
                    return Err(HtmlError::InvalidUrl(w));
                },
            }
        },
        Err(e) => {
            return Err(e);
        },
    };
    let img = match &h.imgq {
        None => None,
        Some(iq) => match extract_field(item, &iq.inner, class_name) {
            Ok(None) => {
                if iq.optional {
                    None
                } else {
                    return Err(HtmlError::ImageNotFound);
                }
            },
            Ok(Some(t)) => match Url::parse(t.as_str()) {
                Some(u) => Some(u),
                None => {
                    return Err(HtmlError::InvalidUrl(t));
                },
            },
            Err(e) => {
                return Err(e);
            },
        },
    };
    let body = crate::text::join(&texts, "\n\n");
    let media = match img {
        Some(u) => {
            let mut ms: Vec<Media> = Vec::new();
            ms.push(Media::Photo(u));
            Some(ms)
        },
        None => None,
    };
    let e = Entry {
        id: Some(id),
        raw_contents: None,
        msg: Message { title, body: Some(body), link: Some(link), media },
    };
    proof {
        assert(extract_item(item@, h@) matches Ok(ev) && ev =~~= e@);
    }
    Ok(e)
}

impl Html {
    /// Extracts the configured items from the document.  The item chain
    /// yields the candidate nodes in document order; each yields one entry
    /// with its title, paragraph-joined body, id, link and image.  A
    /// missing id, a missing or invalid link, an invalid regex or date, or
    /// a missing non-optional image is a hard error for its item and
    /// aborts the whole batch, first item first.
    pub fn parse(&self, doc: &HtmlNode) -> (r: Result<Vec<Entry>, HtmlError>)
        ensures
            match r {
                Ok(out) => html_extract(doc@, self@) == Ok::<_, HtmlErrorV>(entry_views(out@)),
                Err(e) => html_extract(doc@, self@) == Err::<Seq<EntryV>, _>(e@),
            },
    {
        let class_name = String::from_str("class");
        let mut start: Vec<HtmlNode> = Vec::new();
        let d = clone_node(doc);
        start.push(d);
        proof {
            assert(node_views(start@) =~= seq![doc@]);
        }
        let items = find_chain_exec(start, &self.itemq, &class_name);
        let ghost itemsv = find_chain(seq![doc@], self@.itemq);
        proof {
            assert(node_views(items@) == itemsv);
        }
        let mut out: Vec<Entry> = Vec::new();
        proof {
            assert(itemsv.skip(0) =~= itemsv);
            assert(entry_views(out@) =~= Seq::<EntryV>::empty());
            match extract_items(itemsv, self@) {
                Ok(rest) => {
                    assert(entry_views(out@) + rest =~= rest);
                },
                Err(_) => {},
            }
        }
        let mut i: usize = 0;
        while i < items.len()
            invariant
                class_name@ == "class"@,
                itemsv == node_views(items@),
                itemsv == find_chain(seq![doc@], self@.itemq),
                i <= items.len(),
                extract_items(itemsv, self@) == (match extract_items(
                    itemsv.skip(i as int),
                    self@,
                ) {
                    Ok(rest) => Ok::<_, HtmlErrorV>(entry_views(out@) + rest),
                    Err(e) => Err::<Seq<EntryV>, _>(e),
                }),
            decreases items.len() - i,
        {
            proof {
                assert(itemsv.skip(i as int)[0] == itemsv[i as int]);
                assert(itemsv[i as int] == items@[i as int]@);
                assert(itemsv.skip(i as int).drop_first() =~= itemsv.skip(i + 1));
            }
            let ghost prev = entry_views(out@);
            match extract_one_item(&items[i], self, &class_name) {
                Ok(e) => {
                    out.push(e);
                    proof {
                        assert(entry_views(out@) =~= prev.push(out@.last()@));
                        match extract_items(itemsv.skip(i + 1), self@) {
                            Ok(rest) => {
                                assert(prev + (seq![out@.last()@] + rest) =~= entry_views(out@)
                                    + rest);
                            },
                            Err(_) => {},
                        }
                    }
                },
                Err(e) => {
                    proof {
                        assert(extract_items(itemsv.skip(i as int), self@) == Err::<
                            Seq<EntryV>,
                            _,
                        >(e@));
                        assert(extract_items(itemsv, self@) == Err::<Seq<EntryV>, _>(e@));
                    }
                    return Err(e);
                },
            }
            i = i + 1;
        }
        proof {
            assert(itemsv.skip(itemsv.len() as int) =~= Seq::<NodeV>::empty());
            assert(entry_views(out@) + Seq::<EntryV>::empty() =~= entry_views(out@));
        }
        Ok(out)
    }
}

} // verus!
