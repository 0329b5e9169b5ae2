//! The configured shape of an HTML extraction query.
//!
//! The configured matchers carry no ignore lists or regexes; those are
//! engine-level refinements left at their defaults here.

use vstd::prelude::*;

use crate::html::{DataLocationV, IdQueryKindV, IdQueryV, ImageQueryV, LinkQueryV, QueryDataV,
    QueryKindV, QueryV, TextQueryV};

verus! {

/// The configured matcher of one query level.
pub enum QueryKind {
    /// Match by tag name.
    Tag {
        /// The tag name.
        value: String,
    },
    /// Match by class.
    Class {
        /// The class name.
        value: String,
    },
    /// Match by attribute name and value.
    Attr {
        /// The attribute name.
        name: String,
        /// The required value.
        value: String,
    },
}

/// The engine matcher a configured matcher stands for.
pub open spec fn query_kind_spec(k: QueryKind) -> QueryKindV {
    match k {
        QueryKind::Tag { value } => QueryKindV::Tag(value@),
        QueryKind::Class { value } => QueryKindV::Class(value@),
        QueryKind::Attr { name, value } => QueryKindV::Attr { name: name@, value: value@ },
    }
}

impl QueryKind {
    /// The engine matcher this configuration stands for.
    pub fn parse(self) -> (r: crate::html::QueryKind)
        ensures
            r@ == query_kind_spec(self),
    {
        match self {
            QueryKind::Tag { value } => crate::html::QueryKind::Tag(value),
            QueryKind::Class { value } => crate::html::QueryKind::Class(value),
            QueryKind::Attr { name, value } => crate::html::QueryKind::Attr { name, value },
        }
    }
}

/// The configured data location of a query.
pub enum DataLocation {
    /// The node's text content.
    Text,
    /// The value of the named attribute.
    Attr {
        /// The attribute name.
        value: String,
    },
}

/// The engine data location a configured one stands for.
pub open spec fn data_location_spec(d: DataLocation) -> DataLocationV {
    match d {
        DataLocation::Text => DataLocationV::Text,
        DataLocation::Attr { value } => DataLocationV::Attr(value@),
    }
}

impl DataLocation {
    /// The engine data location this configuration stands for.
    pub fn parse(self) -> (r: crate::html::DataLocation)
        ensures
            r@ == data_location_spec(self),
    {
        match self {
            DataLocation::Text => crate::html::DataLocation::Text,
            DataLocation::Attr { value } => crate::html::DataLocation::Attr(value),
        }
    }
}

/// A configured data query: the matcher chain and the data location.
pub struct Query {
    /// The matcher chain, applied level by level.
    pub kind: Vec<QueryKind>,
    /// Where the data of the matched node is read from.
    pub data_location: DataLocation,
}

/// The engine query data a configured query stands for: each matcher
/// becomes one chain level without an ignore list, and no regex is
/// configured.
pub open spec fn query_spec(q: Query) -> QueryDataV {
    QueryDataV {
        query: q.kind@.map_values(
            |k: QueryKind| QueryV { kind: query_kind_spec(k), ignore: None },
        ),
        data_location: data_location_spec(q.data_location),
        regex: None,
    }
}

fn parse_kinds(ks: Vec<QueryKind>) -> (r: Vec<crate::html::Query>)
    ensures
        r@.map_values(|q: crate::html::Query| q@) == ks@.map_values(
            |k: QueryKind| QueryV { kind: query_kind_spec(k), ignore: None },
        ),
{
    let ghost kv = ks@;
    let mut out: Vec<crate::html::Query> = Vec::new();
    let mut rest = ks;
    while rest.len() > 0
        invariant
            out@.len() + rest@.len() == kv.len(),
            rest@ == kv.skip(out@.len() as int),
            out@.map_values(|q: crate::html::Query| q@) =~= kv.take(out@.len() as int).map_values(
                |k: QueryKind| QueryV { kind: query_kind_spec(k), ignore: None },
            ),
        decreases rest.len(),
    {
        let ghost k = out@.len() as int;
        proof {
            assert(rest@[0] == kv[k]);
        }
        let x = rest.remove(0);
        let ghost prev = out@.map_values(|q: crate::html::Query| q@);
        let parsed = crate::html::Query { kind: x.parse(), ignore: None };
        out.push(parsed);
        proof {
            assert(out@.map_values(|q: crate::html::Query| q@) =~= prev.push(
                QueryV { kind: query_kind_spec(kv[k]), ignore: None },
            ));
            assert(kv.take(k + 1).map_values(
                |k2: QueryKind| QueryV { kind: query_kind_spec(k2), ignore: None },
            ) =~= kv.take(k).map_values(
                |k2: QueryKind| QueryV { kind: query_kind_spec(k2), ignore: None },
            ).push(QueryV { kind: query_kind_spec(kv[k]), ignore: None }));
            assert(kv.skip(k).drop_first() =~= kv.skip(k + 1));
        }
    }
    proof {
        assert(kv.take(kv.len() as int) =~= kv);
    }
    out
}

impl Query {
    /// The engine query data this configuration stands for.
    pub fn parse(self) -> (r: crate::html::QueryData)
        ensures
            r@ == query_spec(self),
    {
        let Query { kind, data_location } = self;
        let r = crate::html::QueryData {
            query: parse_kinds(kind),
            data_location: data_location.parse(),
            regex: None,
        };
        proof {
            assert(r@ =~= query_spec(Query { kind: kind, data_location: data_location }));
        }
        r
    }
}

/// A configured text query: a data query with an optional prefix.
pub struct TextQuery {
    /// Text put before the extracted string, if any.
    pub prepend: Option<String>,
    /// The data query.
    pub inner: Query,
}

impl TextQuery {
    /// The engine text query this configuration stands for.
    pub fn parse(self) -> (r: crate::html::TextQuery)
        ensures
            r@ == (TextQueryV {
                prepend: match self.prepend {
                    Some(p) => Some(p@),
                    None => None,
                },
                inner: query_spec(self.inner),
            }),
    {
        let TextQuery { prepend, inner } = self;
        let r = crate::html::TextQuery { prepend, inner: inner.parse() };
        proof {
            assert(r@ =~= TextQueryV {
                prepend: match r.prepend {
                    Some(p) => Some(p@),
                    None => None,
                },
                inner: r.inner@,
            });
        }
        r
    }
}

/// The configured interpretation of an id.
pub enum IdQueryKind {
    /// The extracted text is the id.
    String,
    /// The extracted text is a date.
    Date,
}

impl IdQueryKind {
    /// The engine id interpretation this configuration names.
    pub fn parse(self) -> (r: crate::html::IdQueryKind)
        ensures
            (self is String <==> r is String),
            (self is Date <==> r is Date),
    {
        match self {
            IdQueryKind::String => crate::html::IdQueryKind::String,
            IdQueryKind::Date => crate::html::IdQueryKind::Date,
        }
    }
}

/// The configured id query.
pub struct IdQuery {
    /// How the extracted text is interpreted.
    pub kind: IdQueryKind,
    /// The data query.
    pub inner: Query,
}

impl IdQuery {
    /// The engine id query this configuration stands for.
    pub fn parse(self) -> (r: crate::html::IdQuery)
        ensures
            r@ == (IdQueryV {
                kind: match self.kind {
                    IdQueryKind::String => IdQueryKindV::String,
                    IdQueryKind::Date => IdQueryKindV::Date,
                },
                inner: query_spec(self.inner),
            }),
    {
        let IdQuery { kind, inner } = self;
        crate::html::IdQuery { kind: kind.parse(), inner: inner.parse() }
    }
}

/// The configured link query.
pub struct LinkQuery {
    /// Text put before the extracted URL text, if any.
    pub prepend: Option<String>,
    /// The data query.
    pub inner: Query,
}

impl LinkQuery {
    /// The engine link query this configuration stands for.
    pub fn parse(self) -> (r: crate::html::LinkQuery)
        ensures
            r@ == (LinkQueryV {
                prepend: match self.prepend {
                    Some(p) => Some(p@),
                    None => None,
                },
                inner: query_spec(self.inner),
            }),
    {
        let LinkQuery { prepend, inner } = self;
        let r = crate::html::LinkQuery { prepend, inner: inner.parse() };
        proof {
            assert(r@ =~= LinkQueryV {
                prepend: match r.prepend {
                    Some(p) => Some(p@),
                    None => None,
                },
                inner: r.inner@,
            });
        }
        r
    }
}

/// The configured image query: a link query with an optional marker.
pub struct ImageQuery {
    /// When set, a missing image is not an error; absent means required.
    pub optional: Option<bool>,
    /// The link query naming the image.
    pub inner: LinkQuery,
}

impl ImageQuery {
    /// The engine image query this configuration stands for: an absent
    /// marker means the image is required.
    pub fn parse(self) -> (r: crate::html::ImageQuery)
        ensures
            r@ == (ImageQueryV {
                inner: query_spec(self.inner.inner),
                optional: match self.optional {
                    Some(b) => b,
                    None => false,
                },
            }),
    {
        let ImageQuery { optional, inner } = self;
        let LinkQuery { prepend: _, inner: q } = inner;
        let opt = match optional {
            Some(b) => b,
            None => false,
        };
        crate::html::ImageQuery { inner: q.parse(), optional: opt }
    }
}

/// The configured shape of a whole HTML query.
pub struct Html {
    /// The matchers of the descendant chain to the items.
    pub itemq: Vec<QueryKind>,
    /// The query of the optional title.
    pub titleq: Option<Query>,
    /// The text queries.
    pub textq: Vec<TextQuery>,
    /// The id query.
    pub idq: IdQuery,
    /// The link query.
    pub linkq: LinkQuery,
    /// The image query, if one is configured.
    pub imgq: Option<ImageQuery>,
}

fn parse_text_queries(ts: Vec<TextQuery>) -> (r: Vec<crate::html::TextQuery>)
    ensures
        r@.map_values(|x: crate::html::TextQuery| x@) == ts@.map_values(
            |t: TextQuery| TextQueryV {
                prepend: match t.prepend {
                    Some(p) => Some(p@),
                    None => None,
                },
                inner: query_spec(t.inner),
            },
        ),
{
    let ghost tsv = ts@;
    let mut out: Vec<crate::html::TextQuery> = Vec::new();
    let mut rest = ts;
    while rest.len() > 0
        invariant
            out@.len() + rest@.len() == tsv.len(),
            rest@ == tsv.skip(out@.len() as int),
            out@.map_values(|x: crate::html::TextQuery| x@) =~= tsv.take(
                out@.len() as int,
            ).map_values(
                |t: TextQuery| TextQueryV {
                    prepend: match t.prepend {
                        Some(p) => Some(p@),
                        None => None,
                    },
                    inner: query_spec(t.inner),
                },
            ),
        decreases rest.len(),
    {
        let ghost k = out@.len() as int;
        proof {
            assert(rest@[0] == tsv[k]);
        }
        let t = rest.remove(0);
        let ghost prev = out@.map_values(|x: crate::html::TextQuery| x@);
        let p = t.parse();
        out.push(p);
        proof {
            let ghost f = |t2: TextQuery| TextQueryV {
                prepend: match t2.prepend {
                    Some(p2) => Some(p2@),
                    None => None,
                },
                inner: query_spec(t2.inner),
            };
            assert(out@.map_values(|x: crate::html::TextQuery| x@) =~= prev.push(f(tsv[k])));
            assert(tsv.take(k + 1).map_values(f) =~= tsv.take(k).map_values(f).push(f(tsv[k])));
            assert(tsv.skip(k).drop_first() =~= tsv.skip(k + 1));
        }
    }
    proof {
        assert(tsv.take(tsv.len() as int) =~= tsv);
    }
    out
}

impl Html {
    /// The engine query this configuration stands for.
    pub fn parse(self) -> (r: crate::html::Html)
        ensures
            r@.itemq == self.itemq@.map_values(
                |k: QueryKind| QueryV { kind: query_kind_spec(k), ignore: None },
            ),
            r@.titleq == (match self.titleq {
                Some(q) => Some(query_spec(q)),
                None => None::<QueryDataV>,
            }),
            r@.textq == self.textq@.map_values(
                |t: TextQuery| TextQueryV {
                    prepend: match t.prepend {
                        Some(p) => Some(p@),
                        None => None,
                    },
                    inner: query_spec(t.inner),
                },
            ),
            r@.idq == (IdQueryV {
                kind: match self.idq.kind {
                    IdQueryKind::String => IdQueryKindV::String,
                    IdQueryKind::Date => IdQueryKindV::Date,
                },
                inner: query_spec(self.idq.inner),
            }),
            r@.linkq == (LinkQueryV {
                prepend: match self.linkq.prepend {
                    Some(p) => Some(p@),
                    None => None,
                },
                inner: query_spec(self.linkq.inner),
            }),
            r@.imgq == (match self.imgq {
                Some(iq) => Some(
                    ImageQueryV {
                        inner: query_spec(iq.inner.inner),
                        optional: match iq.optional {
                            Some(b) => b,
                            None => false,
                        },
                    },
                ),
                None => None::<ImageQueryV>,
            }),
    {
        let Html { itemq, titleq, textq, idq, linkq, imgq } = self;
        let titleq2 = match titleq {
            Some(q) => Some(q.parse()),
            None => None,
        };
        let imgq2 = match imgq {
            Some(iq) => Some(iq.parse()),
            None => None,
        };
        crate::html::Html {
            itemq: parse_kinds(itemq),
            titleq: titleq2,
            textq: parse_text_queries(textq),
            idq: idq.parse(),
            linkq: linkq.parse(),
            imgq: imgq2,
        }
    }
}

} // verus!
