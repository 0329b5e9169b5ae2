//! The configured shape of a JSON extraction query.

use vstd::prelude::*;

use crate::json::TextQueryV;
use crate::text::views_of;

verus! {

/// The configured shape of a text query.
pub struct TextQuery {
    /// The key to read.
    pub string: String,
    /// Text put before the extracted string, if any.
    pub prepend: Option<String>,
    /// Text put after the extracted string, if any.
    pub append: Option<String>,
}

/// The engine view a configured text query stands for.
pub open spec fn text_query_spec(t: TextQuery) -> TextQueryV {
    TextQueryV {
        string: t.string@,
        prepend: match t.prepend {
            Some(p) => Some(p@),
            None => None,
        },
        append: match t.append {
            Some(a) => Some(a@),
            None => None,
        },
    }
}

impl TextQuery {
    /// The engine text query this configuration stands for.
    pub fn parse(self) -> (r: crate::json::TextQuery)
        ensures
            r@ == text_query_spec(self),
    {
        let r = crate::json::TextQuery {
            string: self.string,
            prepend: self.prepend,
            append: self.append,
        };
        proof {
            assert(r@ =~= text_query_spec(self));
        }
        r
    }
}

/// The configured shape of a whole JSON query.
pub struct Json {
    /// The path from the document root to the items.
    pub itemq: Vec<String>,
    /// The key of the title, if a title is extracted.
    pub titleq: Option<String>,
    /// The text queries, when any are configured.
    pub textq: Option<Vec<TextQuery>>,
    /// The key of the required id.
    pub idq: String,
    /// The query of the optional link.
    pub linkq: Option<TextQuery>,
    /// The path of the optional nested image.
    pub imgq: Option<Vec<String>>,
}

fn parse_text_queries(ts: Vec<TextQuery>) -> (r: Vec<crate::json::TextQuery>)
    ensures
        r@.map_values(|x: crate::json::TextQuery| x@) == ts@.map_values(
            |t: TextQuery| text_query_spec(t),
        ),
{
    let ghost tsv = ts@;
    let mut out: Vec<crate::json::TextQuery> = Vec::new();
    let mut rest = ts;
    while rest.len() > 0
        invariant
            out@.len() + rest@.len() == tsv.len(),
            rest@ == tsv.skip(out@.len() as int),
            out@.map_values(|x: crate::json::TextQuery| x@) =~= tsv.take(
                out@.len() as int,
            ).map_values(|t: TextQuery| text_query_spec(t)),
        decreases rest.len(),
    {
        let ghost k = out@.len() as int;
        proof {
            assert(rest@[0] == tsv[k]);
        }
        let t = rest.remove(0);
        let ghost prev = out@.map_values(|x: crate::json::TextQuery| x@);
        let p = t.parse();
        out.push(p);
        proof {
            assert(out@.map_values(|x: crate::json::TextQuery| x@) =~= prev.push(
                text_query_spec(tsv[k]),
            ));
            assert(tsv.take(k + 1).map_values(|t2: TextQuery| text_query_spec(t2)) =~= tsv.take(
                k,
            ).map_values(|t2: TextQuery| text_query_spec(t2)).push(text_query_spec(tsv[k])));
            assert(tsv.skip(k).drop_first() =~= tsv.skip(k + 1));
        }
    }
    proof {
        assert(tsv.take(tsv.len() as int) =~= tsv);
    }
    out
}

impl Json {
    /// The engine query this configuration stands for; absent text
    /// queries become none at all.
    pub fn parse(self) -> (r: crate::json::Json)
        ensures
            views_of(r.itemq@) == views_of(self.itemq@),
            r@.titleq == (match self.titleq {
                Some(t) => Some(t@),
                None => None::<Seq<char>>,
            }),
            r@.textq == (match self.textq {
                Some(ts) => ts@.map_values(|t: TextQuery| text_query_spec(t)),
                None => Seq::<TextQueryV>::empty(),
            }),
            r@.idq == self.idq@,
            r@.linkq == (match self.linkq {
                Some(l) => Some(text_query_spec(l)),
                None => None::<TextQueryV>,
            }),
            r@.imgq == (match self.imgq {
                Some(p) => Some(views_of(p@)),
                None => None::<Seq<Seq<char>>>,
            }),
    {
        let textq: Vec<crate::json::TextQuery> = match self.textq {
            Some(ts) => parse_text_queries(ts),
            None => Vec::new(),
        };
        proof {
            assert(textq@.map_values(|x: crate::json::TextQuery| x@).len() == textq@.len());
        }
        let linkq = match self.linkq {
            Some(l) => Some(l.parse()),
            None => None,
        };
        let r = crate::json::Json {
            itemq: self.itemq,
            titleq: self.titleq,
            textq,
            idq: self.idq,
            linkq,
            imgq: self.imgq,
        };
        r
    }
}

} // verus!
