//! The JSON extraction engine: turns one raw entry whose `raw_contents` is a
//! JSON document into zero or more structured entries.
//!
//! The item query is a path of string keys navigated from the document root;
//! it must end at an array (whose elements are the items) or an object
//! (whose values are the items, keys discarded).  For each item a title, one
//! or more texts, a required id, an optional link and an optional nested
//! image path are extracted.  Any path miss or type mismatch is a hard
//! per-item error that aborts the whole batch, in item order, first error
//! first; there is no partial-success mode.
//!
//! Documents are parsed by `serde_json` behind a trusted wrapper and then
//! modeled by [`JsonValue`], whose contents the verified engine reads.

use vstd::prelude::*;

use crate::entry::{Entry, EntryV, Media, MediaV, Message, MessageV, Url, entry_views, url_of};
use crate::text::{dec_rep, int_rep, join_spec, trim, trim_spec, views_of};

verus! {

/// The library's model of a JSON value.
///
/// Numbers keep their integer value when `serde_json` can represent them as
/// `i64` or `u64`; any other number is carried as [`JsonValue::Float`], of which
/// only the kind is observable.
pub enum JsonValue {
    /// The JSON `null`.
    Null,
    /// A boolean.
    Bool(bool),
    /// A number representable as `i64`.
    Int(i64),
    /// A number representable as `u64` but not as `i64`.
    UInt(u64),
    /// A number representable as neither `i64` nor `u64`.
    Float,
    /// A string.
    Str(String),
    /// An array, in document order.
    Array(Vec<JsonValue>),
    /// An object, as key-value pairs in document order.
    Object(Vec<(String, JsonValue)>),
}

/// The mathematical view of a [`JsonValue`].
#[verifier::ext_equal]
pub enum ValueV {
    /// The JSON `null`.
    Null,
    /// A boolean.
    Bool(bool),
    /// A number representable as `i64`.
    Int(i64),
    /// A number representable as `u64` but not as `i64`.
    UInt(u64),
    /// A number representable as neither.
    Float,
    /// A string.
    Str(Seq<char>),
    /// An array.
    Array(Seq<ValueV>),
    /// An object, as key-value pairs.
    Object(Seq<(Seq<char>, ValueV)>),
}

/// The view of a [`JsonValue`], structurally.
pub open spec fn jvalue_view(v: JsonValue) -> ValueV
    decreases v,
{
    match v {
        JsonValue::Null => ValueV::Null,
        JsonValue::Bool(b) => ValueV::Bool(b),
        JsonValue::Int(i) => ValueV::Int(i),
        JsonValue::UInt(u) => ValueV::UInt(u),
        JsonValue::Float => ValueV::Float,
        JsonValue::Str(s) => ValueV::Str(s@),
        JsonValue::Array(a) => ValueV::Array(
            Seq::new(
                a@.len(),
                |i: int|
                    if 0 <= i < a@.len() {
                        jvalue_view(a@[i])
                    } else {
                        ValueV::Null
                    },
            ),
        ),
        JsonValue::Object(f) => ValueV::Object(
            Seq::new(
                f@.len(),
                |i: int|
                    if 0 <= i < f@.len() {
                        (f@[i].0@, jvalue_view(f@[i].1))
                    } else {
                        (Seq::empty(), ValueV::Null)
                    },
            ),
        ),
    }
}

impl View for JsonValue {
    type V = ValueV;

    open spec fn view(&self) -> ValueV {
        jvalue_view(*self)
    }
}

/// What `serde_json::from_str` parses a document to, in the library's value
/// model, named: the result depends on the document characters alone.
/// `None` stands for a parse error.
pub uninterp spec fn json_of(s: Seq<char>) -> Option<ValueV>;

/// The declaration of `serde_json::Value`, opaque to the verifier; it
/// appears only inside the trusted parsing wrappers.
#[verifier::external_type_specification]
#[verifier::external_body]
pub struct ExSerdeValue(serde_json::Value);

/// Relies on the variants of `serde_json::Value` and on
/// `serde_json::Number::as_i64` / `as_u64`: carries a parsed document into
/// the library's value model, one variant at a time.
#[verifier::external_body]
fn convert_value(v: serde_json::Value) -> JsonValue {
    match v {
        serde_json::Value::Null => JsonValue::Null,
        serde_json::Value::Bool(b) => JsonValue::Bool(b),
        serde_json::Value::Number(n) => match (n.as_i64(), n.as_u64()) {
            (Some(i), _) => JsonValue::Int(i),
            (None, Some(u)) => JsonValue::UInt(u),
            _ => JsonValue::Float,
        },
        serde_json::Value::String(s) => JsonValue::Str(s),
        serde_json::Value::Array(a) => JsonValue::Array(a.into_iter().map(convert_value).collect()),
        serde_json::Value::Object(m) => JsonValue::Object(
            m.into_iter().map(|(k, x)| (k, convert_value(x))).collect(),
        ),
    }
}

/// Relies on `serde_json::from_str` for JSON parsing; the result depends on
/// the document characters alone.
#[verifier::external_body]
fn parse_json(s: &str) -> (r: Option<JsonValue>)
    ensures
        match r {
            Some(v) => json_of(s@) == Some(v@),
            None => json_of(s@) is None,
        },
{
    match serde_json::from_str::<serde_json::Value>(s) {
        Ok(v) => Some(convert_value(v)),
        Err(_) => None,
    }
}

/// An error of the JSON extraction engine.
pub enum JsonError {
    /// The input entry carries no raw contents to parse.
    MissingRawContents,
    /// The raw contents are not a well-formed JSON document.
    InvalidJson,
    /// A queried key was not found; carries the key.
    KeyNotFound(String),
    /// A queried key held a value of the wrong type.
    KeyWrongType {
        /// The key whose value had the wrong type.
        key: String,
        /// The kinds that would have been accepted.
        expected_type: String,
        /// The kind that was found.
        found_type: String,
    },
    /// An extracted link was not a valid URL; carries the offending text.
    InvalidUrl(String),
}

/// The mathematical view of a [`JsonError`].
#[verifier::ext_equal]
pub enum JsonErrorV {
    /// No raw contents to parse.
    MissingRawContents,
    /// Not a well-formed JSON document.
    InvalidJson,
    /// A queried key was not found.
    KeyNotFound(Seq<char>),
    /// A queried key held a value of the wrong type.
    KeyWrongType {
        /// The key whose value had the wrong type.
        key: Seq<char>,
        /// The kinds that would have been accepted.
        expected_type: Seq<char>,
        /// The kind that was found.
        found_type: Seq<char>,
    },
    /// An extracted link was not a valid URL.
    InvalidUrl(Seq<char>),
}

impl View for JsonError {
    type V = JsonErrorV;

    open spec fn view(&self) -> JsonErrorV {
        match self {
            JsonError::MissingRawContents => JsonErrorV::MissingRawContents,
            JsonError::InvalidJson => JsonErrorV::InvalidJson,
            JsonError::KeyNotFound(k) => JsonErrorV::KeyNotFound(k@),
            JsonError::KeyWrongType { key, expected_type, found_type } => JsonErrorV::KeyWrongType {
                key: key@,
                expected_type: expected_type@,
                found_type: found_type@,
            },
            JsonError::InvalidUrl(u) => JsonErrorV::InvalidUrl(u@),
        }
    }
}

/// The name of a JSON value's kind, used in type-mismatch diagnostics.
pub open spec fn kind_name_spec(v: ValueV) -> Seq<char> {
    match v {
        ValueV::Null => "null"@,
        ValueV::Bool(_) => "bool"@,
        ValueV::Int(_) => "number"@,
        ValueV::UInt(_) => "number"@,
        ValueV::Float => "number"@,
        ValueV::Str(_) => "string"@,
        ValueV::Array(_) => "array"@,
        ValueV::Object(_) => "object"@,
    }
}

fn kind_name(v: &JsonValue) -> (r: &'static str)
    ensures
        r@ == kind_name_spec(v@),
{
    match v {
        JsonValue::Null => "null",
        JsonValue::Bool(_) => "bool",
        JsonValue::Int(_) => "number",
        JsonValue::UInt(_) => "number",
        JsonValue::Float => "number",
        JsonValue::Str(_) => "string",
        JsonValue::Array(_) => "array",
        JsonValue::Object(_) => "object",
    }
}

/// The value under `key` among the object fields, first match first.
pub open spec fn obj_get(fields: Seq<(Seq<char>, ValueV)>, key: Seq<char>) -> Option<ValueV>
    decreases fields.len(),
{
    if fields.len() == 0 {
        None
    } else if fields[0].0 == key {
        Some(fields[0].1)
    } else {
        obj_get(fields.drop_first(), key)
    }
}

/// The value under `key` in `v`: a lookup among the fields when `v` is an
/// object, `None` for every other kind.
pub open spec fn get_key(v: ValueV, key: Seq<char>) -> Option<ValueV> {
    match v {
        ValueV::Object(fields) => obj_get(fields, key),
        _ => None,
    }
}

proof fn lemma_obj_get_none(fields: Seq<(Seq<char>, ValueV)>, key: Seq<char>)
    requires
        forall|j: int| 0 <= j < fields.len() ==> fields[j].0 != key,
    ensures
        obj_get(fields, key) is None,
    decreases fields.len(),
{
    if fields.len() > 0 {
        lemma_obj_get_none(fields.drop_first(), key);
    }
}

proof fn lemma_obj_get_found(fields: Seq<(Seq<char>, ValueV)>, key: Seq<char>, k: int)
    requires
        0 <= k < fields.len(),
        fields[k].0 == key,
        forall|j: int| 0 <= j < k ==> fields[j].0 != key,
    ensures
        obj_get(fields, key) == Some(fields[k].1),
    decreases fields.len(),
{
    if k > 0 {
        lemma_obj_get_found(fields.drop_first(), key, k - 1);
    }
}

impl JsonValue {
    /// The value under `key` when `self` is an object with that key.
    pub fn get<'a>(&'a self, key: &String) -> (r: Option<&'a JsonValue>)
        ensures
            match r {
                Some(v) => get_key(self@, key@) == Some(v@),
                None => get_key(self@, key@) is None,
            },
    {
        match self {
            JsonValue::Object(fields) => {
                let ghost fv = self@->Object_0;
                proof {
                    assert forall|j: int| 0 <= j < fv.len() implies fv[j] == (
                    fields@[j].0@,
                    fields@[j].1@,
                    ) by {
                        assert(fv[j] == (fields@[j].0@, fields@[j].1@));
                    }
                }
                let mut i: usize = 0;
                while i < fields.len()
                    invariant
                        fv == self@->Object_0,
                        self@ matches ValueV::Object(g) && g == fv,
                        fv.len() == fields@.len(),
                        forall|j: int| 0 <= j < fv.len() ==> fv[j] == (fields@[j].0@, fields@[j].1@),
                        i <= fields.len(),
                        forall|j: int| 0 <= j < i ==> fv[j].0 != key@,
                    decreases fields.len() - i,
                {
                    if fields[i].0 == *key {
                        proof {
                            lemma_obj_get_found(fv, key@, i as int);
                        }
                        return Some(&fields[i].1);
                    }
                    i = i + 1;
                }
                proof {
                    lemma_obj_get_none(fv, key@);
                }
                None
            },
            _ => None,
        }
    }
}

/// The value at the end of `path` navigated from `v`, or the first missing
/// key, in path order.
pub open spec fn nav_path(v: ValueV, path: Seq<Seq<char>>) -> Result<ValueV, JsonErrorV>
    decreases path.len(),
{
    if path.len() == 0 {
        Ok(v)
    } else {
        match get_key(v, path[0]) {
            Some(x) => nav_path(x, path.drop_first()),
            None => Err(JsonErrorV::KeyNotFound(path[0])),
        }
    }
}

fn nav<'a>(root: &'a JsonValue, path: &Vec<String>) -> (r: Result<&'a JsonValue, JsonError>)
    ensures
        match r {
            Ok(v) => nav_path(root@, views_of(path@)) == Ok::<_, JsonErrorV>(v@),
            Err(e) => nav_path(root@, views_of(path@)) == Err::<ValueV, _>(e@),
        },
{
    let ghost pv = views_of(path@);
    proof {
        assert(pv.skip(0) =~= pv);
    }
    let mut cur: &'a JsonValue = root;
    let mut i: usize = 0;
    while i < path.len()
        invariant
            pv == views_of(path@),
            i <= path.len(),
            nav_path(root@, pv) == nav_path(cur@, pv.skip(i as int)),
        decreases path.len() - i,
    {
        proof {
            assert(pv.skip(i as int)[0] == pv[i as int]);
            assert(pv[i as int] == path@[i as int]@);
            assert(pv.skip(i as int).drop_first() =~= pv.skip(i + 1));
        }
        match cur.get(&path[i]) {
            Some(next) => {
                cur = next;
            },
            None => {
                return Err(JsonError::KeyNotFound(path[i].clone()));
            },
        }
        i = i + 1;
    }
    proof {
        assert(pv.skip(pv.len() as int) =~= Seq::<Seq<char>>::empty());
    }
    Ok(cur)
}

/// A text query: a key whose string value is extracted, optionally wrapped
/// with literal prepend and append strings.
pub struct TextQuery {
    /// The key to read.
    pub string: String,
    /// Text put before the extracted string, if any.
    pub prepend: Option<String>,
    /// Text put after the extracted string, if any.
    pub append: Option<String>,
}

/// The mathematical view of a [`TextQuery`].
#[verifier::ext_equal]
pub struct TextQueryV {
    /// The key to read.
    pub string: Seq<char>,
    /// Text put before the extracted string, if any.
    pub prepend: Option<Seq<char>>,
    /// Text put after the extracted string, if any.
    pub append: Option<Seq<char>>,
}

impl View for TextQuery {
    type V = TextQueryV;

    open spec fn view(&self) -> TextQueryV {
        TextQueryV {
            string: self.string@,
            prepend: match self.prepend {
                Some(p) => Some(p@),
                None => None,
            },
            append: match self.append {
                Some(a) => Some(a@),
                None => None,
            },
        }
    }
}

/// `s` wrapped with the query's prepend and append texts.
pub open spec fn wrapped_spec(tq: TextQueryV, s: Seq<char>) -> Seq<char> {
    (match tq.prepend {
        Some(p) => p,
        None => Seq::empty(),
    }) + s + (match tq.append {
        Some(a) => a,
        None => Seq::empty(),
    })
}

fn apply_wrap(tq: &TextQuery, s: &str) -> (r: String)
    ensures
        r@ == wrapped_spec(tq@, s@),
{
    let mut out = String::new();
    match &tq.prepend {
        Some(p) => out.append(p.as_str()),
        None => (),
    }
    out.append(s);
    match &tq.append {
        Some(a) => out.append(a.as_str()),
        None => (),
    }
    proof {
        assert(out@ =~= wrapped_spec(tq@, s@));
    }
    out
}

/// The JSON extraction query: where items are and which of their fields
/// become entry fields.
pub struct Json {
    /// The path from the document root to the items.
    pub itemq: Vec<String>,
    /// The key of the title, if a title is extracted.
    pub titleq: Option<String>,
    /// The text queries whose results are newline-joined into the body.
    pub textq: Vec<TextQuery>,
    /// The key of the required id.
    pub idq: String,
    /// The query of the optional link.
    pub linkq: Option<TextQuery>,
    /// The path of the optional nested image, scoped to the item.
    pub imgq: Option<Vec<String>>,
}

/// The mathematical view of a [`Json`] query.
#[verifier::ext_equal]
pub struct JsonV {
    /// The path from the document root to the items.
    pub itemq: Seq<Seq<char>>,
    /// The key of the title, if any.
    pub titleq: Option<Seq<char>>,
    /// The text queries.
    pub textq: Seq<TextQueryV>,
    /// The key of the required id.
    pub idq: Seq<char>,
    /// The query of the optional link.
    pub linkq: Option<TextQueryV>,
    /// The path of the optional nested image.
    pub imgq: Option<Seq<Seq<char>>>,
}

impl View for Json {
    type V = JsonV;

    open spec fn view(&self) -> JsonV {
        JsonV {
            itemq: views_of(self.itemq@),
            titleq: match self.titleq {
                Some(t) => Some(t@),
                None => None,
            },
            textq: self.textq@.map_values(|t: TextQuery| t@),
            idq: self.idq@,
            linkq: match self.linkq {
                Some(l) => Some(l@),
                None => None,
            },
            imgq: match self.imgq {
                Some(p) => Some(views_of(p@)),
                None => None,
            },
        }
    }
}

impl JsonV {
    /// The query is well formed: the item path is non-empty and an image
    /// path, when given, is non-empty.
    pub open spec fn wf(&self) -> bool {
        &&& self.itemq.len() > 0
        &&& (self.imgq matches Some(p) ==> p.len() > 0)
    }
}

/// The items named by the item path: the elements of the array, or the
/// values of the object (keys discarded), at the end of the path.  Any
/// other kind of value there is a type error naming the last path segment.
pub open spec fn items_of(root: ValueV, itemq: Seq<Seq<char>>) -> Result<
    Seq<ValueV>,
    JsonErrorV,
> {
    match nav_path(root, itemq) {
        Err(e) => Err(e),
        Ok(v) => match v {
            ValueV::Array(xs) => Ok(xs),
            ValueV::Object(fields) => Ok(fields.map_values(|p: (Seq<char>, ValueV)| p.1)),
            _ => Err(
                JsonErrorV::KeyWrongType {
                    key: itemq.last(),
                    expected_type: "iterator (array, map)"@,
                    found_type: kind_name_spec(v),
                },
            ),
        },
    }
}

/// The extracted title: the trimmed string under the title key, an error
/// when the key is missing or not a string; `None` when no title query is
/// configured.
pub open spec fn title_of(item: ValueV, titleq: Option<Seq<char>>) -> Result<
    Option<Seq<char>>,
    JsonErrorV,
> {
    match titleq {
        None => Ok(None),
        Some(k) => match get_key(item, k) {
            None => Err(JsonErrorV::KeyNotFound(k)),
            Some(v) => match v {
                ValueV::Str(s) => Ok(Some(trim_spec(s))),
                _ => Err(
                    JsonErrorV::KeyWrongType {
                        key: k,
                        expected_type: "string"@,
                        found_type: kind_name_spec(v),
                    },
                ),
            },
        },
    }
}

/// One extracted text: the trimmed string under the query's key, wrapped
/// with its prepend and append texts.
pub open spec fn text_one(item: ValueV, tq: TextQueryV) -> Result<Seq<char>, JsonErrorV> {
    match get_key(item, tq.string) {
        None => Err(JsonErrorV::KeyNotFound(tq.string)),
        Some(v) => match v {
            ValueV::Str(s) => Ok(wrapped_spec(tq, trim_spec(s))),
            _ => Err(
                JsonErrorV::KeyWrongType {
                    key: tq.string,
                    expected_type: "string"@,
                    found_type: kind_name_spec(v),
                },
            ),
        },
    }
}

/// All extracted texts, in query order; the first error aborts.
pub open spec fn texts_of(item: ValueV, textq: Seq<TextQueryV>) -> Result<
    Seq<Seq<char>>,
    JsonErrorV,
>
    decreases textq.len(),
{
    if textq.len() == 0 {
        Ok(Seq::empty())
    } else {
        match text_one(item, textq[0]) {
            Err(e) => Err(e),
            Ok(t) => match texts_of(item, textq.drop_first()) {
                Err(e) => Err(e),
                Ok(rest) => Ok(seq![t] + rest),
            },
        }
    }
}

/// The extracted id: the string under the id key, or an integer under it
/// stringified; anything else is a type error.
pub open spec fn id_of(item: ValueV, idq: Seq<char>) -> Result<Seq<char>, JsonErrorV> {
    match get_key(item, idq) {
        None => Err(JsonErrorV::KeyNotFound(idq)),
        Some(v) => match v {
            ValueV::Str(s) => Ok(s),
            ValueV::Int(i) => Ok(int_rep(i as int)),
            ValueV::UInt(u) => Ok(dec_rep(u as nat)),
            _ => Err(
                JsonErrorV::KeyWrongType {
                    key: idq,
                    expected_type: "string/i64/u64"@,
                    found_type: kind_name_spec(v),
                },
            ),
        },
    }
}

/// The extracted link: the string under the link query's key, wrapped, then
/// parsed as a URL; `None` when no link query is configured.
pub open spec fn link_of(item: ValueV, linkq: Option<TextQueryV>) -> Result<
    Option<Seq<char>>,
    JsonErrorV,
> {
    match linkq {
        None => Ok(None),
        Some(tq) => match get_key(item, tq.string) {
            None => Err(JsonErrorV::KeyNotFound(tq.string)),
            Some(v) => match v {
                ValueV::Str(s) => {
                    let w = wrapped_spec(tq, s);
                    match url_of(w) {
                        Some(u) => Ok(Some(u)),
                        None => Err(JsonErrorV::InvalidUrl(w)),
                    }
                },
                _ => Err(
                    JsonErrorV::KeyWrongType {
                        key: tq.string,
                        expected_type: "string"@,
                        found_type: kind_name_spec(v),
                    },
                ),
            },
        },
    }
}

/// The extracted image URL: the string at the end of the image path
/// navigated from the item, parsed as a URL; `None` when no image path is
/// configured.
pub open spec fn img_of(item: ValueV, imgq: Option<Seq<Seq<char>>>) -> Result<
    Option<Seq<char>>,
    JsonErrorV,
> {
    match imgq {
        None => Ok(None),
        Some(path) => match nav_path(item, path) {
            Err(e) => Err(e),
            Ok(v) => match v {
                ValueV::Str(s) => match url_of(s) {
                    Some(u) => Ok(Some(u)),
                    None => Err(JsonErrorV::InvalidUrl(s)),
                },
                _ => Err(
                    JsonErrorV::KeyWrongType {
                        key: path.last(),
                        expected_type: "string"@,
                        found_type: kind_name_spec(v),
                    },
                ),
            },
        },
    }
}

/// The entry extracted from one item: title, newline-joined body, id, link
/// and image, evaluated in that order; the first error aborts.
pub open spec fn extract_item(item: ValueV, q: JsonV) -> Result<EntryV, JsonErrorV> {
    match title_of(item, q.titleq) {
        Err(e) => Err(e),
        Ok(title) => match texts_of(item, q.textq) {
            Err(e) => Err(e),
            Ok(texts) => match id_of(item, q.idq) {
                Err(e) => Err(e),
                Ok(id) => match link_of(item, q.linkq) {
                    Err(e) => Err(e),
                    Ok(link) => match img_of(item, q.imgq) {
                        Err(e) => Err(e),
                        Ok(img) => Ok(
                            EntryV {
                                id: Some(id),
                                raw_contents: None,
                                msg: MessageV {
                                    title,
                                    body: Some(join_spec(texts, "\n\n"@)),
                                    link,
                                    media: match img {
                                        Some(u) => Some(seq![MediaV::Photo(u)]),
                                        None => None,
                                    },
                                },
                            },
                        ),
                    },
                },
            },
        },
    }
}

/// The entries extracted from the items, in item order; the first failing
/// item aborts the whole batch.
pub open spec fn extract_items(items: Seq<ValueV>, q: JsonV) -> Result<Seq<EntryV>, JsonErrorV>
    decreases items.len(),
{
    if items.len() == 0 {
        Ok(Seq::empty())
    } else {
        match extract_item(items[0], q) {
            Err(e) => Err(e),
            Ok(e) => match extract_items(items.drop_first(), q) {
                Err(er) => Err(er),
                Ok(rest) => Ok(seq![e] + rest),
            },
        }
    }
}

/// The extraction result for a whole parsed document.
pub open spec fn json_extract(root: ValueV, q: JsonV) -> Result<Seq<EntryV>, JsonErrorV> {
    match items_of(root, q.itemq) {
        Err(e) => Err(e),
        Ok(items) => extract_items(items, q),
    }
}

/// The extraction result for a raw entry: no raw contents and malformed
/// documents are errors; otherwise the document is extracted.
pub open spec fn parse_spec(e: EntryV, q: JsonV) -> Result<Seq<EntryV>, JsonErrorV> {
    match e.raw_contents {
        None => Err(JsonErrorV::MissingRawContents),
        Some(s) => match json_of(s) {
            None => Err(JsonErrorV::InvalidJson),
            Some(root) => json_extract(root, q),
        },
    }
}

fn extract_title(item: &JsonValue, q: &Json) -> (r: Result<Option<String>, JsonError>)
    ensures
        match r {
            Ok(t) => title_of(item@, q@.titleq) == Ok::<_, JsonErrorV>(
                match t {
                    Some(s) => Some(s@),
                    None => None,
                },
            ),
            Err(e) => title_of(item@, q@.titleq) == Err::<Option<Seq<char>>, _>(e@),
        },
{
    match &q.titleq {
        None => Ok(None),
        Some(k) => match item.get(k) {
            None => Err(JsonError::KeyNotFound(k.clone())),
            Some(v) => match v {
                JsonValue::Str(s) => Ok(Some(trim(s.as_str()))),
                _ => Err(
                    JsonError::KeyWrongType {
                        key: k.clone(),
                        expected_type: String::from_str("string"),
                        found_type: String::from_str(kind_name(v)),
                    },
                ),
            },
        },
    }
}

fn extract_text_one(item: &JsonValue, tq: &TextQuery) -> (r: Result<String, JsonError>)
    ensures
        match r {
            Ok(t) => text_one(item@, tq@) == Ok::<_, JsonErrorV>(t@),
            Err(e) => text_one(item@, tq@) == Err::<Seq<char>, _>(e@),
        },
{
    match item.get(&tq.string) {
        None => Err(JsonError::KeyNotFound(tq.string.clone())),
        Some(v) => match v {
            JsonValue::Str(s) => {
                let trimmed = trim(s.as_str());
                Ok(apply_wrap(tq, trimmed.as_str()))
            },
            _ => Err(
                JsonError::KeyWrongType {
                    key: tq.string.clone(),
                    expected_type: String::from_str("string"),
                    found_type: String::from_str(kind_name(v)),
                },
            ),
        },
    }
}

fn extract_texts(item: &JsonValue, q: &Json) -> (r: Result<Vec<String>, JsonError>)
    ensures
        match r {
            Ok(ts) => texts_of(item@, q@.textq) == Ok::<_, JsonErrorV>(views_of(ts@)),
            Err(e) => texts_of(item@, q@.textq) == Err::<Seq<Seq<char>>, _>(e@),
        },
{
    let ghost tqs = q@.textq;
    let mut out: Vec<String> = Vec::new();
    proof {
        assert(tqs.skip(0) =~= tqs);
        assert(views_of(out@) =~= Seq::<Seq<char>>::empty());
        match texts_of(item@, tqs) {
            Ok(rest) => {
                assert(views_of(out@) + rest =~= rest);
            },
            Err(_) => {},
        }
    }
    let mut i: usize = 0;
    while i < q.textq.len()
        invariant
            tqs == q@.textq,
            i <= q.textq.len(),
            texts_of(item@, tqs) == (match texts_of(item@, tqs.skip(i as int)) {
                Ok(rest) => Ok::<_, JsonErrorV>(views_of(out@) + rest),
                Err(e) => Err::<Seq<Seq<char>>, _>(e),
            }),
        decreases q.textq.len() - i,
    {
        proof {
            assert(tqs.skip(i as int)[0] == tqs[i as int]);
            assert(tqs[i as int] == q.textq@[i as int]@);
            assert(tqs.skip(i as int).drop_first() =~= tqs.skip(i + 1));
        }
        let ghost prev = views_of(out@);
        match extract_text_one(item, &q.textq[i]) {
            Ok(t) => {
                out.push(t);
                proof {
                    assert(views_of(out@) =~= prev.push(out@.last()@));
                    match texts_of(item@, tqs.skip(i + 1)) {
                        Ok(rest) => {
                            assert(prev + (seq![out@.last()@] + rest) =~= views_of(out@) + rest);
                        },
                        Err(_) => {},
                    }
                }
            },
            Err(e) => {
                return Err(e);
            },
        }
        i = i + 1;
    }
    proof {
        assert(tqs.skip(tqs.len() as int) =~= Seq::<TextQueryV>::empty());
        assert(views_of(out@) + Seq::<Seq<char>>::empty() =~= views_of(out@));
    }
    Ok(out)
}

fn extract_id(item: &JsonValue, q: &Json) -> (r: Result<String, JsonError>)
    ensures
        match r {
            Ok(id) => id_of(item@, q@.idq) == Ok::<_, JsonErrorV>(id@),
            Err(e) => id_of(item@, q@.idq) == Err::<Seq<char>, _>(e@),
        },
{
    match item.get(&q.idq) {
        None => Err(JsonError::KeyNotFound(q.idq.clone())),
        Some(v) => match v {
            JsonValue::Str(s) => Ok(s.clone()),
            JsonValue::Int(i) => Ok(crate::text::i64_to_string(*i)),
            JsonValue::UInt(u) => Ok(crate::text::u64_to_string(*u)),
            _ => Err(
                JsonError::KeyWrongType {
                    key: q.idq.clone(),
                    expected_type: String::from_str("string/i64/u64"),
                    found_type: String::from_str(kind_name(v)),
                },
            ),
        },
    }
}

fn extract_link(item: &JsonValue, q: &Json) -> (r: Result<Option<Url>, JsonError>)
    ensures
        match r {
            Ok(l) => link_of(item@, q@.linkq) == Ok::<_, JsonErrorV>(
                match l {
                    Some(u) => Some(u@),
                    None => None,
                },
            ),
            Err(e) => link_of(item@, q@.linkq) == Err::<Option<Seq<char>>, _>(e@),
        },
{
    match &q.linkq {
        None => Ok(None),
        Some(tq) => match item.get(&tq.string) {
            None => Err(JsonError::KeyNotFound(tq.string.clone())),
            Some(v) => match v {
                JsonValue::Str(s) => {
                    let wrapped = apply_wrap(tq, s.as_str());
                    match Url::parse(wrapped.as_str()) {
                        Some(u) => Ok(Some(u)),
                        None => Err(JsonError::InvalidUrl(wrapped)),
                    }
                },
                _ => Err(
                    JsonError::KeyWrongType {
                        key: tq.string.clone(),
                        expected_type: String::from_str("string"),
                        found_type: String::from_str(kind_name(v)),
                    },
                ),
            },
        },
    }
}

fn extract_img(item: &JsonValue, q: &Json) -> (r: Result<Option<Url>, JsonError>)
    requires
        q@.wf(),
    ensures
        match r {
            Ok(l) => img_of(item@, q@.imgq) == Ok::<_, JsonErrorV>(
                match l {
                    Some(u) => Some(u@),
                    None => None,
                },
            ),
            Err(e) => img_of(item@, q@.imgq) == Err::<Option<Seq<char>>, _>(e@),
        },
{
    match &q.imgq {
        None => Ok(None),
        Some(path) => match nav(item, path) {
            Err(e) => Err(e),
            Ok(v) => match v {
                JsonValue::Str(s) => match Url::parse(s.as_str()) {
                    Some(u) => Ok(Some(u)),
                    None => Err(JsonError::InvalidUrl(s.clone())),
                },
                _ => {
                    proof {
                        assert(views_of(path@).last() == path@.last()@);
                    }
                    Err(
                        JsonError::KeyWrongType {
                            key: path[path.len() - 1].clone(),
                            expected_type: String::from_str("string"),
                            found_type: String::from_str(kind_name(v)),
                        },
                    )
                },
            },
        },
    }
}

fn extract_one(item: &JsonValue, q: &Json) -> (r: Result<Entry, JsonError>)
    requires
        q@.wf(),
    ensures
        match r {
            Ok(e) => extract_item(item@, q@) == Ok::<_, JsonErrorV>(e@),
            Err(e) => extract_item(item@, q@) == Err::<EntryV, _>(e@),
        },
{
    let title = match extract_title(item, q) {
        Ok(t) => t,
        Err(e) => {
            return Err(e);
        },
    };
    let texts = match extract_texts(item, q) {
        Ok(t) => t,
        Err(e) => {
            return Err(e);
        },
    };
    let id = match extract_id(item, q) {
        Ok(t) => t,
        Err(e) => {
            return Err(e);
        },
    };
    let link = match extract_link(item, q) {
        Ok(t) => t,
        Err(e) => {
            return Err(e);
        },
    };
    let img = match extract_img(item, q) {
        Ok(t) => t,
        Err(e) => {
            return Err(e);
        },
    };
    let body = crate::text::join(&texts, "\n\n");
    let media = match img {
        Some(u) => {
            let mut ms: Vec<Media> = Vec::new();
            ms.push(Media::Photo(u));
            Some(ms)
        },
        None => None,
    };
    let e = Entry {
        id: Some(id),
        raw_contents: None,
        msg: Message { title, body: Some(body), link, media },
    };
    proof {
        assert(extract_item(item@, q@) matches Ok(ev) && ev =~~= e@);
    }
    Ok(e)
}

impl Json {
    /// Extracts the configured items from the JSON document in `entry`'s
    /// raw contents.  Succeeds exactly when the contents are present, parse
    /// as JSON, the item path ends at an array or object and every item
    /// yields its title, texts, id, link and image without a miss or type
    /// mismatch; the first error, in item order, aborts the whole batch.
    pub fn parse(&self, entry: &Entry) -> (r: Result<Vec<Entry>, JsonError>)
        requires
            self@.wf(),
        ensures
            match r {
                Ok(out) => parse_spec(entry@, self@) == Ok::<_, JsonErrorV>(entry_views(out@)),
                Err(e) => parse_spec(entry@, self@) == Err::<Seq<EntryV>, _>(e@),
            },
    {
        let raw = match &entry.raw_contents {
            Some(s) => s,
            None => {
                return Err(JsonError::MissingRawContents);
            },
        };
        let root = match parse_json(raw.as_str()) {
            Some(v) => v,
            None => {
                return Err(JsonError::InvalidJson);
            },
        };
        match nav(&root, &self.itemq) {
            Ok(v) => match v {
                JsonValue::Array(xs) => {
                    let ghost itemsv = xs@.map_values(|x: JsonValue| x@);
                    proof {
                        assert(*v matches JsonValue::Array(ys) && ys == *xs);
                        assert(v@ is Array);
                        let ghost av = v@->Array_0;
                        assert(av.len() == xs@.len());
                        assert forall|j: int| 0 <= j < itemsv.len() implies itemsv[j] == av[j] by {
                            assert(itemsv[j] == xs@[j]@);
                            assert(av[j] == xs@[j]@);
                        }
                        assert(itemsv =~= av);
                        assert(items_of(root@, self@.itemq) == Ok::<_, JsonErrorV>(itemsv));
                    }
                    self.extract_all_indexed(xs, Ghost(itemsv))
                },
                JsonValue::Object(_) => self.parse_object_items(&root, v),
                _ => {
                    proof {
                        assert(views_of(self.itemq@).last() == self.itemq@.last()@);
                    }
                    Err(
                        JsonError::KeyWrongType {
                            key: self.itemq[self.itemq.len() - 1].clone(),
                            expected_type: String::from_str("iterator (array, map)"),
                            found_type: String::from_str(kind_name(v)),
                        },
                    )
                },
            },
            Err(e) => Err(e),
        }
    }

    /// Extracts the items of an object result: its values, keys discarded.
    fn parse_object_items(&self, root: &JsonValue, v: &JsonValue) -> (r: Result<Vec<Entry>, JsonError>)
        requires
            self@.wf(),
            nav_path(root@, views_of(self.itemq@)) == Ok::<_, JsonErrorV>(v@),
            v@ is Object,
        ensures
            match r {
                Ok(out) => json_extract(root@, self@) == Ok::<_, JsonErrorV>(entry_views(out@)),
                Err(e) => json_extract(root@, self@) == Err::<Seq<EntryV>, _>(e@),
            },
    {
        let fields: &Vec<(String, JsonValue)> = match v {
            JsonValue::Object(fields) => fields,
            // excluded by the precondition: the value is an object
            _ => {
                proof {
                    assert(false);
                }
                return Err(JsonError::InvalidJson);
            },
        };
        let mut values: Vec<&JsonValue> = Vec::new();
        let mut i: usize = 0;
        while i < fields.len()
            invariant
                i <= fields.len(),
                values@.len() == i,
                forall|j: int| 0 <= j < i ==> values@[j] == &fields@[j].1,
            decreases fields.len() - i,
        {
            values.push(&fields[i].1);
            i = i + 1;
        }
        let ghost itemsv = values@.map_values(|x: &JsonValue| x@);
        proof {
            let ghost fv = v@->Object_0;
            let ghost mapped = fv.map_values(|p: (Seq<char>, ValueV)| p.1);
            assert forall|j: int| 0 <= j < itemsv.len() implies itemsv[j] == mapped[j] by {
                assert(fv[j] == (fields@[j].0@, fields@[j].1@));
                assert(mapped[j] == fields@[j].1@);
                assert(itemsv[j] == values@[j]@);
            }
            assert(itemsv =~= mapped);
            assert(items_of(root@, self@.itemq) == Ok::<_, JsonErrorV>(itemsv));
        }
        self.extract_all_ref(&values, Ghost(itemsv))
    }

    /// Extracts every item of an owned item array, first error first.
    fn extract_all_indexed(&self, items: &Vec<JsonValue>, itemsv: Ghost<Seq<ValueV>>) -> (r: Result<
        Vec<Entry>,
        JsonError,
    >)
        requires
            self@.wf(),
            itemsv@ == items@.map_values(|x: JsonValue| x@),
        ensures
            match r {
                Ok(out) => extract_items(itemsv@, self@) == Ok::<_, JsonErrorV>(entry_views(out@)),
                Err(e) => extract_items(itemsv@, self@) == Err::<Seq<EntryV>, _>(e@),
            },
    {
        let mut out: Vec<Entry> = Vec::new();
        proof {
            assert(itemsv@.skip(0) =~= itemsv@);
            assert(entry_views(out@) =~= Seq::<EntryV>::empty());
            match extract_items(itemsv@, self@) {
                Ok(rest) => {
                    assert(entry_views(out@) + rest =~= rest);
                },
                Err(_) => {},
            }
        }
        let mut i: usize = 0;
        while i < items.len()
            invariant
                self@.wf(),
                itemsv@ == items@.map_values(|x: JsonValue| x@),
                i <= items.len(),
                extract_items(itemsv@, self@) == (match extract_items(
                    itemsv@.skip(i as int),
                    self@,
                ) {
                    Ok(rest) => Ok::<_, JsonErrorV>(entry_views(out@) + rest),
                    Err(e) => Err::<Seq<EntryV>, _>(e),
                }),
            decreases items.len() - i,
        {
            proof {
                assert(itemsv@.skip(i as int)[0] == itemsv@[i as int]);
                assert(itemsv@[i as int] == items@[i as int]@);
                assert(itemsv@.skip(i as int).drop_first() =~= itemsv@.skip(i + 1));
            }
            let ghost prev = entry_views(out@);
            match extract_one(&items[i], self) {
                Ok(e) => {
                    out.push(e);
                    proof {
                        assert(entry_views(out@) =~= prev.push(out@.last()@));
                        match extract_items(itemsv@.skip(i + 1), self@) {
                            Ok(rest) => {
                                assert(prev + (seq![out@.last()@] + rest) =~= entry_views(out@)
                                    + rest);
                            },
                            Err(_) => {},
                        }
                    }
                },
                Err(e) => {
                    return Err(e);
                },
            }
            i = i + 1;
        }
        proof {
            assert(itemsv@.skip(itemsv@.len() as int) =~= Seq::<ValueV>::empty());
            assert(entry_views(out@) + Seq::<EntryV>::empty() =~= entry_views(out@));
        }
        Ok(out)
    }

    /// Extracts every item of a borrowed item list, first error first.
    fn extract_all_ref(&self, items: &Vec<&JsonValue>, itemsv: Ghost<Seq<ValueV>>) -> (r: Result<
        Vec<Entry>,
        JsonError,
    >)
        requires
            self@.wf(),
            itemsv@ == items@.map_values(|x: &JsonValue| x@),
        ensures
            match r {
                Ok(out) => extract_items(itemsv@, self@) == Ok::<_, JsonErrorV>(entry_views(out@)),
                Err(e) => extract_items(itemsv@, self@) == Err::<Seq<EntryV>, _>(e@),
            },
    {
        let mut out: Vec<Entry> = Vec::new();
        proof {
            assert(itemsv@.skip(0) =~= itemsv@);
            assert(entry_views(out@) =~= Seq::<EntryV>::empty());
            match extract_items(itemsv@, self@) {
                Ok(rest) => {
                    assert(entry_views(out@) + rest =~= rest);
                },
                Err(_) => {},
            }
        }
        let mut i: usize = 0;
        while i < items.len()
            invariant
                self@.wf(),
                itemsv@ == items@.map_values(|x: &JsonValue| x@),
                i <= items.len(),
                extract_items(itemsv@, self@) == (match extract_items(
                    itemsv@.skip(i as int),
                    self@,
                ) {
                    Ok(rest) => Ok::<_, JsonErrorV>(entry_views(out@) + rest),
                    Err(e) => Err::<Seq<EntryV>, _>(e),
                }),
            decreases items.len() - i,
        {
            proof {
                assert(itemsv@.skip(i as int)[0] == itemsv@[i as int]);
                assert(itemsv@[i as int] == items@[i as int]@);
                assert(itemsv@.skip(i as int).drop_first() =~= itemsv@.skip(i + 1));
            }
            let ghost prev = entry_views(out@);
            match extract_one(items[i], self) {
                Ok(e) => {
                    out.push(e);
                    proof {
                        assert(entry_views(out@) =~= prev.push(out@.last()@));
                        match extract_items(itemsv@.skip(i + 1), self@) {
                            Ok(rest) => {
                                assert(prev + (seq![out@.last()@] + rest) =~= entry_views(out@)
                                    + rest);
                            },
                            Err(_) => {},
                        }
                    }
                },
                Err(e) => {
                    return Err(e);
                },
            }
            i = i + 1;
        }
        proof {
            assert(itemsv@.skip(itemsv@.len() as int) =~= Seq::<ValueV>::empty());
            assert(entry_views(out@) + Seq::<EntryV>::empty() =~= entry_views(out@));
        }
        Ok(out)
    }
}

} // verus!
