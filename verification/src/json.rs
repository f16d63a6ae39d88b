use vstd::prelude::*;
use crate::text::{str_eq};

verus! {

/// A JSON number as its parts: the sign, the decimal mantissa and the
/// decimal exponent.
#[derive(Clone, Copy, Debug, PartialEq, Eq, Structural)]
pub struct JsonNumber {
    pub positive: bool,
    pub mantissa: u64,
    pub exponent: i16,
}

/// A JSON document: the values the configuration logic reads.
#[derive(Debug)]
pub enum Json {
    Null,
    Str(String),
    Number(JsonNumber),
    Boolean(bool),
    /// The members of an object, in order, each key once.
    Object(Vec<(String, Json)>),
    Array(Vec<Json>),
}

/// The document type of the `json` crate, carried only through the
/// converters below.
#[verifier::external_type_specification]
#[verifier::external_body]
pub struct ExJsonValue(json::JsonValue);

/// A JSON document as a mathematical value.
pub enum JsonView {
    Null,
    Str(Seq<char>),
    Number(JsonNumber),
    Boolean(bool),
    /// The members of an object, in order.
    Object(Seq<(Seq<char>, JsonView)>),
    Array(Seq<JsonView>),
}

/// The value of a document.
pub open spec fn json_view(j: Json) -> JsonView
    decreases j,
{
    match j {
        Json::Null => JsonView::Null,
        Json::Str(s) => JsonView::Str(s@),
        Json::Number(n) => JsonView::Number(n),
        Json::Boolean(b) => JsonView::Boolean(b),
        Json::Object(e) => {
            proof {
                assert(decreases_to!(j => e@));
            }
            JsonView::Object(entries_view(e@))
        },
        Json::Array(a) => {
            proof {
                assert(decreases_to!(j => a@));
            }
            JsonView::Array(items_view(a@))
        },
    }
}

/// The values of a list of documents.
pub open spec fn items_view(s: Seq<Json>) -> Seq<JsonView>
    decreases s,
{
    if s.len() == 0 {
        seq![]
    } else {
        proof {
            assert(decreases_to!(s => s[s.len() - 1]));
            assert(decreases_to!(s => s.subrange(0, s.len() - 1)));
        }
        items_view(s.subrange(0, s.len() - 1)).push(json_view(s[s.len() - 1]))
    }
}

/// The names and values of the members of an object.
pub open spec fn entries_view(s: Seq<(String, Json)>) -> Seq<(Seq<char>, JsonView)>
    decreases s,
{
    if s.len() == 0 {
        seq![]
    } else {
        proof {
            assert(decreases_to!(s => s[s.len() - 1]));
            assert(decreases_to!(s => s.subrange(0, s.len() - 1)));
        }
        entries_view(s.subrange(0, s.len() - 1)).push((s[s.len() - 1].0@, json_view(s[s.len() - 1].1)))
    }
}

impl View for Json {
    type V = JsonView;

    open spec fn view(&self) -> JsonView {
        json_view(*self)
    }
}

/// Each value of a list of documents is the value of the document there.
pub proof fn lemma_items_view(s: Seq<Json>)
    ensures
        items_view(s).len() == s.len(),
        forall|k: int| 0 <= k < s.len() ==> #[trigger] items_view(s)[k] == json_view(s[k]),
    decreases s.len(),
{
    if s.len() > 0 {
        let t = s.subrange(0, s.len() - 1);
        lemma_items_view(t);
        assert forall|k: int| 0 <= k < s.len() implies #[trigger] items_view(s)[k] == json_view(s[k]) by {
            if k < s.len() - 1 {
                assert(t[k] == s[k]);
            }
        }
    }
}

/// Each member of an object is the name and value of the entry there.
pub proof fn lemma_entries_view(s: Seq<(String, Json)>)
    ensures
        entries_view(s).len() == s.len(),
        forall|k: int| 0 <= k < s.len() ==> #[trigger] entries_view(s)[k] == (s[k].0@, json_view(s[k].1)),
    decreases s.len(),
{
    if s.len() > 0 {
        let t = s.subrange(0, s.len() - 1);
        lemma_entries_view(t);
        assert forall|k: int| 0 <= k < s.len() implies #[trigger] entries_view(s)[k] == (s[k].0@, json_view(s[k].1)) by {
            if k < s.len() - 1 {
                assert(t[k] == s[k]);
            }
        }
    }
}

/// The document that parsing `text` as JSON gives, or the message of the
/// error it is refused with.
pub uninterp spec fn parsed_json(text: Seq<char>) -> Result<JsonView, Seq<char>>;

/// The JSON text of a document.
pub uninterp spec fn json_text(v: JsonView) -> Seq<char>;

/// Parses JSON text, by `json::parse`; the result is that function's value
/// converted member by member, or the text of the error it reports.
#[verifier::external_body]
pub(crate) fn json_parse(text: &str) -> (r: Result<Json, String>)
    ensures
        match r {
            Ok(j) => parsed_json(text@) == Ok::<JsonView, Seq<char>>(j@),
            Err(e) => parsed_json(text@) == Err::<JsonView, Seq<char>>(e@),
        },
{
    match json::parse(text) {
        Ok(v) => Ok(from_outside(&v)),
        Err(e) => Err(e.to_string()),
    }
}

/// Converts a value of the `json` crate variant by variant.
#[verifier::external_body]
fn from_outside(v: &json::JsonValue) -> Json {
    match v {
        json::JsonValue::Null => Json::Null,
        json::JsonValue::Short(s) => Json::Str(s.as_str().to_string()),
        json::JsonValue::String(s) => Json::Str(s.clone()),
        json::JsonValue::Number(n) => {
            let (positive, mantissa, exponent) = n.as_parts();
            Json::Number(JsonNumber { positive, mantissa, exponent })
        },
        json::JsonValue::Boolean(b) => Json::Boolean(*b),
        json::JsonValue::Object(o) => Json::Object(o.iter().map(|(k, x)| (k.to_string(), from_outside(x))).collect()),
        json::JsonValue::Array(a) => Json::Array(a.iter().map(from_outside).collect()),
    }
}

/// The JSON text of a document, by `JsonValue::dump` of the `json` crate.
#[verifier::external_body]
pub(crate) fn json_dump(v: &Json) -> (r: String)
    ensures
        r@ == json_text(v@),
{
    to_outside(v).dump()
}

/// Converts a document to a value of the `json` crate variant by variant.
#[verifier::external_body]
fn to_outside(v: &Json) -> json::JsonValue {
    match v {
        Json::Null => json::JsonValue::Null,
        Json::Str(s) => json::JsonValue::String(s.clone()),
        Json::Number(n) => json::JsonValue::Number(json::number::Number::from_parts(n.positive, n.mantissa, n.exponent)),
        Json::Boolean(b) => json::JsonValue::Boolean(*b),
        Json::Object(o) => {
            let mut obj = json::object::Object::with_capacity(o.len());
            o.iter().for_each(|(k, x)| obj.insert(k, to_outside(x)));
            json::JsonValue::Object(obj)
        },
        Json::Array(a) => json::JsonValue::Array(a.iter().map(to_outside).collect()),
    }
}

/// The value of the first member named `key`, if any.
pub open spec fn member(entries: Seq<(Seq<char>, JsonView)>, key: Seq<char>) -> Option<JsonView>
    decreases entries.len(),
{
    if entries.len() == 0 {
        None
    } else if entries[0].0 == key {
        Some(entries[0].1)
    } else {
        member(entries.subrange(1, entries.len() as int), key)
    }
}

/// The member `key` of an object; `None` for a missing member or a non-object.
pub open spec fn field(v: JsonView, key: Seq<char>) -> Option<JsonView> {
    match v {
        JsonView::Object(entries) => member(entries, key),
        _ => None,
    }
}

/// The text of a string value.
pub open spec fn as_text(v: Option<JsonView>) -> Option<Seq<char>> {
    match v {
        Some(JsonView::Str(s)) => Some(s),
        _ => None,
    }
}

/// The value of a number that is a non-negative integer in `u64`.
pub open spec fn as_u64(v: Option<JsonView>) -> Option<u64> {
    match v {
        Some(JsonView::Number(n)) => if n.positive && n.exponent == 0 {
            Some(n.mantissa)
        } else {
            None
        },
        _ => None,
    }
}

/// The value of a number that is a non-negative integer in `usize`.
pub open spec fn as_usize(v: Option<JsonView>) -> Option<usize> {
    match as_u64(v) {
        Some(n) => if n <= usize::MAX {
            Some(n as usize)
        } else {
            None
        },
        None => None,
    }
}

/// The value of a boolean.
pub open spec fn as_bool(v: Option<JsonView>) -> Option<bool> {
    match v {
        Some(JsonView::Boolean(b)) => Some(b),
        _ => None,
    }
}

/// The members of an array; none for any other value.
pub open spec fn members(v: Option<JsonView>) -> Seq<JsonView> {
    match v {
        Some(JsonView::Array(a)) => a,
        _ => seq![],
    }
}

proof fn lemma_member_at(entries: Seq<(Seq<char>, JsonView)>, key: Seq<char>, k: int)
    requires
        0 <= k <= entries.len(),
        forall|j: int| 0 <= j < k ==> entries[j].0 != key,
    ensures
        k < entries.len() && entries[k].0 == key ==> member(entries, key) == Some(entries[k].1),
        k == entries.len() ==> member(entries, key) is None,
    decreases k,
{
    if k > 0 {
        let t = entries.subrange(1, entries.len() as int);
        assert forall|j: int| 0 <= j < k - 1 implies t[j].0 != key by {
            assert(t[j] == entries[j + 1]);
        }
        lemma_member_at(t, key, k - 1);
    }
}

impl Json {
    /// The member `key`, if this is an object that has one.
    pub fn get(&self, key: &str) -> (r: Option<&Json>)
        ensures
            match field(self@, key@) {
                Some(x) => r matches Some(y) && y@ == x,
                None => r is None,
            },
    {
        match self {
            Json::Object(entries) => {
                proof {
                    lemma_entries_view(entries@);
                }
                let ghost ev = entries_view(entries@);
                let mut k: usize = 0;
                while k < entries.len()
                    invariant
                        k <= entries@.len(),
                        ev == entries_view(entries@),
                        ev.len() == entries@.len(),
                        forall|j: int| 0 <= j < entries@.len() ==> #[trigger] ev[j] == (entries@[j].0@, json_view(entries@[j].1)),
                        field(self@, key@) == member(ev, key@),
                        forall|j: int| 0 <= j < k ==> ev[j].0 != key@,
                    decreases entries@.len() - k,
                {
                    let entry = &entries[k];
                    assert(ev[k as int] == (entry.0@, json_view(entry.1)));
                    if str_eq(entry.0.as_str(), key) {
                        proof {
                            lemma_member_at(ev, key@, k as int);
                        }
                        return Some(&entry.1);
                    }
                    k = k + 1;
                }
                proof {
                    lemma_member_at(ev, key@, k as int);
                }
                None
            },
            _ => None,
        }
    }

    /// Whether this is an object.
    pub fn is_object(&self) -> (r: bool)
        ensures
            r == (self@ is Object),
    {
        match self {
            Json::Object(_) => true,
            _ => false,
        }
    }
}

/// The value behind an optional reference.
pub open spec fn opt_val(v: Option<&Json>) -> Option<JsonView> {
    match v {
        Some(x) => Some(x@),
        None => None,
    }
}

/// The text of a string value.
pub fn text_of(v: Option<&Json>) -> (r: Option<String>)
    ensures
        match as_text(opt_val(v)) {
            Some(t) => r matches Some(s) && s@ == t,
            None => r is None,
        },
{
    match v {
        Some(Json::Str(s)) => Some(s.clone()),
        _ => None,
    }
}

/// The value of a non-negative integer number.
pub fn u64_of(v: Option<&Json>) -> (r: Option<u64>)
    ensures
        r == as_u64(opt_val(v)),
{
    match v {
        Some(Json::Number(n)) => if n.positive && n.exponent == 0 {
            Some(n.mantissa)
        } else {
            None
        },
        _ => None,
    }
}

/// The value of a non-negative integer number that fits in `usize`.
pub fn usize_of(v: Option<&Json>) -> (r: Option<usize>)
    ensures
        r == as_usize(opt_val(v)),
{
    match u64_of(v) {
        Some(n) => if n <= usize::MAX as u64 {
            Some(n as usize)
        } else {
            None
        },
        None => None,
    }
}

/// The value of a boolean.
pub fn bool_of(v: Option<&Json>) -> (r: Option<bool>)
    ensures
        r == as_bool(opt_val(v)),
{
    match v {
        Some(Json::Boolean(b)) => Some(*b),
        _ => None,
    }
}

/// The members of an array; none for any other value.
pub fn members_of<'a>(v: Option<&'a Json>) -> (r: &'a [Json])
    ensures
        r@.len() == members(opt_val(v)).len(),
        forall|k: int| 0 <= k < r@.len() ==> (#[trigger] r@[k])@ == members(opt_val(v))[k],
{
    match v {
        Some(Json::Array(a)) => {
            proof {
                lemma_items_view(a@);
            }
            a.as_slice()
        },
        _ => &[],
    }
}

} // verus!
