//! Description of API calls: endpoint paths with their query strings, and the
//! JSON fields of request bodies.

use vstd::prelude::*;
use std::collections::HashMap;
use crate::client::{pairs_view, Method};
use crate::external::{json_text, value_text};
use crate::text::{i64_text, int_decimal};

verus! {

/// A list of query parameters, as the characters of each name and value.
pub type ParamsView = Seq<(Seq<char>, Seq<char>)>;

/// `name=value`.
pub open spec fn param_text(p: (Seq<char>, Seq<char>)) -> Seq<char> {
    p.0 + "="@ + p.1
}

/// The parameters as `name=value` items joined with `&`.
pub open spec fn joined_params(ps: ParamsView) -> Seq<char>
    decreases ps.len(),
{
    if ps.len() == 0 {
        Seq::empty()
    } else if ps.len() == 1 {
        param_text(ps[0])
    } else {
        joined_params(ps.drop_last()) + "&"@ + param_text(ps.last())
    }
}

/// The query part of a URL: empty when there are no parameters, otherwise
/// `?` followed by the joined parameters.
pub open spec fn query_suffix(ps: ParamsView) -> Seq<char> {
    if ps.len() == 0 {
        Seq::empty()
    } else {
        "?"@ + joined_params(ps)
    }
}

/// The parameters each written as `name=value&`.
pub open spec fn trailing_params(ps: ParamsView) -> Seq<char>
    decreases ps.len(),
{
    if ps.len() == 0 {
        Seq::empty()
    } else {
        trailing_params(ps.drop_last()) + param_text(ps.last()) + "&"@
    }
}

/// One parameter `name` when `value` is present.
pub open spec fn opt_param(name: Seq<char>, value: Option<Seq<char>>) -> ParamsView {
    match value {
        Some(v) => seq![(name, v)],
        None => Seq::empty(),
    }
}

/// The characters of an optional string.
pub open spec fn opt_view(s: Option<&str>) -> Option<Seq<char>> {
    match s {
        Some(v) => Some(v@),
        None => None,
    }
}

/// The characters of an optional owned string.
pub open spec fn opt_string_view(s: Option<String>) -> Option<Seq<char>> {
    match s {
        Some(v) => Some(v@),
        None => None,
    }
}

/// The decimal text of an optional integer.
pub open spec fn opt_int_view(n: Option<i64>) -> Option<Seq<char>> {
    match n {
        Some(v) => Some(int_decimal(v as int)),
        None => None,
    }
}

/// Appends the parameter `name=value`.
pub fn push_param(params: &mut Vec<(String, String)>, name: &str, value: &str)
    ensures
        pairs_view(final(params)@) == pairs_view(old(params)@).push((name@, value@)),
{
    params.push((String::from(name), String::from(value)));
    proof {
        assert(pairs_view(final(params)@) =~= pairs_view(old(params)@).push((name@, value@)));
    }
}

/// Appends the parameter `name` when `value` is present.
pub fn push_opt_str(params: &mut Vec<(String, String)>, name: &str, value: Option<&str>)
    ensures
        pairs_view(final(params)@) == pairs_view(old(params)@) + opt_param(name@, opt_view(value)),
{
    match value {
        Some(v) => push_param(params, name, v),
        None => {
            assert(pairs_view(old(params)@) + opt_param(name@, opt_view(value)) =~= pairs_view(old(params)@));
        },
    }
}

/// Appends the parameter `name` when `value` is present.
pub fn push_opt_string(params: &mut Vec<(String, String)>, name: &str, value: Option<String>)
    ensures
        pairs_view(final(params)@) == pairs_view(old(params)@) + opt_param(name@, opt_string_view(value)),
{
    match value {
        Some(v) => push_param(params, name, v.as_str()),
        None => {
            assert(pairs_view(old(params)@) + opt_param(name@, opt_string_view(value)) =~= pairs_view(old(params)@));
        },
    }
}

/// The decimal text of an optional 32-bit integer.
pub open spec fn opt_i32_view(n: Option<i32>) -> Option<Seq<char>> {
    match n {
        Some(v) => Some(int_decimal(v as int)),
        None => None,
    }
}

/// The JSON text of an optional JSON value.
pub open spec fn opt_json_view(v: Option<serde_json::Value>) -> Option<Seq<char>> {
    match v {
        Some(x) => Some(json_text(x)),
        None => None,
    }
}

/// The JSON text of an optional JSON value, as a query parameter carries it.
pub fn opt_value_text(v: &Option<serde_json::Value>) -> (r: Option<String>)
    ensures
        opt_string_view(r) == opt_json_view(*v),
{
    match v {
        Some(x) => Some(value_text(x)),
        None => None,
    }
}

/// Appends the parameter `name`, in decimal, when `value` is present.
pub fn push_opt_i32(params: &mut Vec<(String, String)>, name: &str, value: Option<i32>)
    ensures
        pairs_view(final(params)@) == pairs_view(old(params)@) + opt_param(name@, opt_i32_view(value)),
{
    match value {
        Some(v) => {
            let text = i64_text(v as i64);
            push_param(params, name, text.as_str());
        },
        None => {
            assert(pairs_view(old(params)@) + opt_param(name@, opt_i32_view(value)) =~= pairs_view(old(params)@));
        },
    }
}

/// Appends the parameter `name`, in decimal, when `value` is present.
pub fn push_opt_int(params: &mut Vec<(String, String)>, name: &str, value: Option<i64>)
    ensures
        pairs_view(final(params)@) == pairs_view(old(params)@) + opt_param(name@, opt_int_view(value)),
{
    match value {
        Some(v) => {
            let text = i64_text(v);
            push_param(params, name, text.as_str());
        },
        None => {
            assert(pairs_view(old(params)@) + opt_param(name@, opt_int_view(value)) =~= pairs_view(old(params)@));
        },
    }
}

/// The query part of a URL for `params`: empty, or `?` and the parameters joined with `&`.
pub fn query_string(params: &Vec<(String, String)>) -> (q: String)
    ensures
        q@ == query_suffix(pairs_view(params@)),
{
    let ghost ps = pairs_view(params@);
    let mut out = String::new();
    let mut i: usize = 0;
    while i < params.len()
        invariant
            0 <= i <= params.len(),
            ps == pairs_view(params@),
            out@ == query_suffix(ps.subrange(0, i as int)),
        decreases params.len() - i,
    {
        let sep = if i == 0 { "?" } else { "&" };
        out.append(sep);
        out.append(params[i].0.as_str());
        out.append("=");
        out.append(params[i].1.as_str());
        proof {
            let pre = ps.subrange(0, i as int);
            let post = ps.subrange(0, i + 1);
            assert(post.drop_last() =~= pre);
            assert(post.last() == ps[i as int]);
            if i == 0 {
                assert(joined_params(post) == param_text(ps[0]));
            } else {
                assert(joined_params(post) == joined_params(pre) + "&"@ + param_text(ps[i as int]));
            }
        }
        i = i + 1;
    }
    proof {
        assert(ps.subrange(0, params.len() as int) =~= ps);
    }
    out
}

/// `prefix` followed by every parameter written as `name=value&`.
pub fn trailing_query(prefix: &str, params: &Vec<(String, String)>) -> (q: String)
    ensures
        q@ == prefix@ + trailing_params(pairs_view(params@)),
{
    let ghost ps = pairs_view(params@);
    let mut out = String::from(prefix);
    let mut i: usize = 0;
    while i < params.len()
        invariant
            0 <= i <= params.len(),
            ps == pairs_view(params@),
            out@ == prefix@ + trailing_params(ps.subrange(0, i as int)),
        decreases params.len() - i,
    {
        out.append(params[i].0.as_str());
        out.append("=");
        out.append(params[i].1.as_str());
        out.append("&");
        proof {
            let pre = ps.subrange(0, i as int);
            let post = ps.subrange(0, i + 1);
            assert(post.drop_last() =~= pre);
        }
        i = i + 1;
    }
    proof {
        assert(ps.subrange(0, params.len() as int) =~= ps);
    }
    out
}

} // verus!

verus! {

/// A value of a request body field.
#[derive(Debug)]
pub enum JsonField {
    Str(String),
    Int(i64),
    Bool(bool),
    IntList(Vec<i64>),
    StrList(Vec<String>),
    StrMap(HashMap<String, String>),
    Value(serde_json::Value),
}

/// The meaning of a body field: its characters, number, flag, list or map.
pub ghost enum FieldSpec {
    Str(Seq<char>),
    Int(int),
    Bool(bool),
    IntList(Seq<i64>),
    StrList(Seq<Seq<char>>),
    StrMap(Map<String, String>),
    Value(serde_json::Value),
}

impl JsonField {
    /// The meaning of the field.
    pub open spec fn spec(&self) -> FieldSpec {
        match self {
            JsonField::Str(s) => FieldSpec::Str(s@),
            JsonField::Int(n) => FieldSpec::Int(*n as int),
            JsonField::Bool(b) => FieldSpec::Bool(*b),
            JsonField::IntList(v) => FieldSpec::IntList(v@),
            JsonField::StrList(v) => FieldSpec::StrList(v@.map_values(|s: String| s@)),
            JsonField::StrMap(m) => FieldSpec::StrMap(m@),
            JsonField::Value(v) => FieldSpec::Value(*v),
        }
    }
}

/// The fields of a JSON object sent as a request body, in the order they were set.
#[derive(Debug)]
pub struct JsonBody {
    pub fields: Vec<(String, JsonField)>,
}

/// The meaning of a list of body fields: each name with the meaning of its value.
pub open spec fn fields_spec(fields: Seq<(String, JsonField)>) -> Seq<(Seq<char>, FieldSpec)> {
    fields.map_values(|f: (String, JsonField)| (f.0@, f.1.spec()))
}

/// One field `name` when `value` is present.
pub open spec fn opt_field(name: Seq<char>, value: Option<FieldSpec>) -> Seq<(Seq<char>, FieldSpec)> {
    match value {
        Some(v) => seq![(name, v)],
        None => Seq::empty(),
    }
}

/// The meaning of an optional string field.
pub open spec fn opt_str_field(s: Option<&str>) -> Option<FieldSpec> {
    match s {
        Some(v) => Some(FieldSpec::Str(v@)),
        None => None,
    }
}

/// The meaning of an optional integer field.
pub open spec fn opt_int_field(n: Option<i64>) -> Option<FieldSpec> {
    match n {
        Some(v) => Some(FieldSpec::Int(v as int)),
        None => None,
    }
}

/// The meaning of an optional flag field.
pub open spec fn opt_bool_field(b: Option<bool>) -> Option<FieldSpec> {
    match b {
        Some(v) => Some(FieldSpec::Bool(v)),
        None => None,
    }
}

/// The meaning of an optional string-list field.
pub open spec fn opt_str_list_field(v: Option<Vec<String>>) -> Option<FieldSpec> {
    match v {
        Some(x) => Some(FieldSpec::StrList(x@.map_values(|s: String| s@))),
        None => None,
    }
}

/// The meaning of an optional integer-list field.
pub open spec fn opt_int_list_field(v: Option<Vec<i64>>) -> Option<FieldSpec> {
    match v {
        Some(x) => Some(FieldSpec::IntList(x@)),
        None => None,
    }
}

/// The meaning of an optional owned string field.
pub open spec fn opt_string_field(s: Option<String>) -> Option<FieldSpec> {
    match s {
        Some(v) => Some(FieldSpec::Str(v@)),
        None => None,
    }
}

/// The meaning of an optional string-map field.
pub open spec fn opt_str_map_field(m: Option<HashMap<String, String>>) -> Option<FieldSpec> {
    match m {
        Some(x) => Some(FieldSpec::StrMap(x@)),
        None => None,
    }
}

/// The meaning of an optional JSON value field.
pub open spec fn opt_value_field(v: Option<serde_json::Value>) -> Option<FieldSpec> {
    match v {
        Some(x) => Some(FieldSpec::Value(x)),
        None => None,
    }
}

impl JsonBody {
    /// The fields of the body, in order.
    pub open spec fn spec_fields(&self) -> Seq<(Seq<char>, FieldSpec)> {
        fields_spec(self.fields@)
    }

    /// An empty JSON object.
    pub fn new() -> (b: Self)
        ensures
            b.spec_fields() == Seq::<(Seq<char>, FieldSpec)>::empty(),
    {
        let b = JsonBody { fields: Vec::new() };
        proof { assert(b.spec_fields() =~= Seq::<(Seq<char>, FieldSpec)>::empty()); }
        b
    }

    /// Sets the field `name` (not set before) to `value`.
    pub fn set(&mut self, name: &str, value: JsonField)
        ensures
            final(self).spec_fields() == old(self).spec_fields().push((name@, value.spec())),
    {
        let ghost v = value.spec();
        self.fields.push((String::from(name), value));
        proof {
            assert(fields_spec(self.fields@) =~= fields_spec(old(self).fields@).push((name@, v)));
        }
    }

    /// Sets the string field `name` when `value` is present.
    pub fn set_opt_str(&mut self, name: &str, value: Option<&str>)
        ensures
            final(self).spec_fields() == old(self).spec_fields() + opt_field(name@, opt_str_field(value)),
    {
        match value {
            Some(v) => self.set(name, JsonField::Str(String::from(v))),
            None => {
                assert(old(self).spec_fields() + opt_field(name@, opt_str_field(value)) =~= old(self).spec_fields());
            },
        }
    }

    /// Sets the string field `name` when `value` is present.
    pub fn set_opt_string(&mut self, name: &str, value: Option<String>)
        ensures
            final(self).spec_fields() == old(self).spec_fields() + opt_field(name@, opt_string_field(value)),
    {
        match value {
            Some(v) => self.set(name, JsonField::Str(v)),
            None => {
                assert(old(self).spec_fields() + opt_field(name@, opt_string_field(value)) =~= old(self).spec_fields());
            },
        }
    }

    /// Sets the string-map field `name` when `value` is present.
    pub fn set_opt_str_map(&mut self, name: &str, value: Option<HashMap<String, String>>)
        ensures
            final(self).spec_fields() == old(self).spec_fields() + opt_field(name@, opt_str_map_field(value)),
    {
        match value {
            Some(v) => self.set(name, JsonField::StrMap(v)),
            None => {
                assert(old(self).spec_fields() + opt_field(name@, opt_str_map_field(value)) =~= old(self).spec_fields());
            },
        }
    }

    /// Sets the integer field `name` when `value` is present.
    pub fn set_opt_int(&mut self, name: &str, value: Option<i64>)
        ensures
            final(self).spec_fields() == old(self).spec_fields() + opt_field(name@, opt_int_field(value)),
    {
        match value {
            Some(v) => self.set(name, JsonField::Int(v)),
            None => {
                assert(old(self).spec_fields() + opt_field(name@, opt_int_field(value)) =~= old(self).spec_fields());
            },
        }
    }

    /// Sets the flag field `name` when `value` is present.
    pub fn set_opt_bool(&mut self, name: &str, value: Option<bool>)
        ensures
            final(self).spec_fields() == old(self).spec_fields() + opt_field(name@, opt_bool_field(value)),
    {
        match value {
            Some(v) => self.set(name, JsonField::Bool(v)),
            None => {
                assert(old(self).spec_fields() + opt_field(name@, opt_bool_field(value)) =~= old(self).spec_fields());
            },
        }
    }

    /// Sets the string-list field `name` when `value` is present.
    pub fn set_opt_str_list(&mut self, name: &str, value: Option<Vec<String>>)
        ensures
            final(self).spec_fields() == old(self).spec_fields() + opt_field(name@, opt_str_list_field(value)),
    {
        match value {
            Some(v) => self.set(name, JsonField::StrList(v)),
            None => {
                assert(old(self).spec_fields() + opt_field(name@, opt_str_list_field(value)) =~= old(self).spec_fields());
            },
        }
    }

    /// Sets the integer-list field `name` when `value` is present.
    pub fn set_opt_int_list(&mut self, name: &str, value: Option<Vec<i64>>)
        ensures
            final(self).spec_fields() == old(self).spec_fields() + opt_field(name@, opt_int_list_field(value)),
    {
        match value {
            Some(v) => self.set(name, JsonField::IntList(v)),
            None => {
                assert(old(self).spec_fields() + opt_field(name@, opt_int_list_field(value)) =~= old(self).spec_fields());
            },
        }
    }

    /// Sets the field `name` to a JSON value when one is present.
    pub fn set_opt_value(&mut self, name: &str, value: Option<serde_json::Value>)
        ensures
            final(self).spec_fields() == old(self).spec_fields() + opt_field(name@, opt_value_field(value)),
    {
        match value {
            Some(v) => self.set(name, JsonField::Value(v)),
            None => {
                assert(old(self).spec_fields() + opt_field(name@, opt_value_field(value)) =~= old(self).spec_fields());
            },
        }
    }
}

/// What a request carries.
#[derive(Debug)]
pub enum Payload {
    /// Nothing
    Empty,
    /// A JSON object made of fields
    Fields(JsonBody),
    /// A JSON document given by the caller
    Document(serde_json::Value),
    /// URL-encoded form fields
    Form(Vec<(String, String)>),
}

/// An API call: method, path below the base URL, and payload.
#[derive(Debug)]
pub struct ApiCall {
    pub method: Method,
    pub path: String,
    pub payload: Payload,
}

impl ApiCall {
    /// A call without payload to `path`.
    pub open spec fn is_plain(&self, method: Method, path: Seq<char>) -> bool {
        self.method == method && self.path@ == path && self.payload is Empty
    }

    /// A call to `path` whose payload is a JSON object with `fields`.
    pub open spec fn has_fields(&self, method: Method, path: Seq<char>, fields: Seq<(Seq<char>, FieldSpec)>) -> bool {
        &&& self.method == method
        &&& self.path@ == path
        &&& self.payload matches Payload::Fields(b) && b.spec_fields() == fields
    }

    /// A call to `path` whose payload is the JSON document `doc`.
    pub open spec fn has_document(&self, method: Method, path: Seq<char>, doc: serde_json::Value) -> bool {
        self.method == method && self.path@ == path && self.payload == Payload::Document(doc)
    }

    /// A call to `path` whose payload is the URL-encoded `form`, in order.
    pub open spec fn has_form(&self, method: Method, path: Seq<char>, form: ParamsView) -> bool {
        &&& self.method == method
        &&& self.path@ == path
        &&& self.payload matches Payload::Form(f) && pairs_view(f@) == form
    }

    /// A call without payload.
    pub fn plain(method: Method, path: String) -> (c: Self)
        ensures
            c.is_plain(method, path@),
    {
        ApiCall { method, path, payload: Payload::Empty }
    }

    /// A call with a JSON object payload.
    pub fn with_fields(method: Method, path: String, body: JsonBody) -> (c: Self)
        ensures
            c.has_fields(method, path@, body.spec_fields()),
    {
        ApiCall { method, path, payload: Payload::Fields(body) }
    }

    /// A call with a URL-encoded form payload.
    pub fn with_form(method: Method, path: String, form: Vec<(String, String)>) -> (c: Self)
        ensures
            c.has_form(method, path@, pairs_view(form@)),
    {
        ApiCall { method, path, payload: Payload::Form(form) }
    }

    /// A call with a JSON document payload.
    pub fn with_document(method: Method, path: String, doc: serde_json::Value) -> (c: Self)
        ensures
            c.has_document(method, path@, doc),
    {
        ApiCall { method, path, payload: Payload::Document(doc) }
    }
}

} // verus!

verus! {

/// A query string grows one parameter at a time: no parameters give no query;
/// adding `name`, `value` appends `?name=value` to an empty query and
/// `&name=value` to a non-empty one.
pub proof fn lemma_query_grows(ps: ParamsView, name: Seq<char>, value: Seq<char>)
    ensures
        query_suffix(Seq::empty()) == Seq::<char>::empty(),
        query_suffix(ps.push((name, value))) == query_suffix(ps) + (if ps.len() == 0 { "?"@ } else { "&"@ })
            + name + "="@ + value,
{
    let qs = ps.push((name, value));
    assert(qs.drop_last() =~= ps);
    assert(qs.last() == (name, value));
    if ps.len() == 0 {
        assert(joined_params(qs) == param_text((name, value)));
    } else {
        assert(joined_params(qs) == joined_params(ps) + "&"@ + param_text((name, value)));
    }
}

/// A trailing query grows one parameter at a time: each adds `name=value&`.
pub proof fn lemma_trailing_query_grows(ps: ParamsView, name: Seq<char>, value: Seq<char>)
    ensures
        trailing_params(Seq::empty()) == Seq::<char>::empty(),
        trailing_params(ps.push((name, value))) == trailing_params(ps) + name + "="@ + value + "&"@,
{
    let qs = ps.push((name, value));
    assert(qs.drop_last() =~= ps);
}

/// A parameter is sent exactly when its value is given.
pub proof fn lemma_opt_param(name: Seq<char>, value: Seq<char>)
    ensures
        opt_param(name, None) == Seq::<(Seq<char>, Seq<char>)>::empty(),
        opt_param(name, Some(value)) == seq![(name, value)],
{
}

} // verus!
