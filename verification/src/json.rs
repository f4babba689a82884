//! The JSON layer the event contents are written in and read from.
//!
//! A JSON object is a `serde_json::Map`; the library reads and builds it through a handful of
//! calls into `serde_json`, each stated below over two names: the entries of an object, and the
//! outermost layer (the "shape") of a value.
use vstd::prelude::*;

verus! {

/// A JSON object, as `serde_json` holds it.
pub type JsonObject = serde_json::Map<String, serde_json::Value>;

#[verifier::external_type_specification]
#[verifier::external_body]
#[verifier::reject_recursive_types(K)]
#[verifier::reject_recursive_types(V)]
pub struct ExJsonMap<K, V>(serde_json::Map<K, V>);

#[verifier::external_type_specification]
#[verifier::external_body]
pub struct ExJsonValue(serde_json::Value);

/// What a JSON object holds: its keys, each with its value.
pub uninterp spec fn json_entries(m: serde_json::Map<String, serde_json::Value>) -> Map<Seq<char>, serde_json::Value>;

/// The outermost layer of a JSON value.
pub uninterp spec fn json_shape(v: serde_json::Value) -> JsonShape;

/// The outermost layer of a JSON value, as contracts speak of it.
///
/// A number is described by the non-negative integer it holds, when it holds one that fits in
/// a `u64`; any other number (negative, fractional) is `Number(None)`.
pub enum JsonShape {
    Null,
    Bool(bool),
    Number(Option<u64>),
    Str(Seq<char>),
    Array(Seq<serde_json::Value>),
    Object(serde_json::Map<String, serde_json::Value>),
}

/// The outermost layer of a JSON value, taken apart.
pub enum JsonItem {
    Null,
    Bool(bool),
    Number(Option<u64>),
    Str(String),
    Array(Vec<serde_json::Value>),
    Object(JsonObject),
}

impl View for JsonItem {
    type V = JsonShape;

    open spec fn view(&self) -> JsonShape {
        match self {
            JsonItem::Null => JsonShape::Null,
            JsonItem::Bool(b) => JsonShape::Bool(*b),
            JsonItem::Number(n) => JsonShape::Number(*n),
            JsonItem::Str(s) => JsonShape::Str(s@),
            JsonItem::Array(a) => JsonShape::Array(a@),
            JsonItem::Object(m) => JsonShape::Object(*m),
        }
    }
}

/// `serde_json::Map::new`: an object without entries.
#[verifier::external_body]
pub(crate) fn json_object_new() -> (obj: JsonObject)
    ensures
        json_entries(obj) =~= Map::empty(),
{
    serde_json::Map::new()
}

/// `serde_json::Map::insert`: the key now holds the value; every other entry stays.
#[verifier::external_body]
pub(crate) fn json_object_insert(m: &mut JsonObject, key: String, value: serde_json::Value)
    ensures
        json_entries(*final(m)) == json_entries(*old(m)).insert(key@, value),
{
    m.insert(key, value);
}

/// `serde_json::Map::remove`: the key leaves the object, and its value, if it had one, is
/// handed back.
#[verifier::external_body]
pub(crate) fn json_object_remove(m: &mut JsonObject, key: &str) -> (r: Option<serde_json::Value>)
    ensures
        json_entries(*final(m)) == json_entries(*old(m)).remove(key@),
        r == (if json_entries(*old(m)).contains_key(key@) {
            Some(json_entries(*old(m))[key@])
        } else {
            None
        }),
{
    m.remove(key)
}

/// `serde_json::Map::contains_key`: whether the key has an entry.
#[verifier::external_body]
pub(crate) fn json_object_contains_key(m: &JsonObject, key: &str) -> (r: bool)
    ensures
        r == json_entries(*m).contains_key(key@),
{
    m.contains_key(key)
}

/// `Clone` of `serde_json::Map`: an object with the same entries.
#[verifier::external_body]
pub(crate) fn json_object_clone(m: &JsonObject) -> (r: JsonObject)
    ensures
        json_entries(r) == json_entries(*m),
{
    m.clone()
}

/// `serde_json::Value::String`: a JSON string.
#[verifier::external_body]
pub(crate) fn json_string_value(s: String) -> (v: serde_json::Value)
    ensures
        json_shape(v) == JsonShape::Str(s@),
{
    serde_json::Value::String(s)
}

/// `serde_json::Value::Bool`: a JSON boolean.
#[verifier::external_body]
pub(crate) fn json_bool_value(b: bool) -> (v: serde_json::Value)
    ensures
        json_shape(v) == JsonShape::Bool(b),
{
    serde_json::Value::Bool(b)
}

/// `From<u64>` for `serde_json::Value`: a JSON number holding the integer.
#[verifier::external_body]
pub(crate) fn json_u64_value(n: u64) -> (v: serde_json::Value)
    ensures
        json_shape(v) == JsonShape::Number(Some(n)),
{
    serde_json::Value::from(n)
}

/// `serde_json::Value::Object`: a JSON object.
#[verifier::external_body]
pub(crate) fn json_object_value(m: JsonObject) -> (v: serde_json::Value)
    ensures
        json_shape(v) == JsonShape::Object(m),
{
    serde_json::Value::Object(m)
}

/// `serde_json::Value::Array`: a JSON array of the values, in order.
#[verifier::external_body]
pub(crate) fn json_array_value(items: Vec<serde_json::Value>) -> (v: serde_json::Value)
    ensures
        json_shape(v) == JsonShape::Array(items@),
{
    serde_json::Value::Array(items)
}

/// Tells the variants of `serde_json::Value` apart; a number is read with
/// `serde_json::Number::as_u64`.
#[verifier::external_body]
pub(crate) fn json_classify(v: serde_json::Value) -> (item: JsonItem)
    ensures
        item@ == json_shape(v),
{
    match v {
        serde_json::Value::Null => JsonItem::Null,
        serde_json::Value::Bool(b) => JsonItem::Bool(b),
        serde_json::Value::Number(n) => JsonItem::Number(n.as_u64()),
        serde_json::Value::String(s) => JsonItem::Str(s),
        serde_json::Value::Array(a) => JsonItem::Array(a),
        serde_json::Value::Object(m) => JsonItem::Object(m),
    }
}

/// Why a JSON object is not the encoding of an event content: the field it concerns, and what
/// is wrong with it.
#[derive(Clone, Debug, PartialEq, Eq)]
pub enum DecodeError {
    /// A required field is absent.
    MissingField(String),
    /// A field holds a value of the wrong kind.
    InvalidType(String),
    /// A field holds a value of the right kind that is out of range.
    InvalidValue(String),
}

/// A decoding error, as contracts speak of it.
pub enum DecodeErrorView {
    MissingField(Seq<char>),
    InvalidType(Seq<char>),
    InvalidValue(Seq<char>),
}

impl View for DecodeError {
    type V = DecodeErrorView;

    open spec fn view(&self) -> DecodeErrorView {
        match self {
            DecodeError::MissingField(f) => DecodeErrorView::MissingField(f@),
            DecodeError::InvalidType(f) => DecodeErrorView::InvalidType(f@),
            DecodeError::InvalidValue(f) => DecodeErrorView::InvalidValue(f@),
        }
    }
}

/// A decoding result, seen through the views of its value and its error.
pub open spec fn result_view<T: View>(r: Result<T, DecodeError>) -> Result<T::V, DecodeErrorView> {
    match r {
        Ok(t) => Ok(t@),
        Err(e) => Err(e@),
    }
}

/// A decoding gives the value `v`.
pub open spec fn decodes_to<T>(r: Result<T, DecodeErrorView>, v: T) -> bool {
    r == Ok::<T, DecodeErrorView>(v)
}

/// The entries of a JSON value that is an object.
pub open spec fn object_entries_of(v: serde_json::Value) -> Map<Seq<char>, serde_json::Value> {
    match json_shape(v) {
        JsonShape::Object(m) => json_entries(m),
        _ => Map::empty(),
    }
}

/// The field holds the string.
pub open spec fn has_str(e: Map<Seq<char>, serde_json::Value>, key: Seq<char>, s: Seq<char>) -> bool {
    e.contains_key(key) && json_shape(e[key]) == JsonShape::Str(s)
}

/// A required string field.
pub open spec fn spec_required_str(e: Map<Seq<char>, serde_json::Value>, key: Seq<char>) -> Result<
    Seq<char>,
    DecodeErrorView,
> {
    if !e.contains_key(key) {
        Err(DecodeErrorView::MissingField(key))
    } else {
        match json_shape(e[key]) {
            JsonShape::Str(s) => Ok(s),
            _ => Err(DecodeErrorView::InvalidType(key)),
        }
    }
}

/// An optional string field: absent or `null` reads as `None`.
pub open spec fn spec_optional_str(e: Map<Seq<char>, serde_json::Value>, key: Seq<char>) -> Result<
    Option<Seq<char>>,
    DecodeErrorView,
> {
    if !e.contains_key(key) {
        Ok(None)
    } else {
        match json_shape(e[key]) {
            JsonShape::Null => Ok(None),
            JsonShape::Str(s) => Ok(Some(s)),
            _ => Err(DecodeErrorView::InvalidType(key)),
        }
    }
}

/// A boolean field that reads as `false` when absent.
pub open spec fn spec_bool_or_false(e: Map<Seq<char>, serde_json::Value>, key: Seq<char>) -> Result<
    bool,
    DecodeErrorView,
> {
    if !e.contains_key(key) {
        Ok(false)
    } else {
        match json_shape(e[key]) {
            JsonShape::Bool(b) => Ok(b),
            _ => Err(DecodeErrorView::InvalidType(key)),
        }
    }
}

/// A required field holding a non-negative integer that fits in a `u64`.
pub open spec fn spec_required_u64(e: Map<Seq<char>, serde_json::Value>, key: Seq<char>) -> Result<
    u64,
    DecodeErrorView,
> {
    if !e.contains_key(key) {
        Err(DecodeErrorView::MissingField(key))
    } else {
        match json_shape(e[key]) {
            JsonShape::Number(Some(n)) => Ok(n),
            _ => Err(DecodeErrorView::InvalidType(key)),
        }
    }
}

/// A required field holding an integer from 0 to 255.
pub open spec fn spec_required_u8(e: Map<Seq<char>, serde_json::Value>, key: Seq<char>) -> Result<
    u8,
    DecodeErrorView,
> {
    match spec_required_u64(e, key) {
        Ok(n) => if n <= 255 {
            Ok(n as u8)
        } else {
            Err(DecodeErrorView::InvalidValue(key))
        },
        Err(err) => Err(err),
    }
}

/// A required field holding an object.
pub open spec fn spec_required_object(e: Map<Seq<char>, serde_json::Value>, key: Seq<char>) -> Result<
    JsonObject,
    DecodeErrorView,
> {
    if !e.contains_key(key) {
        Err(DecodeErrorView::MissingField(key))
    } else {
        match json_shape(e[key]) {
            JsonShape::Object(m) => Ok(m),
            _ => Err(DecodeErrorView::InvalidType(key)),
        }
    }
}

/// An optional field holding an object: absent or `null` reads as `None`.
pub open spec fn spec_optional_object(e: Map<Seq<char>, serde_json::Value>, key: Seq<char>) -> Result<
    Option<JsonObject>,
    DecodeErrorView,
> {
    if !e.contains_key(key) {
        Ok(None)
    } else {
        match json_shape(e[key]) {
            JsonShape::Null => Ok(None),
            JsonShape::Object(m) => Ok(Some(m)),
            _ => Err(DecodeErrorView::InvalidType(key)),
        }
    }
}

/// A field holding an array, which reads as empty when absent.
pub open spec fn spec_array_or_empty(e: Map<Seq<char>, serde_json::Value>, key: Seq<char>) -> Result<
    Seq<serde_json::Value>,
    DecodeErrorView,
> {
    if !e.contains_key(key) {
        Ok(Seq::empty())
    } else {
        match json_shape(e[key]) {
            JsonShape::Array(a) => Ok(a),
            _ => Err(DecodeErrorView::InvalidType(key)),
        }
    }
}

/// Takes a required string field out of the object.
pub(crate) fn take_required_str(obj: &mut JsonObject, key: &str) -> (r: Result<String, DecodeError>)
    ensures
        json_entries(*final(obj)) == json_entries(*old(obj)).remove(key@),
        result_view(r) == spec_required_str(json_entries(*old(obj)), key@),
{
    match json_object_remove(obj, key) {
        None => Err(DecodeError::MissingField(key.to_owned())),
        Some(v) => match json_classify(v) {
            JsonItem::Str(s) => Ok(s),
            _ => Err(DecodeError::InvalidType(key.to_owned())),
        },
    }
}

/// An object-valued decoding result, seen through the view of its error.
pub open spec fn object_result_view(r: Result<JsonObject, DecodeError>) -> Result<JsonObject, DecodeErrorView> {
    match r {
        Ok(m) => Ok(m),
        Err(e) => Err(e@),
    }
}

/// An optional string-valued decoding result, seen through the views of its string and its
/// error.
pub open spec fn optional_str_result_view(r: Result<Option<String>, DecodeError>) -> Result<
    Option<Seq<char>>,
    DecodeErrorView,
> {
    match r {
        Ok(Some(s)) => Ok(Some(s@)),
        Ok(None) => Ok(None),
        Err(e) => Err(e@),
    }
}

/// An optional object-valued decoding result, seen through the view of its error.
pub open spec fn optional_object_result_view(r: Result<Option<JsonObject>, DecodeError>) -> Result<
    Option<JsonObject>,
    DecodeErrorView,
> {
    match r {
        Ok(m) => Ok(m),
        Err(e) => Err(e@),
    }
}

/// Takes an optional string field out of the object.
pub(crate) fn take_optional_str(obj: &mut JsonObject, key: &str) -> (r: Result<Option<String>, DecodeError>)
    ensures
        json_entries(*final(obj)) == json_entries(*old(obj)).remove(key@),
        optional_str_result_view(r) == spec_optional_str(json_entries(*old(obj)), key@),
{
    match json_object_remove(obj, key) {
        None => Ok(None),
        Some(v) => match json_classify(v) {
            JsonItem::Null => Ok(None),
            JsonItem::Str(s) => Ok(Some(s)),
            _ => Err(DecodeError::InvalidType(key.to_owned())),
        },
    }
}

/// Takes a boolean field that defaults to `false` out of the object.
pub(crate) fn take_bool_or_false(obj: &mut JsonObject, key: &str) -> (r: Result<bool, DecodeError>)
    ensures
        json_entries(*final(obj)) == json_entries(*old(obj)).remove(key@),
        result_view(r) == spec_bool_or_false(json_entries(*old(obj)), key@),
{
    match json_object_remove(obj, key) {
        None => Ok(false),
        Some(v) => match json_classify(v) {
            JsonItem::Bool(b) => Ok(b),
            _ => Err(DecodeError::InvalidType(key.to_owned())),
        },
    }
}

/// Takes a required non-negative integer field out of the object.
pub(crate) fn take_required_u64(obj: &mut JsonObject, key: &str) -> (r: Result<u64, DecodeError>)
    ensures
        json_entries(*final(obj)) == json_entries(*old(obj)).remove(key@),
        result_view(r) == spec_required_u64(json_entries(*old(obj)), key@),
{
    match json_object_remove(obj, key) {
        None => Err(DecodeError::MissingField(key.to_owned())),
        Some(v) => match json_classify(v) {
            JsonItem::Number(Some(n)) => Ok(n),
            _ => Err(DecodeError::InvalidType(key.to_owned())),
        },
    }
}

/// Takes a required field holding an integer from 0 to 255 out of the object.
pub(crate) fn take_required_u8(obj: &mut JsonObject, key: &str) -> (r: Result<u8, DecodeError>)
    ensures
        json_entries(*final(obj)) == json_entries(*old(obj)).remove(key@),
        result_view(r) == spec_required_u8(json_entries(*old(obj)), key@),
{
    match take_required_u64(obj, key) {
        Ok(n) => if n <= 255 {
            Ok(n as u8)
        } else {
            Err(DecodeError::InvalidValue(key.to_owned()))
        },
        Err(err) => Err(err),
    }
}

/// Takes a required object field out of the object.
pub(crate) fn take_required_object(obj: &mut JsonObject, key: &str) -> (r: Result<JsonObject, DecodeError>)
    ensures
        json_entries(*final(obj)) == json_entries(*old(obj)).remove(key@),
        object_result_view(r) == spec_required_object(json_entries(*old(obj)), key@),
{
    match json_object_remove(obj, key) {
        None => Err(DecodeError::MissingField(key.to_owned())),
        Some(v) => match json_classify(v) {
            JsonItem::Object(m) => Ok(m),
            _ => Err(DecodeError::InvalidType(key.to_owned())),
        },
    }
}

/// Takes an optional object field out of the object.
pub(crate) fn take_optional_object(obj: &mut JsonObject, key: &str) -> (r: Result<Option<JsonObject>, DecodeError>)
    ensures
        json_entries(*final(obj)) == json_entries(*old(obj)).remove(key@),
        optional_object_result_view(r) == spec_optional_object(json_entries(*old(obj)), key@),
{
    match json_object_remove(obj, key) {
        None => Ok(None),
        Some(v) => match json_classify(v) {
            JsonItem::Null => Ok(None),
            JsonItem::Object(m) => Ok(Some(m)),
            _ => Err(DecodeError::InvalidType(key.to_owned())),
        },
    }
}

/// Takes an array field that defaults to empty out of the object.
pub(crate) fn take_array_or_empty(obj: &mut JsonObject, key: &str) -> (r: Result<Vec<serde_json::Value>, DecodeError>)
    ensures
        json_entries(*final(obj)) == json_entries(*old(obj)).remove(key@),
        result_view(r) == spec_array_or_empty(json_entries(*old(obj)), key@),
{
    match json_object_remove(obj, key) {
        None => Ok(Vec::new()),
        Some(v) => match json_classify(v) {
            JsonItem::Array(a) => Ok(a),
            _ => Err(DecodeError::InvalidType(key.to_owned())),
        },
    }
}

/// Whether two strings hold the same characters.
pub(crate) fn same_str(a: &str, b: &str) -> (r: bool)
    ensures
        r == (a@ == b@),
{
    let a: String = a.to_owned();
    let b: String = b.to_owned();
    a == b
}

} // verus!
