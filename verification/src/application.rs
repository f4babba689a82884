//! The application object shared by the MatrixRTC slot and member events.
//!
//! It names the MatrixRTC application type (such as `m.call`) and may carry data of its own.
//! Its JSON encoding is an object with a string `type` entry; for `m.call` the other entries are
//! those of a [`CallApplication`], and for any other type they are kept as they are.
use vstd::prelude::*;

use crate::json::{
    decodes_to, has_str, json_bool_value, json_entries, json_object_clone, json_object_contains_key,
    json_object_insert, json_object_new, json_shape, json_string_value, result_view, same_str,
    spec_bool_or_false, spec_required_str, take_bool_or_false, take_required_str, DecodeError,
    DecodeErrorView, JsonObject, JsonShape,
};

verus! {

/// A voice or video call application (`m.call`).
#[derive(Clone, Debug, PartialEq, Eq)]
#[non_exhaustive]
pub struct CallApplication {
    /// The identifier of the call.
    pub call_id: String,
    /// Whether this call is voice-only.
    pub voice_only: bool,
}

/// A call application, as contracts speak of it.
pub struct CallApplicationView {
    pub call_id: Seq<char>,
    pub voice_only: bool,
}

impl View for CallApplication {
    type V = CallApplicationView;

    open spec fn view(&self) -> CallApplicationView {
        CallApplicationView { call_id: self.call_id@, voice_only: self.voice_only }
    }
}

/// A custom MatrixRTC application: its type, and the rest of its JSON object.
#[derive(Debug, PartialEq)]
pub struct CustomApplication {
    application_type: String,
    data: JsonObject,
}

/// The MatrixRTC application a slot or member event applies to.
#[derive(Clone, Debug, PartialEq)]
#[non_exhaustive]
pub enum RtcApplication {
    /// A voice or video call application.
    Call(CallApplication),
    /// A custom application.
    _Custom(CustomApplication),
}

/// A custom application, as contracts speak of it: its type and the entries of its data.
pub struct CustomApplicationView {
    pub application_type: Seq<char>,
    pub data: Map<Seq<char>, serde_json::Value>,
}

impl View for CustomApplication {
    type V = CustomApplicationView;

    closed spec fn view(&self) -> CustomApplicationView {
        CustomApplicationView { application_type: self.application_type@, data: json_entries(self.data) }
    }
}

impl Clone for CustomApplication {
    fn clone(&self) -> (r: Self)
        ensures
            r@ == self@,
    {
        CustomApplication { application_type: self.application_type.clone(), data: json_object_clone(&self.data) }
    }
}

/// An application, as contracts speak of it.
pub enum RtcApplicationView {
    Call(CallApplicationView),
    Custom(CustomApplicationView),
}

impl View for RtcApplication {
    type V = RtcApplicationView;

    open spec fn view(&self) -> RtcApplicationView {
        match self {
            RtcApplication::Call(c) => RtcApplicationView::Call(c@),
            RtcApplication::_Custom(c) => RtcApplicationView::Custom(c@),
        }
    }
}

impl RtcApplicationView {
    /// The application type: `m.call` for a call, the stored type for a custom application.
    pub open spec fn application_type(self) -> Seq<char> {
        match self {
            RtcApplicationView::Call(_) => "m.call"@,
            RtcApplicationView::Custom(c) => c.application_type,
        }
    }
}

/// The JSON entries `e` are the encoding of the call application `c`: its identifier under
/// `m.call.id`, and `m.call.voice_only: true` only when the call is voice-only.
pub open spec fn call_repr(c: CallApplicationView, e: Map<Seq<char>, serde_json::Value>) -> bool {
    &&& has_str(e, "m.call.id"@, c.call_id)
    &&& if c.voice_only {
        &&& e.contains_key("m.call.voice_only"@)
        &&& json_shape(e["m.call.voice_only"@]) == JsonShape::Bool(true)
        &&& e.dom() == set!["m.call.id"@, "m.call.voice_only"@]
    } else {
        e.dom() == set!["m.call.id"@]
    }
}

/// Reads a call application from JSON entries: `m.call.id` must be a string, and
/// `m.call.voice_only`, when present, a boolean. Other entries are ignored.
pub open spec fn spec_decode_call(e: Map<Seq<char>, serde_json::Value>) -> Result<
    CallApplicationView,
    DecodeErrorView,
> {
    match spec_required_str(e, "m.call.id"@) {
        Err(err) => Err(err),
        Ok(call_id) => match spec_bool_or_false(e, "m.call.voice_only"@) {
            Err(err) => Err(err),
            Ok(voice_only) => Ok(CallApplicationView { call_id, voice_only }),
        },
    }
}

/// The application that a type and the rest of a JSON object make: for `m.call` the rest must
/// read as a call application; any other type makes a custom application that keeps the rest.
pub open spec fn spec_application_from_parts(
    application_type: Seq<char>,
    data: Map<Seq<char>, serde_json::Value>,
) -> Result<RtcApplicationView, DecodeErrorView> {
    if application_type == "m.call"@ {
        match spec_decode_call(data) {
            Ok(c) => Ok(RtcApplicationView::Call(c)),
            Err(err) => Err(err),
        }
    } else {
        Ok(RtcApplicationView::Custom(CustomApplicationView { application_type, data }))
    }
}

/// Reads an application from JSON entries: `type` must be a string, and the other entries make
/// the application with that type.
pub open spec fn spec_decode_application(e: Map<Seq<char>, serde_json::Value>) -> Result<
    RtcApplicationView,
    DecodeErrorView,
> {
    match spec_required_str(e, "type"@) {
        Err(err) => Err(err),
        Ok(application_type) => spec_application_from_parts(application_type, e.remove("type"@)),
    }
}

/// The JSON entries `e` are the encoding of the application `a`: a string `type` entry beside
/// the entries of a call; for a custom application, its data with a `type` entry added unless
/// the data holds one already.
pub open spec fn application_repr(a: RtcApplicationView, e: Map<Seq<char>, serde_json::Value>) -> bool {
    match a {
        RtcApplicationView::Call(c) => {
            &&& has_str(e, "type"@, "m.call"@)
            &&& call_repr(c, e.remove("type"@))
        },
        RtcApplicationView::Custom(c) => if c.data.contains_key("type"@) {
            e == c.data
        } else {
            &&& has_str(e, "type"@, c.application_type)
            &&& e.remove("type"@) == c.data
        },
    }
}

/// The keys of an application's encoding are pairwise distinct.
proof fn lemma_application_keys_distinct()
    ensures
        "type"@ != "m.call.id"@,
        "type"@ != "m.call.voice_only"@,
        "m.call.id"@ != "m.call.voice_only"@,
{
    reveal_strlit("type");
    reveal_strlit("m.call.id");
    reveal_strlit("m.call.voice_only");
    assert("type"@.len() != "m.call.id"@.len());
    assert("type"@.len() != "m.call.voice_only"@.len());
    assert("m.call.id"@.len() != "m.call.voice_only"@.len());
}

impl CallApplication {
    /// Creates a new `CallApplication` with the given call ID, not voice-only.
    pub fn new(call_id: String) -> (r: Self)
        ensures
            r.call_id == call_id,
            !r.voice_only,
    {
        CallApplication { call_id, voice_only: false }
    }

    /// The JSON object of this call application.
    pub fn to_json_object(&self) -> (obj: JsonObject)
        ensures
            call_repr(self@, json_entries(obj)),
    {
        let mut obj = json_object_new();
        proof {
            lemma_application_keys_distinct();
        }
        json_object_insert(&mut obj, "m.call.id".to_owned(), json_string_value(self.call_id.clone()));
        if self.voice_only {
            json_object_insert(&mut obj, "m.call.voice_only".to_owned(), json_bool_value(true));
        }
        obj
    }

    /// Reads a call application from a JSON object.
    pub fn from_json_object(obj: JsonObject) -> (r: Result<Self, DecodeError>)
        ensures
            result_view(r) == spec_decode_call(json_entries(obj)),
    {
        let mut obj = obj;
        proof {
            lemma_application_keys_distinct();
        }
        let call_id = match take_required_str(&mut obj, "m.call.id") {
            Ok(s) => s,
            Err(err) => return Err(err),
        };
        let voice_only = match take_bool_or_false(&mut obj, "m.call.voice_only") {
            Ok(b) => b,
            Err(err) => return Err(err),
        };
        Ok(CallApplication { call_id, voice_only })
    }
}

impl RtcApplication {
    /// Creates an application of the given type from the rest of its JSON object.
    ///
    /// For `m.call` the data must read as a call application, and the error says why it does
    /// not; any other type makes a custom application that keeps the data.
    pub fn new(application_type: &str, data: JsonObject) -> (r: Result<Self, DecodeError>)
        ensures
            result_view(r) == spec_application_from_parts(application_type@, json_entries(data)),
    {
        if same_str(application_type, "m.call") {
            match CallApplication::from_json_object(data) {
                Ok(c) => Ok(RtcApplication::Call(c)),
                Err(err) => Err(err),
            }
        } else {
            Ok(RtcApplication::_Custom(CustomApplication { application_type: application_type.to_owned(), data }))
        }
    }

    /// The application type.
    pub fn application_type(&self) -> (r: &str)
        ensures
            r@ == self@.application_type(),
    {
        match self {
            RtcApplication::Call(_) => "m.call",
            RtcApplication::_Custom(custom) => custom.application_type.as_str(),
        }
    }

    /// The JSON object of this application.
    pub fn to_json_object(&self) -> (obj: JsonObject)
        ensures
            application_repr(self@, json_entries(obj)),
    {
        proof {
            lemma_application_keys_distinct();
        }
        match self {
            RtcApplication::Call(c) => {
                let mut obj = c.to_json_object();
                let ghost ce = json_entries(obj);
                json_object_insert(&mut obj, "type".to_owned(), json_string_value("m.call".to_owned()));
                assert(json_entries(obj).remove("type"@) =~= ce);
                obj
            },
            RtcApplication::_Custom(custom) => {
                let mut obj = json_object_clone(&custom.data);
                if !json_object_contains_key(&obj, "type") {
                    json_object_insert(&mut obj, "type".to_owned(), json_string_value(custom.application_type.clone()));
                    assert(json_entries(obj).remove("type"@) =~= json_entries(custom.data));
                }
                obj
            },
        }
    }

    /// Reads an application from a JSON object.
    pub fn from_json_object(obj: JsonObject) -> (r: Result<Self, DecodeError>)
        ensures
            result_view(r) == spec_decode_application(json_entries(obj)),
    {
        let mut obj = obj;
        let application_type = match take_required_str(&mut obj, "type") {
            Ok(s) => s,
            Err(err) => return Err(err),
        };
        Self::new(application_type.as_str(), obj)
    }
}

impl From<CallApplication> for RtcApplication {
    fn from(value: CallApplication) -> (r: Self) {
        RtcApplication::Call(value)
    }
}

impl vstd::std_specs::convert::FromSpecImpl<CallApplication> for RtcApplication {
    open spec fn obeys_from_spec() -> bool {
        true
    }

    open spec fn from_spec(v: CallApplication) -> RtcApplication {
        RtcApplication::Call(v)
    }
}

/// Reading a call application's encoding gives the call application back.
pub proof fn lemma_call_round_trip(c: CallApplicationView, e: Map<Seq<char>, serde_json::Value>)
    requires
        call_repr(c, e),
    ensures
        decodes_to(spec_decode_call(e), c),
{
    lemma_application_keys_distinct();
    if !c.voice_only {
        assert(!e.dom().contains("m.call.voice_only"@));
    }
}

/// Reading an application's encoding gives the application back, unless it is a custom
/// application whose type is `m.call` or whose data holds a `type` entry of its own.
pub proof fn lemma_application_round_trip(a: RtcApplicationView, e: Map<Seq<char>, serde_json::Value>)
    requires
        application_repr(a, e),
        a is Custom ==> a.application_type() != "m.call"@,
        a is Custom ==> !a->Custom_0.data.contains_key("type"@),
    ensures
        decodes_to(spec_decode_application(e), a),
{
    match a {
        RtcApplicationView::Call(c) => {
            lemma_call_round_trip(c, e.remove("type"@));
        },
        RtcApplicationView::Custom(_) => {},
    }
}

/// An application read from JSON has the type that its `type` entry names.
pub proof fn lemma_decoded_application_type(e: Map<Seq<char>, serde_json::Value>)
    requires
        spec_decode_application(e) is Ok,
    ensures
        has_str(e, "type"@, spec_decode_application(e)->Ok_0.application_type()),
{
}

/// An application made from a type and the rest of its object has that type.
pub proof fn lemma_new_application_type(
    application_type: Seq<char>,
    data: Map<Seq<char>, serde_json::Value>,
)
    requires
        spec_application_from_parts(application_type, data) is Ok,
    ensures
        spec_application_from_parts(application_type, data)->Ok_0.application_type() == application_type,
{
}

/// Reading a call application gives the call ID that its `m.call.id` entry holds, and a
/// voice-only flag that is exactly the boolean its `m.call.voice_only` entry holds, or `false`
/// when there is no such entry: an explicit `false` reads as `false`.
pub proof fn lemma_call_fields_read(e: Map<Seq<char>, serde_json::Value>, call_id: Seq<char>)
    requires
        e.contains_key("m.call.id"@),
        json_shape(e["m.call.id"@]) == JsonShape::Str(call_id),
        e.contains_key("m.call.voice_only"@) ==> json_shape(e["m.call.voice_only"@]) is Bool,
    ensures
        spec_decode_call(e) is Ok,
        spec_decode_call(e)->Ok_0.call_id == call_id,
        spec_decode_call(e)->Ok_0.voice_only == (e.contains_key("m.call.voice_only"@) && json_shape(
            e["m.call.voice_only"@],
        ) == JsonShape::Bool(true)),
        !e.contains_key("m.call.voice_only"@) ==> !spec_decode_call(e)->Ok_0.voice_only,
        forall|b: bool|
            e.contains_key("m.call.voice_only"@) && json_shape(e["m.call.voice_only"@]) == JsonShape::Bool(b)
                ==> spec_decode_call(e)->Ok_0.voice_only == b,
{
}

/// Reading an object whose `type` is `m.call`, whose `m.call.id` holds a string and whose
/// `m.call.voice_only`, if present, holds a boolean, gives a call application with that call
/// ID and exactly that boolean as its voice-only flag (`false` when the entry is absent).
pub proof fn lemma_call_application_read(
    e: Map<Seq<char>, serde_json::Value>,
    call_id: Seq<char>,
    voice_only: bool,
)
    requires
        has_str(e, "type"@, "m.call"@),
        has_str(e, "m.call.id"@, call_id),
        e.contains_key("m.call.voice_only"@) ==> json_shape(e["m.call.voice_only"@]) == JsonShape::Bool(
            voice_only,
        ),
        !e.contains_key("m.call.voice_only"@) ==> !voice_only,
    ensures
        decodes_to(
            spec_decode_application(e),
            RtcApplicationView::Call((CallApplicationView { call_id, voice_only })),
        ),
{
    lemma_application_keys_distinct();
    lemma_call_fields_read(e.remove("type"@), call_id);
}

} // verus!
