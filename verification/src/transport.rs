//! A transport of a MatrixRTC member: how to reach the participant's media.
//!
//! Its JSON encoding is an object with a string `type` entry; the other entries are kept as
//! they are.
use vstd::prelude::*;

use crate::json::{
    decodes_to, has_str, json_entries, json_object_clone, json_object_contains_key,
    json_object_insert, json_string_value, result_view, spec_required_str, take_required_str,
    DecodeError, DecodeErrorView, JsonObject,
};

verus! {

/// A transport: its type, and the rest of its JSON object.
#[derive(Debug, PartialEq)]
pub struct RtcTransport {
    transport_type: String,
    data: JsonObject,
}

/// A transport, as contracts speak of it: its type and the entries of its data.
pub struct RtcTransportView {
    pub transport_type: Seq<char>,
    pub data: Map<Seq<char>, serde_json::Value>,
}

impl View for RtcTransport {
    type V = RtcTransportView;

    closed spec fn view(&self) -> RtcTransportView {
        RtcTransportView { transport_type: self.transport_type@, data: json_entries(self.data) }
    }
}

impl Clone for RtcTransport {
    fn clone(&self) -> (r: Self)
        ensures
            r@ == self@,
    {
        RtcTransport { transport_type: self.transport_type.clone(), data: json_object_clone(&self.data) }
    }
}

/// The JSON entries `e` are the encoding of the transport `t`: its data with a `type` entry
/// added unless the data holds one already.
pub open spec fn transport_repr(t: RtcTransportView, e: Map<Seq<char>, serde_json::Value>) -> bool {
    if t.data.contains_key("type"@) {
        e == t.data
    } else {
        &&& has_str(e, "type"@, t.transport_type)
        &&& e.remove("type"@) == t.data
    }
}

/// Reads a transport from JSON entries: `type` must be a string; the other entries are its
/// data.
pub open spec fn spec_decode_transport(e: Map<Seq<char>, serde_json::Value>) -> Result<
    RtcTransportView,
    DecodeErrorView,
> {
    match spec_required_str(e, "type"@) {
        Err(err) => Err(err),
        Ok(transport_type) => Ok(RtcTransportView { transport_type, data: e.remove("type"@) }),
    }
}

impl RtcTransport {
    /// Creates a transport of the given type from the rest of its JSON object.
    pub fn new(transport_type: &str, data: JsonObject) -> (r: Self)
        ensures
            r@.transport_type == transport_type@,
            r@.data == json_entries(data),
    {
        RtcTransport { transport_type: transport_type.to_owned(), data }
    }

    /// The transport type.
    pub fn transport_type(&self) -> (r: &str)
        ensures
            r@ == self@.transport_type,
    {
        self.transport_type.as_str()
    }

    /// The JSON object of this transport.
    pub fn to_json_object(&self) -> (obj: JsonObject)
        ensures
            transport_repr(self@, json_entries(obj)),
    {
        let mut obj = json_object_clone(&self.data);
        if !json_object_contains_key(&obj, "type") {
            json_object_insert(&mut obj, "type".to_owned(), json_string_value(self.transport_type.clone()));
            assert(json_entries(obj).remove("type"@) =~= json_entries(self.data));
        }
        obj
    }

    /// Reads a transport from a JSON object.
    pub fn from_json_object(obj: JsonObject) -> (r: Result<Self, DecodeError>)
        ensures
            result_view(r) == spec_decode_transport(json_entries(obj)),
    {
        let mut obj = obj;
        match take_required_str(&mut obj, "type") {
            Ok(transport_type) => Ok(RtcTransport { transport_type, data: obj }),
            Err(err) => Err(err),
        }
    }
}

/// Reading a transport's encoding gives it back, unless its data holds a `type` entry of its
/// own.
pub proof fn lemma_transport_round_trip(t: RtcTransportView, e: Map<Seq<char>, serde_json::Value>)
    requires
        transport_repr(t, e),
        !t.data.contains_key("type"@),
    ensures
        decodes_to(spec_decode_transport(e), t),
{
}

} // verus!
