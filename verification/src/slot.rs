//! The content of the MatrixRTC slot state event (`m.rtc.slot`).
//!
//! A slot is a container for the members and sessions of a MatrixRTC application; its state key
//! is the slot ID, `{application.type}#{application_slot_id}`. An empty content (`{}`) closes
//! the slot.
use vstd::prelude::*;

use crate::application::{
    application_repr, lemma_application_round_trip, spec_decode_application, RtcApplication,
    RtcApplicationView,
};
use crate::json::{
    decodes_to, json_entries, json_object_insert, json_object_new, json_object_value, json_shape,
    object_entries_of, result_view, same_str, spec_optional_object, take_optional_object,
    DecodeError, DecodeErrorView, JsonObject,
};

verus! {

/// The content of an `m.rtc.slot` event.
#[derive(Clone, Debug)]
#[non_exhaustive]
pub struct RtcSlotEventContent {
    /// The application this slot is for.
    ///
    /// This is `None` when the slot is closed (the content is an empty object).
    pub application: Option<RtcApplication>,
}

/// A slot content, as contracts speak of it.
pub struct RtcSlotEventContentView {
    pub application: Option<RtcApplicationView>,
}

impl View for RtcSlotEventContent {
    type V = RtcSlotEventContentView;

    open spec fn view(&self) -> RtcSlotEventContentView {
        RtcSlotEventContentView {
            application: match self.application {
                Some(a) => Some(a@),
                None => None,
            },
        }
    }
}

impl Default for RtcSlotEventContent {
    fn default() -> (r: Self)
        ensures
            r.application is None,
    {
        RtcSlotEventContent { application: None }
    }
}

/// The JSON entries `e` are the encoding of the slot content `s`: the application's object under
/// `application` when the slot is open, no entry at all when it is closed.
pub open spec fn slot_repr(s: RtcSlotEventContentView, e: Map<Seq<char>, serde_json::Value>) -> bool {
    match s.application {
        None => e.dom() == Set::<Seq<char>>::empty(),
        Some(a) => {
            &&& e.dom() == set!["application"@]
            &&& json_shape(e["application"@]) is Object
            &&& application_repr(a, object_entries_of(e["application"@]))
        },
    }
}

/// Reads a slot content from JSON entries: an absent or `null` `application` closes the slot;
/// otherwise it must be an object that reads as an application.
pub open spec fn spec_decode_slot(e: Map<Seq<char>, serde_json::Value>) -> Result<
    RtcSlotEventContentView,
    DecodeErrorView,
> {
    match spec_optional_object(e, "application"@) {
        Err(err) => Err(err),
        Ok(None) => Ok(RtcSlotEventContentView { application: None }),
        Ok(Some(m)) => match spec_decode_application(json_entries(m)) {
            Ok(a) => Ok(RtcSlotEventContentView { application: Some(a) }),
            Err(err) => Err(err),
        },
    }
}

impl RtcSlotEventContent {
    /// Creates a new open `RtcSlotEventContent` for the given application.
    pub fn new(application: RtcApplication) -> (r: Self)
        ensures
            r.application == Some(application),
    {
        RtcSlotEventContent { application: Some(application) }
    }

    /// Creates a new closed `RtcSlotEventContent` (empty content).
    pub fn closed() -> (r: Self)
        ensures
            r.application is None,
    {
        RtcSlotEventContent { application: None }
    }

    /// Whether an event's `type` names this content: the unstable
    /// `org.matrix.msc4143.rtc.slot` or its alias `m.rtc.slot`.
    pub fn matches_event_type(event_type: &str) -> (r: bool)
        ensures
            r == (event_type@ == "org.matrix.msc4143.rtc.slot"@ || event_type@ == "m.rtc.slot"@),
    {
        same_str(event_type, "org.matrix.msc4143.rtc.slot") || same_str(event_type, "m.rtc.slot")
    }

    /// The JSON object of this slot content.
    pub fn to_json_object(&self) -> (obj: JsonObject)
        ensures
            slot_repr(self@, json_entries(obj)),
    {
        let mut obj = json_object_new();
        match &self.application {
            Some(application) => {
                json_object_insert(&mut obj, "application".to_owned(), json_object_value(application.to_json_object()));
            },
            None => {},
        }
        obj
    }

    /// Reads a slot content from a JSON object.
    pub fn from_json_object(obj: JsonObject) -> (r: Result<Self, DecodeError>)
        ensures
            result_view(r) == spec_decode_slot(json_entries(obj)),
    {
        let mut obj = obj;
        match take_optional_object(&mut obj, "application") {
            Err(err) => Err(err),
            Ok(None) => Ok(RtcSlotEventContent { application: None }),
            Ok(Some(m)) => match RtcApplication::from_json_object(m) {
                Ok(a) => Ok(RtcSlotEventContent { application: Some(a) }),
                Err(err) => Err(err),
            },
        }
    }
}

/// Reading a slot content's encoding gives it back, unless its application is a custom one
/// whose type is `m.call` or whose data holds a `type` entry of its own.
pub proof fn lemma_slot_round_trip(s: RtcSlotEventContentView, e: Map<Seq<char>, serde_json::Value>)
    requires
        slot_repr(s, e),
        s.application matches Some(a) ==> (a is Custom ==> a.application_type() != "m.call"@),
        s.application matches Some(a) ==> (a is Custom ==> !a->Custom_0.data.contains_key("type"@)),
    ensures
        decodes_to(spec_decode_slot(e), s),
{
    match s.application {
        Some(a) => {
            lemma_application_round_trip(a, object_entries_of(e["application"@]));
        },
        None => {
            assert(!e.dom().contains("application"@));
        },
    }
}

/// A closed slot is encoded as the empty object, and the empty object reads as a closed slot.
pub proof fn lemma_closed_slot_is_empty_object(e: Map<Seq<char>, serde_json::Value>)
    ensures
        slot_repr((RtcSlotEventContentView { application: None }), e) <==> e.dom() == Set::<Seq<char>>::empty(),
        e.dom() == Set::<Seq<char>>::empty() ==> decodes_to(spec_decode_slot(e), (RtcSlotEventContentView { application: None })),
{
    if e.dom() == Set::<Seq<char>>::empty() {
        assert(!e.dom().contains("application"@));
    }
}

} // verus!
