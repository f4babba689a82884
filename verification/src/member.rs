//! The content of the MatrixRTC member event (`m.rtc.member`).
//!
//! A member event is a sticky event: its `sticky_key`, a copy of `member.id`, tracks the
//! membership across updates. A member connects by sending the full membership, and
//! disconnects by sending only the slot ID, the sticky key and a disconnect reason.
use vstd::prelude::*;

use crate::identifiers::{check_user_id, is_user_id};

use crate::application::{
    application_repr, lemma_application_round_trip, spec_decode_application, RtcApplication,
    RtcApplicationView,
};
use crate::json::{
    decodes_to, has_str, json_array_value, json_classify, json_entries, json_object_insert,
    json_object_new, json_object_value, json_shape, json_string_value, object_entries_of,
    result_view, same_str, spec_array_or_empty, spec_optional_object, spec_optional_str,
    spec_required_str, take_array_or_empty, take_optional_object, take_optional_str,
    take_required_str, DecodeError, DecodeErrorView, JsonItem, JsonObject, JsonShape,
};
use crate::transport::{
    lemma_transport_round_trip, spec_decode_transport, transport_repr, RtcTransport,
    RtcTransportView,
};

verus! {

/// A string of a custom [`DisconnectClass`].
#[derive(Clone, Debug, PartialEq, Eq)]
pub struct PrivOwnedStr(String);

impl View for PrivOwnedStr {
    type V = Seq<char>;

    closed spec fn view(&self) -> Seq<char> {
        self.0@
    }
}

/// The high-level category of a [`DisconnectReason`].
///
/// Each category is written as its name in snake case; any other string is a custom category
/// that keeps the string.
#[derive(Clone, Debug, PartialEq, Eq)]
#[non_exhaustive]
pub enum DisconnectClass {
    /// The user deliberately ended their participation.
    UserAction,
    /// An error occurred on the client.
    ClientError,
    /// An error occurred on the server.
    ServerError,
    /// The member was redirected to another session.
    Redirection,
    /// A failure occurred that cannot be recovered from.
    PermanentFailure,
    _Custom(PrivOwnedStr),
}

/// A disconnect class, as contracts speak of it.
pub enum DisconnectClassView {
    UserAction,
    ClientError,
    ServerError,
    Redirection,
    PermanentFailure,
    Custom(Seq<char>),
}

impl View for DisconnectClass {
    type V = DisconnectClassView;

    open spec fn view(&self) -> DisconnectClassView {
        match self {
            DisconnectClass::UserAction => DisconnectClassView::UserAction,
            DisconnectClass::ClientError => DisconnectClassView::ClientError,
            DisconnectClass::ServerError => DisconnectClassView::ServerError,
            DisconnectClass::Redirection => DisconnectClassView::Redirection,
            DisconnectClass::PermanentFailure => DisconnectClassView::PermanentFailure,
            DisconnectClass::_Custom(s) => DisconnectClassView::Custom(s@),
        }
    }
}

/// The string a disconnect class is written as.
pub open spec fn class_name(c: DisconnectClassView) -> Seq<char> {
    match c {
        DisconnectClassView::UserAction => "user_action"@,
        DisconnectClassView::ClientError => "client_error"@,
        DisconnectClassView::ServerError => "server_error"@,
        DisconnectClassView::Redirection => "redirection"@,
        DisconnectClassView::PermanentFailure => "permanent_failure"@,
        DisconnectClassView::Custom(s) => s,
    }
}

/// The disconnect class a string names: one of the five known names, or else a custom class.
pub open spec fn class_from_name(s: Seq<char>) -> DisconnectClassView {
    if s == "user_action"@ {
        DisconnectClassView::UserAction
    } else if s == "client_error"@ {
        DisconnectClassView::ClientError
    } else if s == "server_error"@ {
        DisconnectClassView::ServerError
    } else if s == "redirection"@ {
        DisconnectClassView::Redirection
    } else if s == "permanent_failure"@ {
        DisconnectClassView::PermanentFailure
    } else {
        DisconnectClassView::Custom(s)
    }
}

/// Whether the string is the name of one of the five known disconnect classes.
pub open spec fn is_known_class_name(s: Seq<char>) -> bool {
    !(class_from_name(s) is Custom)
}

impl DisconnectClass {
    /// The string this class is written as.
    pub fn as_str(&self) -> (r: &str)
        ensures
            r@ == class_name(self@),
    {
        match self {
            DisconnectClass::UserAction => "user_action",
            DisconnectClass::ClientError => "client_error",
            DisconnectClass::ServerError => "server_error",
            DisconnectClass::Redirection => "redirection",
            DisconnectClass::PermanentFailure => "permanent_failure",
            DisconnectClass::_Custom(s) => s.0.as_str(),
        }
    }

    /// The class a string names.
    pub fn from_name(s: &str) -> (r: Self)
        ensures
            r@ == class_from_name(s@),
    {
        if same_str(s, "user_action") {
            DisconnectClass::UserAction
        } else if same_str(s, "client_error") {
            DisconnectClass::ClientError
        } else if same_str(s, "server_error") {
            DisconnectClass::ServerError
        } else if same_str(s, "redirection") {
            DisconnectClass::Redirection
        } else if same_str(s, "permanent_failure") {
            DisconnectClass::PermanentFailure
        } else {
            DisconnectClass::_Custom(PrivOwnedStr(s.to_owned()))
        }
    }
}

/// Writing the class that a string names gives the string back.
pub proof fn lemma_class_name_of_name(s: Seq<char>)
    ensures
        class_name(class_from_name(s)) == s,
{
}

/// Reading the name of a class gives the class back, unless it is a custom class whose string
/// is one of the known names.
pub proof fn lemma_class_from_its_name(c: DisconnectClassView)
    requires
        c is Custom ==> !is_known_class_name(c->Custom_0),
    ensures
        class_from_name(class_name(c)) == c,
{
    reveal_strlit("user_action");
    reveal_strlit("client_error");
    reveal_strlit("server_error");
    reveal_strlit("redirection");
    reveal_strlit("permanent_failure");
    assert("user_action"@.len() != "client_error"@.len());
    assert("user_action"@.len() != "server_error"@.len());
    assert("user_action"@[0] != "redirection"@[0]);
    assert("user_action"@.len() != "permanent_failure"@.len());
    assert("client_error"@[0] != "server_error"@[0]);
    assert("client_error"@.len() != "redirection"@.len());
    assert("client_error"@.len() != "permanent_failure"@.len());
    assert("server_error"@.len() != "redirection"@.len());
    assert("server_error"@.len() != "permanent_failure"@.len());
    assert("redirection"@.len() != "permanent_failure"@.len());
}

/// The five known names are pairwise distinct.
proof fn lemma_class_names_distinct()
    ensures
        "user_action"@ != "client_error"@,
        "user_action"@ != "server_error"@,
        "user_action"@ != "redirection"@,
        "user_action"@ != "permanent_failure"@,
        "client_error"@ != "server_error"@,
        "client_error"@ != "redirection"@,
        "client_error"@ != "permanent_failure"@,
        "server_error"@ != "redirection"@,
        "server_error"@ != "permanent_failure"@,
        "redirection"@ != "permanent_failure"@,
{
    reveal_strlit("user_action");
    reveal_strlit("client_error");
    reveal_strlit("server_error");
    reveal_strlit("redirection");
    reveal_strlit("permanent_failure");
    assert("user_action"@.len() != "client_error"@.len());
    assert("user_action"@.len() != "server_error"@.len());
    assert("user_action"@[0] != "redirection"@[0]);
    assert("user_action"@.len() != "permanent_failure"@.len());
    assert("client_error"@[0] != "server_error"@[0]);
    assert("client_error"@.len() != "redirection"@.len());
    assert("client_error"@.len() != "permanent_failure"@.len());
    assert("server_error"@.len() != "redirection"@.len());
    assert("server_error"@.len() != "permanent_failure"@.len());
    assert("redirection"@.len() != "permanent_failure"@.len());
}

/// Each known disconnect class is written as its name in snake case, and reading that name
/// gives the class back, never a custom class.
pub proof fn lemma_known_class_names()
    ensures
        class_name(DisconnectClassView::UserAction) == "user_action"@,
        class_name(DisconnectClassView::ClientError) == "client_error"@,
        class_name(DisconnectClassView::ServerError) == "server_error"@,
        class_name(DisconnectClassView::Redirection) == "redirection"@,
        class_name(DisconnectClassView::PermanentFailure) == "permanent_failure"@,
        class_from_name("user_action"@) == DisconnectClassView::UserAction,
        class_from_name("client_error"@) == DisconnectClassView::ClientError,
        class_from_name("server_error"@) == DisconnectClassView::ServerError,
        class_from_name("redirection"@) == DisconnectClassView::Redirection,
        class_from_name("permanent_failure"@) == DisconnectClassView::PermanentFailure,
        forall|s: Seq<char>|
            s != "user_action"@ && s != "client_error"@ && s != "server_error"@ && s != "redirection"@
                && s != "permanent_failure"@ ==> #[trigger] class_from_name(s) == DisconnectClassView::Custom(s),
{
    lemma_class_names_distinct();
}

/// Identifies a MatrixRTC participation instance.
#[derive(Clone, Debug, PartialEq, Eq)]
#[non_exhaustive]
pub struct RtcMember {
    /// Identifier used to distinguish multiple participations.
    ///
    /// This MUST be unique.
    pub id: String,
    /// The Matrix device ID of the participating device.
    ///
    /// Claimed because it is not verified without encryption.
    pub claimed_device_id: String,
    /// The Matrix user ID of the participant.
    ///
    /// Claimed because it is not verified without encryption.
    ///
    /// Reading from JSON checks that it has the form of a user ID.
    pub claimed_user_id: String,
}

/// A member, as contracts speak of it.
pub struct RtcMemberView {
    pub id: Seq<char>,
    pub claimed_device_id: Seq<char>,
    pub claimed_user_id: Seq<char>,
}

impl View for RtcMember {
    type V = RtcMemberView;

    open spec fn view(&self) -> RtcMemberView {
        RtcMemberView {
            id: self.id@,
            claimed_device_id: self.claimed_device_id@,
            claimed_user_id: self.claimed_user_id@,
        }
    }
}

/// The JSON entries `e` are the encoding of the member `m`: its three strings.
pub open spec fn member_repr(m: RtcMemberView, e: Map<Seq<char>, serde_json::Value>) -> bool {
    &&& e.dom() == set!["id"@, "claimed_device_id"@, "claimed_user_id"@]
    &&& has_str(e, "id"@, m.id)
    &&& has_str(e, "claimed_device_id"@, m.claimed_device_id)
    &&& has_str(e, "claimed_user_id"@, m.claimed_user_id)
}

/// Reads a member from JSON entries: `id`, `claimed_device_id` and `claimed_user_id` must be
/// strings, `claimed_user_id` of the form of a user ID.
pub open spec fn spec_decode_member(e: Map<Seq<char>, serde_json::Value>) -> Result<
    RtcMemberView,
    DecodeErrorView,
> {
    match spec_required_str(e, "id"@) {
        Err(err) => Err(err),
        Ok(id) => match spec_required_str(e, "claimed_device_id"@) {
            Err(err) => Err(err),
            Ok(claimed_device_id) => match spec_required_str(e, "claimed_user_id"@) {
                Err(err) => Err(err),
                Ok(claimed_user_id) => if is_user_id(claimed_user_id) {
                    Ok(RtcMemberView { id, claimed_device_id, claimed_user_id })
                } else {
                    Err(DecodeErrorView::InvalidValue("claimed_user_id"@))
                },
            },
        },
    }
}

proof fn lemma_member_keys_distinct()
    ensures
        "id"@ != "claimed_device_id"@,
        "id"@ != "claimed_user_id"@,
        "claimed_device_id"@ != "claimed_user_id"@,
{
    reveal_strlit("id");
    reveal_strlit("claimed_device_id");
    reveal_strlit("claimed_user_id");
    assert("id"@.len() != "claimed_device_id"@.len());
    assert("id"@.len() != "claimed_user_id"@.len());
    assert("claimed_device_id"@.len() != "claimed_user_id"@.len());
}

impl RtcMember {
    /// Creates a new `RtcMember`.
    pub fn new(id: String, claimed_device_id: String, claimed_user_id: String) -> (r: Self)
        ensures
            r.id == id,
            r.claimed_device_id == claimed_device_id,
            r.claimed_user_id == claimed_user_id,
    {
        RtcMember { id, claimed_device_id, claimed_user_id }
    }

    /// The JSON object of this member.
    pub fn to_json_object(&self) -> (obj: JsonObject)
        ensures
            member_repr(self@, json_entries(obj)),
    {
        proof {
            lemma_member_keys_distinct();
        }
        let mut obj = json_object_new();
        json_object_insert(&mut obj, "id".to_owned(), json_string_value(self.id.clone()));
        json_object_insert(&mut obj, "claimed_device_id".to_owned(), json_string_value(self.claimed_device_id.clone()));
        json_object_insert(&mut obj, "claimed_user_id".to_owned(), json_string_value(self.claimed_user_id.clone()));
        obj
    }

    /// Reads a member from a JSON object.
    pub fn from_json_object(obj: JsonObject) -> (r: Result<Self, DecodeError>)
        ensures
            result_view(r) == spec_decode_member(json_entries(obj)),
    {
        proof {
            lemma_member_keys_distinct();
        }
        let mut obj = obj;
        let id = match take_required_str(&mut obj, "id") {
            Ok(s) => s,
            Err(err) => return Err(err),
        };
        let claimed_device_id = match take_required_str(&mut obj, "claimed_device_id") {
            Ok(s) => s,
            Err(err) => return Err(err),
        };
        let claimed_user_id = match take_required_str(&mut obj, "claimed_user_id") {
            Ok(s) => s,
            Err(err) => return Err(err),
        };
        if !check_user_id(claimed_user_id.as_str()) {
            return Err(DecodeError::InvalidValue("claimed_user_id".to_owned()));
        }
        Ok(RtcMember { id, claimed_device_id, claimed_user_id })
    }
}

/// The reason a member disconnected from a MatrixRTC session.
#[derive(Clone, Debug, PartialEq, Eq)]
#[non_exhaustive]
pub struct DisconnectReason {
    /// High-level category of the disconnection or error.
    pub class: DisconnectClass,
    /// Machine-readable identifier of the specific cause.
    pub reason: String,
    /// Optional human-readable explanation.
    pub description: Option<String>,
}

/// A disconnect reason, as contracts speak of it.
pub struct DisconnectReasonView {
    pub class: DisconnectClassView,
    pub reason: Seq<char>,
    pub description: Option<Seq<char>>,
}

impl View for DisconnectReason {
    type V = DisconnectReasonView;

    open spec fn view(&self) -> DisconnectReasonView {
        DisconnectReasonView {
            class: self.class@,
            reason: self.reason@,
            description: match self.description {
                Some(d) => Some(d@),
                None => None,
            },
        }
    }
}

/// The JSON entries `e` are the encoding of the disconnect reason `r`: its class's name, its
/// reason, and its description only when it has one.
pub open spec fn reason_repr(r: DisconnectReasonView, e: Map<Seq<char>, serde_json::Value>) -> bool {
    &&& has_str(e, "class"@, class_name(r.class))
    &&& has_str(e, "reason"@, r.reason)
    &&& match r.description {
        Some(d) => {
            &&& has_str(e, "description"@, d)
            &&& e.dom() == set!["class"@, "reason"@, "description"@]
        },
        None => e.dom() == set!["class"@, "reason"@],
    }
}

/// Reads a disconnect reason from JSON entries: `class` and `reason` must be strings, and
/// `description`, when present and not `null`, a string.
pub open spec fn spec_decode_reason(e: Map<Seq<char>, serde_json::Value>) -> Result<
    DisconnectReasonView,
    DecodeErrorView,
> {
    match spec_required_str(e, "class"@) {
        Err(err) => Err(err),
        Ok(class) => match spec_required_str(e, "reason"@) {
            Err(err) => Err(err),
            Ok(reason) => match spec_optional_str(e, "description"@) {
                Err(err) => Err(err),
                Ok(description) => Ok(
                    DisconnectReasonView { class: class_from_name(class), reason, description },
                ),
            },
        },
    }
}

proof fn lemma_reason_keys_distinct()
    ensures
        "class"@ != "reason"@,
        "class"@ != "description"@,
        "reason"@ != "description"@,
{
    reveal_strlit("class");
    reveal_strlit("reason");
    reveal_strlit("description");
    assert("class"@.len() != "reason"@.len());
    assert("class"@.len() != "description"@.len());
    assert("reason"@.len() != "description"@.len());
}

impl DisconnectReason {
    /// Creates a new `DisconnectReason` without a description.
    pub fn new(class: DisconnectClass, reason: String) -> (r: Self)
        ensures
            r.class == class,
            r.reason == reason,
            r.description is None,
    {
        DisconnectReason { class, reason, description: None }
    }

    /// The JSON object of this disconnect reason.
    pub fn to_json_object(&self) -> (obj: JsonObject)
        ensures
            reason_repr(self@, json_entries(obj)),
    {
        proof {
            lemma_reason_keys_distinct();
        }
        let mut obj = json_object_new();
        json_object_insert(&mut obj, "class".to_owned(), json_string_value(self.class.as_str().to_owned()));
        json_object_insert(&mut obj, "reason".to_owned(), json_string_value(self.reason.clone()));
        match &self.description {
            Some(d) => {
                json_object_insert(&mut obj, "description".to_owned(), json_string_value(d.clone()));
            },
            None => {},
        }
        obj
    }

    /// Reads a disconnect reason from a JSON object.
    pub fn from_json_object(obj: JsonObject) -> (r: Result<Self, DecodeError>)
        ensures
            result_view(r) == spec_decode_reason(json_entries(obj)),
    {
        proof {
            lemma_reason_keys_distinct();
        }
        let mut obj = obj;
        let class = match take_required_str(&mut obj, "class") {
            Ok(s) => s,
            Err(err) => return Err(err),
        };
        let reason = match take_required_str(&mut obj, "reason") {
            Ok(s) => s,
            Err(err) => return Err(err),
        };
        let description = match take_optional_str(&mut obj, "description") {
            Ok(d) => d,
            Err(err) => return Err(err),
        };
        Ok(DisconnectReason { class: DisconnectClass::from_name(class.as_str()), reason, description })
    }
}

/// Reading a member's encoding gives the member back, when its user ID has the form of one.
pub proof fn lemma_member_round_trip(m: RtcMemberView, e: Map<Seq<char>, serde_json::Value>)
    requires
        member_repr(m, e),
        is_user_id(m.claimed_user_id),
    ensures
        decodes_to(spec_decode_member(e), m),
{
}

/// Reading a disconnect reason's encoding gives it back, unless its class is a custom one
/// whose string is one of the known names.
pub proof fn lemma_reason_round_trip(r: DisconnectReasonView, e: Map<Seq<char>, serde_json::Value>)
    requires
        reason_repr(r, e),
        r.class is Custom ==> !is_known_class_name(r.class->Custom_0),
    ensures
        decodes_to(spec_decode_reason(e), r),
{
    lemma_class_from_its_name(r.class);
    lemma_reason_keys_distinct();
    if r.description is None {
        assert(!e.dom().contains("description"@));
    }
}


/// The content of an `m.rtc.member` event.
#[derive(Clone, Debug)]
#[non_exhaustive]
pub struct RtcMemberEventContent {
    /// The slot this member belongs to.
    pub slot_id: String,
    /// Unique key used to track this membership across updates.
    ///
    /// This is a copy of `member.id`.
    pub sticky_key: String,
    /// The application type this membership is for.
    ///
    /// Absent in a disconnecting event.
    pub application: Option<RtcApplication>,
    /// Identifies this participation instance.
    ///
    /// Absent in a disconnecting event.
    pub member: Option<RtcMember>,
    /// The transports describing how to access this participant's media.
    ///
    /// Empty in a disconnecting event.
    pub rtc_transports: Vec<RtcTransport>,
    /// Protocol versions and capabilities supported by the sending client.
    ///
    /// Empty in a disconnecting event.
    pub versions: Vec<String>,
    /// The reason this member disconnected.
    ///
    /// Only present in a disconnecting event.
    pub disconnect_reason: Option<DisconnectReason>,
}

/// A member content, as contracts speak of it.
pub struct RtcMemberEventContentView {
    pub slot_id: Seq<char>,
    pub sticky_key: Seq<char>,
    pub application: Option<RtcApplicationView>,
    pub member: Option<RtcMemberView>,
    pub rtc_transports: Seq<RtcTransportView>,
    pub versions: Seq<Seq<char>>,
    pub disconnect_reason: Option<DisconnectReasonView>,
}

/// The views of a list of transports.
pub open spec fn transports_view(ts: Seq<RtcTransport>) -> Seq<RtcTransportView> {
    ts.map_values(|t: RtcTransport| t@)
}

/// The views of a list of strings.
pub open spec fn strings_view(ss: Seq<String>) -> Seq<Seq<char>> {
    ss.map_values(|s: String| s@)
}

impl View for RtcMemberEventContent {
    type V = RtcMemberEventContentView;

    open spec fn view(&self) -> RtcMemberEventContentView {
        RtcMemberEventContentView {
            slot_id: self.slot_id@,
            sticky_key: self.sticky_key@,
            application: match self.application {
                Some(a) => Some(a@),
                None => None,
            },
            member: match self.member {
                Some(m) => Some(m@),
                None => None,
            },
            rtc_transports: transports_view(self.rtc_transports@),
            versions: strings_view(self.versions@),
            disconnect_reason: match self.disconnect_reason {
                Some(r) => Some(r@),
                None => None,
            },
        }
    }
}

/// The JSON value `v` is the encoding of the transport `t`.
pub open spec fn transport_value_repr(t: RtcTransportView, v: serde_json::Value) -> bool {
    &&& json_shape(v) is Object
    &&& transport_repr(t, object_entries_of(v))
}

/// The JSON values `vs` are the encodings of the transports `ts`, in order.
pub open spec fn transports_repr(ts: Seq<RtcTransportView>, vs: Seq<serde_json::Value>) -> bool {
    &&& vs.len() == ts.len()
    &&& forall|i: int| 0 <= i < vs.len() ==> #[trigger] transport_value_repr(ts[i], vs[i])
}

/// The JSON values `vs` are the strings `ss`, in order.
pub open spec fn strings_repr(ss: Seq<Seq<char>>, vs: Seq<serde_json::Value>) -> bool {
    &&& vs.len() == ss.len()
    &&& forall|i: int| 0 <= i < vs.len() ==> #[trigger] json_shape(vs[i]) == JsonShape::Str(ss[i])
}

/// A list read from the front, once its first items are read.
pub open spec fn prepend<T>(p: Seq<T>, r: Result<Seq<T>, DecodeErrorView>) -> Result<Seq<T>, DecodeErrorView> {
    match r {
        Ok(rest) => Ok(p + rest),
        Err(err) => Err(err),
    }
}

/// Reads one transport of `rtc_transports`: it must be an object that reads as a transport.
pub open spec fn spec_decode_transport_value(v: serde_json::Value) -> Result<RtcTransportView, DecodeErrorView> {
    match json_shape(v) {
        JsonShape::Object(m) => spec_decode_transport(json_entries(m)),
        _ => Err(DecodeErrorView::InvalidType("rtc_transports"@)),
    }
}

/// Reads the transports of `rtc_transports` in order; the first that does not read stops it.
pub open spec fn spec_decode_transports(vs: Seq<serde_json::Value>) -> Result<Seq<RtcTransportView>, DecodeErrorView>
    decreases vs.len(),
{
    if vs.len() == 0 {
        Ok(Seq::empty())
    } else {
        match spec_decode_transport_value(vs[0]) {
            Err(err) => Err(err),
            Ok(t) => prepend(seq![t], spec_decode_transports(vs.drop_first())),
        }
    }
}

/// Reads one entry of `versions`: it must be a string.
pub open spec fn spec_decode_version_value(v: serde_json::Value) -> Result<Seq<char>, DecodeErrorView> {
    match json_shape(v) {
        JsonShape::Str(s) => Ok(s),
        _ => Err(DecodeErrorView::InvalidType("versions"@)),
    }
}

/// Reads the entries of `versions` in order; the first that is not a string stops it.
pub open spec fn spec_decode_versions(vs: Seq<serde_json::Value>) -> Result<Seq<Seq<char>>, DecodeErrorView>
    decreases vs.len(),
{
    if vs.len() == 0 {
        Ok(Seq::empty())
    } else {
        match spec_decode_version_value(vs[0]) {
            Err(err) => Err(err),
            Ok(s) => prepend(seq![s], spec_decode_versions(vs.drop_first())),
        }
    }
}

/// An optional application field: absent or `null` reads as `None`, an object as the
/// application it reads as.
pub open spec fn spec_decode_optional_application(e: Map<Seq<char>, serde_json::Value>, key: Seq<char>) -> Result<
    Option<RtcApplicationView>,
    DecodeErrorView,
> {
    match spec_optional_object(e, key) {
        Err(err) => Err(err),
        Ok(None) => Ok(None),
        Ok(Some(m)) => match spec_decode_application(json_entries(m)) {
            Ok(a) => Ok(Some(a)),
            Err(err) => Err(err),
        },
    }
}

/// An optional member field.
pub open spec fn spec_decode_optional_member(e: Map<Seq<char>, serde_json::Value>, key: Seq<char>) -> Result<
    Option<RtcMemberView>,
    DecodeErrorView,
> {
    match spec_optional_object(e, key) {
        Err(err) => Err(err),
        Ok(None) => Ok(None),
        Ok(Some(m)) => match spec_decode_member(json_entries(m)) {
            Ok(a) => Ok(Some(a)),
            Err(err) => Err(err),
        },
    }
}

/// An optional disconnect reason field.
pub open spec fn spec_decode_optional_reason(e: Map<Seq<char>, serde_json::Value>, key: Seq<char>) -> Result<
    Option<DisconnectReasonView>,
    DecodeErrorView,
> {
    match spec_optional_object(e, key) {
        Err(err) => Err(err),
        Ok(None) => Ok(None),
        Ok(Some(m)) => match spec_decode_reason(json_entries(m)) {
            Ok(a) => Ok(Some(a)),
            Err(err) => Err(err),
        },
    }
}

/// Reads a member content from JSON entries: `slot_id` and `sticky_key` must be strings;
/// `application`, `member` and `disconnect_reason`, when present and not `null`, objects that
/// read as such; `rtc_transports` and `versions`, when present, arrays of transports and of
/// strings.
pub open spec fn spec_decode_member_content(e: Map<Seq<char>, serde_json::Value>) -> Result<
    RtcMemberEventContentView,
    DecodeErrorView,
> {
    match spec_required_str(e, "slot_id"@) {
        Err(err) => Err(err),
        Ok(slot_id) => match spec_required_str(e, "sticky_key"@) {
            Err(err) => Err(err),
            Ok(sticky_key) => match spec_decode_optional_application(e, "application"@) {
                Err(err) => Err(err),
                Ok(application) => match spec_decode_optional_member(e, "member"@) {
                    Err(err) => Err(err),
                    Ok(member) => match spec_array_or_empty(e, "rtc_transports"@) {
                        Err(err) => Err(err),
                        Ok(tvs) => match spec_decode_transports(tvs) {
                            Err(err) => Err(err),
                            Ok(rtc_transports) => match spec_array_or_empty(e, "versions"@) {
                                Err(err) => Err(err),
                                Ok(vvs) => match spec_decode_versions(vvs) {
                                    Err(err) => Err(err),
                                    Ok(versions) => match spec_decode_optional_reason(e, "disconnect_reason"@) {
                                        Err(err) => Err(err),
                                        Ok(disconnect_reason) => Ok(
                                            RtcMemberEventContentView {
                                                slot_id,
                                                sticky_key,
                                                application,
                                                member,
                                                rtc_transports,
                                                versions,
                                                disconnect_reason,
                                            },
                                        ),
                                    },
                                },
                            },
                        },
                    },
                },
            },
        },
    }
}

/// The keys a member content is written with.
pub open spec fn is_member_content_key(k: Seq<char>) -> bool {
    ||| k == "slot_id"@
    ||| k == "sticky_key"@
    ||| k == "application"@
    ||| k == "member"@
    ||| k == "rtc_transports"@
    ||| k == "versions"@
    ||| k == "disconnect_reason"@
}

/// The JSON entries `e` are the encoding of the member content `c`: its slot ID and sticky
/// key; its application, member and disconnect reason when it has them; its transports and
/// versions when there are any; and nothing else.
pub open spec fn member_content_repr(c: RtcMemberEventContentView, e: Map<Seq<char>, serde_json::Value>) -> bool {
    &&& has_str(e, "slot_id"@, c.slot_id)
    &&& has_str(e, "sticky_key"@, c.sticky_key)
    &&& match c.application {
        Some(a) => {
            &&& e.contains_key("application"@)
            &&& json_shape(e["application"@]) is Object
            &&& application_repr(a, object_entries_of(e["application"@]))
        },
        None => !e.contains_key("application"@),
    }
    &&& match c.member {
        Some(m) => {
            &&& e.contains_key("member"@)
            &&& json_shape(e["member"@]) is Object
            &&& member_repr(m, object_entries_of(e["member"@]))
        },
        None => !e.contains_key("member"@),
    }
    &&& if c.rtc_transports.len() > 0 {
        &&& e.contains_key("rtc_transports"@)
        &&& json_shape(e["rtc_transports"@]) is Array
        &&& transports_repr(c.rtc_transports, json_shape(e["rtc_transports"@])->Array_0)
    } else {
        !e.contains_key("rtc_transports"@)
    }
    &&& if c.versions.len() > 0 {
        &&& e.contains_key("versions"@)
        &&& json_shape(e["versions"@]) is Array
        &&& strings_repr(c.versions, json_shape(e["versions"@])->Array_0)
    } else {
        !e.contains_key("versions"@)
    }
    &&& match c.disconnect_reason {
        Some(r) => {
            &&& e.contains_key("disconnect_reason"@)
            &&& json_shape(e["disconnect_reason"@]) is Object
            &&& reason_repr(r, object_entries_of(e["disconnect_reason"@]))
        },
        None => !e.contains_key("disconnect_reason"@),
    }
    &&& forall|k: Seq<char>| #[trigger] e.contains_key(k) ==> is_member_content_key(k)
}

proof fn lemma_content_keys_distinct()
    ensures
        "slot_id"@ != "sticky_key"@,
        "slot_id"@ != "application"@,
        "slot_id"@ != "member"@,
        "slot_id"@ != "rtc_transports"@,
        "slot_id"@ != "versions"@,
        "slot_id"@ != "disconnect_reason"@,
        "sticky_key"@ != "application"@,
        "sticky_key"@ != "member"@,
        "sticky_key"@ != "rtc_transports"@,
        "sticky_key"@ != "versions"@,
        "sticky_key"@ != "disconnect_reason"@,
        "application"@ != "member"@,
        "application"@ != "rtc_transports"@,
        "application"@ != "versions"@,
        "application"@ != "disconnect_reason"@,
        "member"@ != "rtc_transports"@,
        "member"@ != "versions"@,
        "member"@ != "disconnect_reason"@,
        "rtc_transports"@ != "versions"@,
        "rtc_transports"@ != "disconnect_reason"@,
        "versions"@ != "disconnect_reason"@,
{
    reveal_strlit("slot_id");
    reveal_strlit("sticky_key");
    reveal_strlit("application");
    reveal_strlit("member");
    reveal_strlit("rtc_transports");
    reveal_strlit("versions");
    reveal_strlit("disconnect_reason");
    assert("slot_id"@.len() != "sticky_key"@.len());
    assert("slot_id"@.len() != "application"@.len());
    assert("slot_id"@.len() != "member"@.len());
    assert("slot_id"@.len() != "rtc_transports"@.len());
    assert("slot_id"@.len() != "versions"@.len());
    assert("slot_id"@.len() != "disconnect_reason"@.len());
    assert("sticky_key"@.len() != "application"@.len());
    assert("sticky_key"@.len() != "member"@.len());
    assert("sticky_key"@.len() != "rtc_transports"@.len());
    assert("sticky_key"@.len() != "versions"@.len());
    assert("sticky_key"@.len() != "disconnect_reason"@.len());
    assert("application"@.len() != "member"@.len());
    assert("application"@.len() != "rtc_transports"@.len());
    assert("application"@.len() != "versions"@.len());
    assert("application"@.len() != "disconnect_reason"@.len());
    assert("member"@.len() != "rtc_transports"@.len());
    assert("member"@.len() != "versions"@.len());
    assert("member"@.len() != "disconnect_reason"@.len());
    assert("rtc_transports"@.len() != "versions"@.len());
    assert("rtc_transports"@.len() != "disconnect_reason"@.len());
    assert("versions"@.len() != "disconnect_reason"@.len());
}


/// A list of transports read from JSON, seen through the views of the transports and of the
/// error.
pub open spec fn transports_result_view(r: Result<Vec<RtcTransport>, DecodeError>) -> Result<
    Seq<RtcTransportView>,
    DecodeErrorView,
> {
    match r {
        Ok(ts) => Ok(transports_view(ts@)),
        Err(err) => Err(err@),
    }
}

/// A list of strings read from JSON, seen through the views of the strings and of the error.
pub open spec fn strings_result_view(r: Result<Vec<String>, DecodeError>) -> Result<Seq<Seq<char>>, DecodeErrorView> {
    match r {
        Ok(ss) => Ok(strings_view(ss@)),
        Err(err) => Err(err@),
    }
}

/// Reads the transports of `rtc_transports` in order.
fn decode_transports(vals: Vec<serde_json::Value>) -> (r: Result<Vec<RtcTransport>, DecodeError>)
    ensures
        transports_result_view(r) == spec_decode_transports(vals@),
{
    let mut rest = vals;
    let mut out: Vec<RtcTransport> = Vec::new();
    while rest.len() > 0
        invariant
            spec_decode_transports(vals@) == prepend(transports_view(out@), spec_decode_transports(rest@)),
        decreases rest.len(),
    {
        let ghost before = rest@;
        let v = rest.remove(0);
        assert(rest@ =~= before.drop_first());
        match json_classify(v) {
            JsonItem::Object(m) => match RtcTransport::from_json_object(m) {
                Ok(t) => {
                    let ghost old_out = out@;
                    out.push(t);
                    proof {
                        assert(transports_view(out@) =~= transports_view(old_out).push(t@));
                        match spec_decode_transports(rest@) {
                            Ok(x) => {
                                assert(transports_view(old_out) + (seq![t@] + x) =~= transports_view(out@) + x);
                            },
                            Err(_) => {},
                        }
                    }
                },
                Err(err) => return Err(err),
            },
            _ => return Err(DecodeError::InvalidType("rtc_transports".to_owned())),
        }
    }
    assert(transports_view(out@) + Seq::<RtcTransportView>::empty() =~= transports_view(out@));
    Ok(out)
}

/// Reads the strings of `versions` in order.
fn decode_versions(vals: Vec<serde_json::Value>) -> (r: Result<Vec<String>, DecodeError>)
    ensures
        strings_result_view(r) == spec_decode_versions(vals@),
{
    let mut rest = vals;
    let mut out: Vec<String> = Vec::new();
    while rest.len() > 0
        invariant
            spec_decode_versions(vals@) == prepend(strings_view(out@), spec_decode_versions(rest@)),
        decreases rest.len(),
    {
        let ghost before = rest@;
        let v = rest.remove(0);
        assert(rest@ =~= before.drop_first());
        match json_classify(v) {
            JsonItem::Str(s) => {
                let ghost old_out = out@;
                let ghost sv = s@;
                out.push(s);
                proof {
                    assert(strings_view(out@) =~= strings_view(old_out).push(sv));
                    match spec_decode_versions(rest@) {
                        Ok(x) => {
                            assert(strings_view(old_out) + (seq![sv] + x) =~= strings_view(out@) + x);
                        },
                        Err(_) => {},
                    }
                }
            },
            _ => return Err(DecodeError::InvalidType("versions".to_owned())),
        }
    }
    assert(strings_view(out@) + Seq::<Seq<char>>::empty() =~= strings_view(out@));
    Ok(out)
}

/// The JSON values of the transports, in order.
fn encode_transports(ts: &Vec<RtcTransport>) -> (vs: Vec<serde_json::Value>)
    ensures
        transports_repr(transports_view(ts@), vs@),
{
    let mut items: Vec<serde_json::Value> = Vec::new();
    let mut i: usize = 0;
    while i < ts.len()
        invariant
            i <= ts.len(),
            items@.len() == i,
            forall|j: int| 0 <= j < i ==> #[trigger] transport_value_repr(ts@[j]@, items@[j]),
        decreases ts.len() - i,
    {
        let obj = ts[i].to_json_object();
        items.push(json_object_value(obj));
        i += 1;
    }
    items
}

/// The JSON values of the strings, in order.
fn encode_strings(ss: &Vec<String>) -> (vs: Vec<serde_json::Value>)
    ensures
        strings_repr(strings_view(ss@), vs@),
{
    let mut items: Vec<serde_json::Value> = Vec::new();
    let mut i: usize = 0;
    while i < ss.len()
        invariant
            i <= ss.len(),
            items@.len() == i,
            forall|j: int| 0 <= j < i ==> #[trigger] json_shape(items@[j]) == JsonShape::Str(ss@[j]@),
        decreases ss.len() - i,
    {
        items.push(json_string_value(ss[i].clone()));
        i += 1;
    }
    items
}

impl RtcMemberEventContent {
    /// Creates a new connecting `RtcMemberEventContent`; its sticky key is the member's ID.
    pub fn new(
        slot_id: String,
        application: RtcApplication,
        member: RtcMember,
        rtc_transports: Vec<RtcTransport>,
        versions: Vec<String>,
    ) -> (r: Self)
        ensures
            r.slot_id == slot_id,
            r.sticky_key@ == member.id@,
            r.application == Some(application),
            r.member == Some(member),
            r.rtc_transports == rtc_transports,
            r.versions == versions,
            r.disconnect_reason is None,
    {
        RtcMemberEventContent {
            slot_id,
            sticky_key: member.id.clone(),
            application: Some(application),
            member: Some(member),
            rtc_transports,
            versions,
            disconnect_reason: None,
        }
    }

    /// Creates a new disconnecting `RtcMemberEventContent`.
    pub fn disconnected(slot_id: String, sticky_key: String, disconnect_reason: DisconnectReason) -> (r: Self)
        ensures
            r.slot_id == slot_id,
            r.sticky_key == sticky_key,
            r.application is None,
            r.member is None,
            r.rtc_transports@.len() == 0,
            r.versions@.len() == 0,
            r.disconnect_reason == Some(disconnect_reason),
    {
        RtcMemberEventContent {
            slot_id,
            sticky_key,
            application: None,
            member: None,
            rtc_transports: Vec::new(),
            versions: Vec::new(),
            disconnect_reason: Some(disconnect_reason),
        }
    }

    /// Whether an event's `type` names this content: the unstable
    /// `org.matrix.msc4143.rtc.member` or its alias `m.rtc.member`.
    pub fn matches_event_type(event_type: &str) -> (r: bool)
        ensures
            r == (event_type@ == "org.matrix.msc4143.rtc.member"@ || event_type@ == "m.rtc.member"@),
    {
        same_str(event_type, "org.matrix.msc4143.rtc.member") || same_str(event_type, "m.rtc.member")
    }

    /// The JSON object of this member content.
    #[verifier::rlimit(40)]
    pub fn to_json_object(&self) -> (obj: JsonObject)
        ensures
            member_content_repr(self@, json_entries(obj)),
    {
        proof {
            lemma_content_keys_distinct();
        }
        let mut obj = json_object_new();
        json_object_insert(&mut obj, "slot_id".to_owned(), json_string_value(self.slot_id.clone()));
        json_object_insert(&mut obj, "sticky_key".to_owned(), json_string_value(self.sticky_key.clone()));
        match &self.application {
            Some(a) => {
                json_object_insert(&mut obj, "application".to_owned(), json_object_value(a.to_json_object()));
            },
            None => {},
        }
        match &self.member {
            Some(m) => {
                json_object_insert(&mut obj, "member".to_owned(), json_object_value(m.to_json_object()));
            },
            None => {},
        }
        if self.rtc_transports.len() > 0 {
            json_object_insert(&mut obj, "rtc_transports".to_owned(), json_array_value(encode_transports(&self.rtc_transports)));
        }
        if self.versions.len() > 0 {
            json_object_insert(&mut obj, "versions".to_owned(), json_array_value(encode_strings(&self.versions)));
        }
        match &self.disconnect_reason {
            Some(r) => {
                json_object_insert(&mut obj, "disconnect_reason".to_owned(), json_object_value(r.to_json_object()));
            },
            None => {},
        }
        obj
    }

    /// Reads a member content from a JSON object.
    #[verifier::rlimit(40)]
    pub fn from_json_object(obj: JsonObject) -> (r: Result<Self, DecodeError>)
        ensures
            result_view(r) == spec_decode_member_content(json_entries(obj)),
    {
        proof {
            lemma_content_keys_distinct();
        }
        let mut obj = obj;
        let slot_id = match take_required_str(&mut obj, "slot_id") {
            Ok(s) => s,
            Err(err) => return Err(err),
        };
        let sticky_key = match take_required_str(&mut obj, "sticky_key") {
            Ok(s) => s,
            Err(err) => return Err(err),
        };
        let application = match take_optional_object(&mut obj, "application") {
            Err(err) => return Err(err),
            Ok(None) => None,
            Ok(Some(m)) => match RtcApplication::from_json_object(m) {
                Ok(a) => Some(a),
                Err(err) => return Err(err),
            },
        };
        let member = match take_optional_object(&mut obj, "member") {
            Err(err) => return Err(err),
            Ok(None) => None,
            Ok(Some(m)) => match RtcMember::from_json_object(m) {
                Ok(a) => Some(a),
                Err(err) => return Err(err),
            },
        };
        let rtc_transports = match take_array_or_empty(&mut obj, "rtc_transports") {
            Err(err) => return Err(err),
            Ok(vals) => match decode_transports(vals) {
                Ok(ts) => ts,
                Err(err) => return Err(err),
            },
        };
        let versions = match take_array_or_empty(&mut obj, "versions") {
            Err(err) => return Err(err),
            Ok(vals) => match decode_versions(vals) {
                Ok(vs) => vs,
                Err(err) => return Err(err),
            },
        };
        let disconnect_reason = match take_optional_object(&mut obj, "disconnect_reason") {
            Err(err) => return Err(err),
            Ok(None) => None,
            Ok(Some(m)) => match DisconnectReason::from_json_object(m) {
                Ok(a) => Some(a),
                Err(err) => return Err(err),
            },
        };
        Ok(RtcMemberEventContent { slot_id, sticky_key, application, member, rtc_transports, versions, disconnect_reason })
    }
}


/// Reading the encodings of transports gives them back, in order, when none of their data
/// holds a `type` entry of its own.
pub proof fn lemma_transports_round_trip(ts: Seq<RtcTransportView>, vs: Seq<serde_json::Value>)
    requires
        transports_repr(ts, vs),
        forall|i: int| 0 <= i < ts.len() ==> !(#[trigger] ts[i]).data.contains_key("type"@),
    ensures
        decodes_to(spec_decode_transports(vs), ts),
    decreases vs.len(),
{
    if vs.len() > 0 {
        assert(transport_value_repr(ts[0], vs[0]));
        lemma_transport_round_trip(ts[0], object_entries_of(vs[0]));
        assert forall|i: int| 0 <= i < vs.drop_first().len() implies #[trigger] transport_value_repr(
            ts.drop_first()[i],
            vs.drop_first()[i],
        ) by {
            assert(transport_value_repr(ts[i + 1], vs[i + 1]));
        }
        assert forall|i: int| 0 <= i < ts.drop_first().len() implies !(#[trigger] ts.drop_first()[i]).data.contains_key(
            "type"@,
        ) by {
            assert(!ts[i + 1].data.contains_key("type"@));
        }
        lemma_transports_round_trip(ts.drop_first(), vs.drop_first());
        assert(seq![ts[0]] + ts.drop_first() =~= ts);
    } else {
        assert(ts =~= Seq::<RtcTransportView>::empty());
    }
}

/// Reading the encodings of strings gives them back, in order.
pub proof fn lemma_versions_round_trip(ss: Seq<Seq<char>>, vs: Seq<serde_json::Value>)
    requires
        strings_repr(ss, vs),
    ensures
        decodes_to(spec_decode_versions(vs), ss),
    decreases vs.len(),
{
    if vs.len() > 0 {
        assert(json_shape(vs[0]) == JsonShape::Str(ss[0]));
        assert forall|i: int| 0 <= i < vs.drop_first().len() implies #[trigger] json_shape(vs.drop_first()[i])
            == JsonShape::Str(ss.drop_first()[i]) by {
            assert(json_shape(vs[i + 1]) == JsonShape::Str(ss[i + 1]));
        }
        lemma_versions_round_trip(ss.drop_first(), vs.drop_first());
        assert(seq![ss[0]] + ss.drop_first() =~= ss);
    } else {
        assert(ss =~= Seq::<Seq<char>>::empty());
    }
}

/// Reading a member content's encoding gives it back, unless it carries a member whose user ID
/// does not have the form of one, a custom application
/// whose type is `m.call` or whose data holds a `type` entry, a transport whose data holds a
/// `type` entry, or a custom disconnect class whose string is one of the known names.
pub proof fn lemma_member_content_round_trip(c: RtcMemberEventContentView, e: Map<Seq<char>, serde_json::Value>)
    requires
        member_content_repr(c, e),
        c.member matches Some(m) ==> is_user_id(m.claimed_user_id),
        c.application matches Some(a) ==> (a is Custom ==> a.application_type() != "m.call"@),
        c.application matches Some(a) ==> (a is Custom ==> !a->Custom_0.data.contains_key("type"@)),
        forall|i: int| 0 <= i < c.rtc_transports.len() ==> !(#[trigger] c.rtc_transports[i]).data.contains_key("type"@),
        c.disconnect_reason matches Some(r) ==> (r.class is Custom ==> !is_known_class_name(r.class->Custom_0)),
    ensures
        decodes_to(spec_decode_member_content(e), c),
{
    match c.application {
        Some(a) => lemma_application_round_trip(a, object_entries_of(e["application"@])),
        None => {},
    }
    match c.member {
        Some(m) => lemma_member_round_trip(m, object_entries_of(e["member"@])),
        None => {},
    }
    if c.rtc_transports.len() > 0 {
        lemma_transports_round_trip(c.rtc_transports, json_shape(e["rtc_transports"@])->Array_0);
    } else {
        assert(c.rtc_transports =~= Seq::<RtcTransportView>::empty());
    }
    if c.versions.len() > 0 {
        lemma_versions_round_trip(c.versions, json_shape(e["versions"@])->Array_0);
    } else {
        assert(c.versions =~= Seq::<Seq<char>>::empty());
    }
    match c.disconnect_reason {
        Some(r) => lemma_reason_round_trip(r, object_entries_of(e["disconnect_reason"@])),
        None => {},
    }
}

/// Reading a disconnect reason whose `class` and `reason` hold strings gives that reason, and
/// a class that is written as exactly the `class` string: one of the five known classes when
/// the string is its snake-case name, a custom class keeping the string otherwise.
pub proof fn lemma_reason_read(e: Map<Seq<char>, serde_json::Value>, class: Seq<char>, reason: Seq<char>)
    requires
        has_str(e, "class"@, class),
        has_str(e, "reason"@, reason),
        !e.contains_key("description"@),
    ensures
        spec_decode_reason(e) is Ok,
        spec_decode_reason(e)->Ok_0.reason == reason,
        spec_decode_reason(e)->Ok_0.description is None,
        class_name(spec_decode_reason(e)->Ok_0.class) == class,
        class == "user_action"@ ==> spec_decode_reason(e)->Ok_0.class == DisconnectClassView::UserAction,
        class == "client_error"@ ==> spec_decode_reason(e)->Ok_0.class == DisconnectClassView::ClientError,
        class == "server_error"@ ==> spec_decode_reason(e)->Ok_0.class == DisconnectClassView::ServerError,
        class == "redirection"@ ==> spec_decode_reason(e)->Ok_0.class == DisconnectClassView::Redirection,
        class == "permanent_failure"@ ==> spec_decode_reason(e)->Ok_0.class
            == DisconnectClassView::PermanentFailure,
        (spec_decode_reason(e)->Ok_0.class is Custom) == (class != "user_action"@ && class != "client_error"@
            && class != "server_error"@ && class != "redirection"@ && class != "permanent_failure"@),
{
    lemma_known_class_names();
    lemma_class_name_of_name(class);
}

/// Reading a member whose `id` and `claimed_device_id` are strings and whose
/// `claimed_user_id` is any string that starts with `@` and has a first `:` followed by at least
/// one character succeeds and keeps the three strings, whatever their other characters.
pub proof fn lemma_member_read(
    e: Map<Seq<char>, serde_json::Value>,
    id: Seq<char>,
    claimed_device_id: Seq<char>,
    claimed_user_id: Seq<char>,
    colon: int,
)
    requires
        has_str(e, "id"@, id),
        has_str(e, "claimed_device_id"@, claimed_device_id),
        has_str(e, "claimed_user_id"@, claimed_user_id),
        claimed_user_id.len() > 0,
        claimed_user_id[0] == '@',
        1 <= colon < claimed_user_id.len() - 1,
        claimed_user_id[colon] == ':',
        forall|j: int| 1 <= j < colon ==> claimed_user_id[j] != ':',
    ensures
        decodes_to(spec_decode_member(e), (RtcMemberView { id, claimed_device_id, claimed_user_id })),
{
    crate::identifiers::lemma_user_id_form(claimed_user_id, colon);
}

/// Reading a member content whose `slot_id` and `sticky_key` are strings and whose `versions`
/// entry is an array of strings gives exactly those strings, in order; an empty array reads as
/// an empty list. With no other entries, the reading succeeds.
pub proof fn lemma_member_content_versions_read(
    e: Map<Seq<char>, serde_json::Value>,
    slot_id: Seq<char>,
    sticky_key: Seq<char>,
    versions: Seq<Seq<char>>,
)
    requires
        has_str(e, "slot_id"@, slot_id),
        has_str(e, "sticky_key"@, sticky_key),
        e.contains_key("versions"@),
        json_shape(e["versions"@]) is Array,
        json_shape(e["versions"@])->Array_0.len() == versions.len(),
        forall|i: int|
            0 <= i < versions.len() ==> json_shape(#[trigger] json_shape(e["versions"@])->Array_0[i])
                == JsonShape::Str(versions[i]),
    ensures
        spec_decode_member_content(e) is Ok ==> spec_decode_member_content(e)->Ok_0.versions == versions,
        (!e.contains_key("application"@) && !e.contains_key("member"@) && !e.contains_key("rtc_transports"@)
            && !e.contains_key("disconnect_reason"@)) ==> decodes_to(
            spec_decode_member_content(e),
            (RtcMemberEventContentView {
                slot_id,
                sticky_key,
                application: None,
                member: None,
                rtc_transports: Seq::empty(),
                versions,
                disconnect_reason: None,
            }),
        ),
{
    lemma_versions_round_trip(versions, json_shape(e["versions"@])->Array_0);
}

} // verus!
