//! The content of the MatrixRTC encryption key to-device event (`m.rtc.encryption_key`).
//!
//! It hands a participant's media encryption key to the other members of a session.
use vstd::prelude::*;

use crate::identifiers::{check_room_id, is_room_id};

use crate::json::{
    decodes_to, has_str, json_entries, json_object_insert, json_object_new, json_object_value,
    json_shape, json_string_value, json_u64_value, object_entries_of, result_view, same_str,
    spec_required_object, spec_required_str, spec_required_u8, take_required_object,
    take_required_str, take_required_u8, DecodeError, DecodeErrorView, JsonObject, JsonShape,
};

verus! {

/// Media encryption key material.
#[derive(Clone, Debug, PartialEq, Eq)]
#[non_exhaustive]
pub struct MediaKey {
    /// The index of the key, used to distinguish it from others during rotation.
    ///
    /// A value in the range 0 to 255.
    pub index: u8,
    /// The key material, encoded using unpadded base64.
    pub key: String,
}

/// A media key, as contracts speak of it.
pub struct MediaKeyView {
    pub index: u8,
    pub key: Seq<char>,
}

impl View for MediaKey {
    type V = MediaKeyView;

    open spec fn view(&self) -> MediaKeyView {
        MediaKeyView { index: self.index, key: self.key@ }
    }
}

/// The content of an `m.rtc.encryption_key` to-device event.
#[derive(Clone, Debug, PartialEq, Eq)]
#[non_exhaustive]
pub struct ToDeviceRtcEncryptionKeyEventContent {
    /// The room the MatrixRTC session belongs to.
    ///
    /// Reading from JSON checks that it has the form of a room ID.
    pub room_id: String,
    /// The `member.id` of the participant this key belongs to.
    pub member_id: String,
    /// The media encryption key material.
    pub media_key: MediaKey,
    /// The version of the key format.
    pub version: String,
}

/// An encryption key content, as contracts speak of it.
pub struct EncryptionKeyContentView {
    pub room_id: Seq<char>,
    pub member_id: Seq<char>,
    pub media_key: MediaKeyView,
    pub version: Seq<char>,
}

impl View for ToDeviceRtcEncryptionKeyEventContent {
    type V = EncryptionKeyContentView;

    open spec fn view(&self) -> EncryptionKeyContentView {
        EncryptionKeyContentView {
            room_id: self.room_id@,
            member_id: self.member_id@,
            media_key: self.media_key@,
            version: self.version@,
        }
    }
}

/// The JSON entries `e` are the encoding of the media key `k`: its index as a number and its
/// key as a string.
pub open spec fn media_key_repr(k: MediaKeyView, e: Map<Seq<char>, serde_json::Value>) -> bool {
    &&& e.dom() == set!["index"@, "key"@]
    &&& json_shape(e["index"@]) == JsonShape::Number(Some(k.index as u64))
    &&& has_str(e, "key"@, k.key)
}

/// Reads a media key from JSON entries: `index` must be an integer from 0 to 255 and `key` a
/// string.
pub open spec fn spec_decode_media_key(e: Map<Seq<char>, serde_json::Value>) -> Result<
    MediaKeyView,
    DecodeErrorView,
> {
    match spec_required_u8(e, "index"@) {
        Err(err) => Err(err),
        Ok(index) => match spec_required_str(e, "key"@) {
            Err(err) => Err(err),
            Ok(key) => Ok(MediaKeyView { index, key }),
        },
    }
}

/// The JSON entries `e` are the encoding of the encryption key content `c`.
pub open spec fn encryption_key_repr(c: EncryptionKeyContentView, e: Map<Seq<char>, serde_json::Value>) -> bool {
    &&& e.dom() == set!["room_id"@, "member_id"@, "media_key"@, "version"@]
    &&& has_str(e, "room_id"@, c.room_id)
    &&& has_str(e, "member_id"@, c.member_id)
    &&& json_shape(e["media_key"@]) is Object
    &&& media_key_repr(c.media_key, object_entries_of(e["media_key"@]))
    &&& has_str(e, "version"@, c.version)
}

/// Reads an encryption key content from JSON entries: `room_id`, `member_id` and `version` must
/// be strings, `room_id` of the form of a room ID, and `media_key` an object that reads as a
/// media key.
pub open spec fn spec_decode_encryption_key(e: Map<Seq<char>, serde_json::Value>) -> Result<
    EncryptionKeyContentView,
    DecodeErrorView,
> {
    match spec_required_str(e, "room_id"@) {
        Err(err) => Err(err),
        Ok(room_id) => if !is_room_id(room_id) {
            Err(DecodeErrorView::InvalidValue("room_id"@))
        } else {
            match spec_required_str(e, "member_id"@) {
                Err(err) => Err(err),
                Ok(member_id) => match spec_required_object(e, "media_key"@) {
                    Err(err) => Err(err),
                    Ok(m) => match spec_decode_media_key(json_entries(m)) {
                        Err(err) => Err(err),
                        Ok(media_key) => match spec_required_str(e, "version"@) {
                            Err(err) => Err(err),
                            Ok(version) => Ok(EncryptionKeyContentView { room_id, member_id, media_key, version }),
                        },
                    },
                },
            }
        },
    }
}

/// The keys of the encryption key content are pairwise distinct, as are those of the media key.
proof fn lemma_keys_distinct()
    ensures
        "index"@ != "key"@,
        "room_id"@ != "member_id"@,
        "room_id"@ != "media_key"@,
        "room_id"@ != "version"@,
        "member_id"@ != "media_key"@,
        "member_id"@ != "version"@,
        "media_key"@ != "version"@,
{
    reveal_strlit("index");
    reveal_strlit("key");
    reveal_strlit("room_id");
    reveal_strlit("member_id");
    reveal_strlit("media_key");
    reveal_strlit("version");
    assert("index"@.len() != "key"@.len());
    assert("room_id"@.len() != "member_id"@.len());
    assert("room_id"@.len() != "media_key"@.len());
    assert("room_id"@[0] != "version"@[0]);
    assert("member_id"@[2] != "media_key"@[2]);
    assert("member_id"@.len() != "version"@.len());
    assert("media_key"@.len() != "version"@.len());
}

impl MediaKey {
    /// Creates a new `MediaKey`.
    pub fn new(index: u8, key: String) -> (r: Self)
        ensures
            r.index == index,
            r.key == key,
    {
        MediaKey { index, key }
    }

    /// The JSON object of this media key.
    pub fn to_json_object(&self) -> (obj: JsonObject)
        ensures
            media_key_repr(self@, json_entries(obj)),
    {
        proof {
            lemma_keys_distinct();
        }
        let mut obj = json_object_new();
        json_object_insert(&mut obj, "index".to_owned(), json_u64_value(self.index as u64));
        json_object_insert(&mut obj, "key".to_owned(), json_string_value(self.key.clone()));
        obj
    }

    /// Reads a media key from a JSON object.
    pub fn from_json_object(obj: JsonObject) -> (r: Result<Self, DecodeError>)
        ensures
            result_view(r) == spec_decode_media_key(json_entries(obj)),
    {
        proof {
            lemma_keys_distinct();
        }
        let mut obj = obj;
        let index = match take_required_u8(&mut obj, "index") {
            Ok(i) => i,
            Err(err) => return Err(err),
        };
        let key = match take_required_str(&mut obj, "key") {
            Ok(k) => k,
            Err(err) => return Err(err),
        };
        Ok(MediaKey { index, key })
    }
}

impl ToDeviceRtcEncryptionKeyEventContent {
    /// Creates a new `ToDeviceRtcEncryptionKeyEventContent`.
    pub fn new(room_id: String, member_id: String, media_key: MediaKey, version: String) -> (r: Self)
        ensures
            r.room_id == room_id,
            r.member_id == member_id,
            r.media_key == media_key,
            r.version == version,
    {
        ToDeviceRtcEncryptionKeyEventContent { room_id, member_id, media_key, version }
    }

    /// Whether an event's `type` names this content: the unstable
    /// `org.matrix.msc4143.rtc.encryption_key` or its alias `m.rtc.encryption_key`.
    pub fn matches_event_type(event_type: &str) -> (r: bool)
        ensures
            r == (event_type@ == "org.matrix.msc4143.rtc.encryption_key"@ || event_type@
                == "m.rtc.encryption_key"@),
    {
        same_str(event_type, "org.matrix.msc4143.rtc.encryption_key") || same_str(event_type, "m.rtc.encryption_key")
    }

    /// The JSON object of this encryption key content.
    pub fn to_json_object(&self) -> (obj: JsonObject)
        ensures
            encryption_key_repr(self@, json_entries(obj)),
    {
        proof {
            lemma_keys_distinct();
        }
        let mut obj = json_object_new();
        json_object_insert(&mut obj, "room_id".to_owned(), json_string_value(self.room_id.clone()));
        json_object_insert(&mut obj, "member_id".to_owned(), json_string_value(self.member_id.clone()));
        json_object_insert(&mut obj, "media_key".to_owned(), json_object_value(self.media_key.to_json_object()));
        json_object_insert(&mut obj, "version".to_owned(), json_string_value(self.version.clone()));
        obj
    }

    /// Reads an encryption key content from a JSON object.
    pub fn from_json_object(obj: JsonObject) -> (r: Result<Self, DecodeError>)
        ensures
            result_view(r) == spec_decode_encryption_key(json_entries(obj)),
    {
        proof {
            lemma_keys_distinct();
        }
        let mut obj = obj;
        let room_id = match take_required_str(&mut obj, "room_id") {
            Ok(s) => s,
            Err(err) => return Err(err),
        };
        if !check_room_id(room_id.as_str()) {
            return Err(DecodeError::InvalidValue("room_id".to_owned()));
        }
        let member_id = match take_required_str(&mut obj, "member_id") {
            Ok(s) => s,
            Err(err) => return Err(err),
        };
        let media_key_object = match take_required_object(&mut obj, "media_key") {
            Ok(m) => m,
            Err(err) => return Err(err),
        };
        let media_key = match MediaKey::from_json_object(media_key_object) {
            Ok(k) => k,
            Err(err) => return Err(err),
        };
        let version = match take_required_str(&mut obj, "version") {
            Ok(s) => s,
            Err(err) => return Err(err),
        };
        Ok(ToDeviceRtcEncryptionKeyEventContent { room_id, member_id, media_key, version })
    }
}

/// Reading a media key's encoding gives the media key back.
pub proof fn lemma_media_key_round_trip(k: MediaKeyView, e: Map<Seq<char>, serde_json::Value>)
    requires
        media_key_repr(k, e),
    ensures
        decodes_to(spec_decode_media_key(e), k),
{
}

/// Reading an encryption key content's encoding gives it back, when its room ID has the form
/// of one.
pub proof fn lemma_encryption_key_round_trip(c: EncryptionKeyContentView, e: Map<Seq<char>, serde_json::Value>)
    requires
        encryption_key_repr(c, e),
        is_room_id(c.room_id),
    ensures
        decodes_to(spec_decode_encryption_key(e), c),
{
    lemma_media_key_round_trip(c.media_key, object_entries_of(e["media_key"@]));
}

/// Reading an encryption key content whose `room_id` is any string starting with `!`, whose
/// `member_id` and `version` are strings, and whose `media_key` is an object with an integer
/// `index` from 0 to 255 and a string `key`, succeeds and keeps every one of those values.
pub proof fn lemma_encryption_key_read(
    e: Map<Seq<char>, serde_json::Value>,
    room_id: Seq<char>,
    member_id: Seq<char>,
    index: u8,
    key: Seq<char>,
    version: Seq<char>,
)
    requires
        has_str(e, "room_id"@, room_id),
        room_id.len() > 0,
        room_id[0] == '!',
        has_str(e, "member_id"@, member_id),
        e.contains_key("media_key"@),
        json_shape(e["media_key"@]) is Object,
        object_entries_of(e["media_key"@]).contains_key("index"@),
        json_shape(object_entries_of(e["media_key"@])["index"@]) == JsonShape::Number(Some(index as u64)),
        has_str(object_entries_of(e["media_key"@]), "key"@, key),
        has_str(e, "version"@, version),
    ensures
        decodes_to(
            spec_decode_encryption_key(e),
            (EncryptionKeyContentView {
                room_id,
                member_id,
                media_key: MediaKeyView { index, key },
                version,
            }),
        ),
{
    crate::identifiers::lemma_room_id_form(room_id);
}

} // verus!
