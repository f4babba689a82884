//! The sticky object of sticky events: how long, in milliseconds, an event stays sticky.
//!
//! Its JSON encoding is `{"duration_ms": n}`. A duration up to one hour is valid; a longer one
//! is kept, but marked out of range.
use vstd::prelude::*;

use crate::json::{
    decodes_to, json_entries, json_object_insert, json_object_new, json_shape, json_u64_value,
    result_view, spec_required_u64, take_required_u64, DecodeError, DecodeErrorView, JsonObject,
    JsonShape,
};

verus! {

#[verifier::external_type_specification]
#[verifier::external_body]
pub struct ExUInt(js_int::UInt);

/// The integer a `js_int::UInt` holds.
pub uninterp spec fn uint_value(u: js_int::UInt) -> u64;

/// The largest integer a `js_int::UInt` holds: 2^53 - 1.
pub open spec fn max_safe_uint() -> u64 {
    0x001F_FFFF_FFFF_FFFF
}

/// `js_int::UInt::new`: a `UInt` holding the integer, when it is at most 2^53 - 1.
#[verifier::external_body]
fn uint_new(val: u64) -> (r: Option<js_int::UInt>)
    ensures
        r is Some <==> val <= max_safe_uint(),
        r matches Some(u) ==> uint_value(u) == val,
{
    js_int::UInt::new(val)
}

/// `From<js_int::UInt> for u64`: the integer the `UInt` holds, which is at most 2^53 - 1.
#[verifier::external_body]
fn uint_to_u64(u: js_int::UInt) -> (r: u64)
    ensures
        r == uint_value(u),
        r <= max_safe_uint(),
{
    u64::from(u)
}

/// Sticky duration in milliseconds, from 0 to 3600000 (one hour).
#[derive(Clone, Copy, Debug, PartialEq, Eq, PartialOrd, Ord, Structural)]
pub struct StickyDurationMs(u32);

/// The longest sticky duration, in milliseconds (one hour).
pub open spec fn sticky_max() -> u32 {
    3_600_000
}

/// The duration that clamping `v` into `[0, 1h]` gives.
pub open spec fn clamp_duration(v: u64) -> u32 {
    if v <= sticky_max() {
        v as u32
    } else {
        sticky_max()
    }
}

impl View for StickyDurationMs {
    type V = u32;

    closed spec fn view(&self) -> u32 {
        self.0
    }
}

impl StickyDurationMs {
    /// The maximum possible sticky duration in millis (1 hour).
    pub const MAX: u32 = 3_600_000;

    #[verifier::type_invariant]
    spec fn within_max(self) -> bool {
        self.0 <= sticky_max()
    }

    /// Creates a `StickyDurationMs` by clamping `v` into `[0, 1h]`.
    pub fn new_clamped<T: Into<u64>>(v: T) -> (r: Self)
        ensures
            r@ <= sticky_max(),
            <T as vstd::std_specs::convert::IntoSpec<u64>>::obeys_into_spec() ==> r@ == clamp_duration(
                <T as vstd::std_specs::convert::IntoSpec<u64>>::into_spec(v),
            ),
    {
        Self::new_clamped_u64(v.into())
    }

    /// Creates a `StickyDurationMs` by clamping the `u64` `v` into `[0, 1h]`.
    pub fn new_clamped_u64(v: u64) -> (r: Self)
        ensures
            r@ == clamp_duration(v),
    {
        let clamped: u32 = if v <= Self::MAX as u64 {
            v as u32
        } else {
            Self::MAX
        };
        StickyDurationMs(clamped)
    }

    /// Get the value as a `u32`.
    pub fn get(self) -> (r: u32)
        ensures
            r == self@,
            r <= sticky_max(),
    {
        proof {
            use_type_invariant(&self);
        }
        self.into()
    }
}

impl From<StickyDurationMs> for u32 {
    fn from(d: StickyDurationMs) -> (r: u32) {
        d.0
    }
}

impl vstd::std_specs::convert::FromSpecImpl<StickyDurationMs> for u32 {
    open spec fn obeys_from_spec() -> bool {
        true
    }

    open spec fn from_spec(v: StickyDurationMs) -> u32 {
        v@
    }
}

/// The sticky object of a sticky event.
#[derive(Debug)]
#[non_exhaustive]
pub enum StickyObject {
    /// A valid sticky duration within the allowed range (0 to 1 hour).
    Valid(StickyDurationMs),
    /// An invalid sticky duration outside the allowed range.
    OutOfRange(js_int::UInt),
}

impl Clone for StickyObject {
    fn clone(&self) -> (r: Self)
        ensures
            r == *self,
    {
        match self {
            StickyObject::Valid(d) => StickyObject::Valid(*d),
            StickyObject::OutOfRange(u) => StickyObject::OutOfRange(*u),
        }
    }
}

/// A sticky object, as contracts speak of it: a valid duration, or the integer of an out-of-range one.
pub enum StickyObjectView {
    Valid(u32),
    OutOfRange(u64),
}

impl View for StickyObject {
    type V = StickyObjectView;

    open spec fn view(&self) -> StickyObjectView {
        match self {
            StickyObject::Valid(d) => StickyObjectView::Valid(d@),
            StickyObject::OutOfRange(u) => StickyObjectView::OutOfRange(uint_value(*u)),
        }
    }
}

impl StickyObjectView {
    /// The duration in milliseconds that the object carries.
    pub open spec fn duration_ms(self) -> u64 {
        match self {
            StickyObjectView::Valid(d) => d as u64,
            StickyObjectView::OutOfRange(n) => n,
        }
    }
}

/// Reads a sticky object from JSON entries: `duration_ms` must be an integer from 0 to
/// 2^53 - 1; up to one hour it is valid, above it is out of range.
pub open spec fn spec_decode_sticky(e: Map<Seq<char>, serde_json::Value>) -> Result<
    StickyObjectView,
    DecodeErrorView,
> {
    match spec_required_u64(e, "duration_ms"@) {
        Err(err) => Err(err),
        Ok(n) => if n > max_safe_uint() {
            Err(DecodeErrorView::InvalidValue("duration_ms"@))
        } else if n <= sticky_max() {
            Ok(StickyObjectView::Valid(n as u32))
        } else {
            Ok(StickyObjectView::OutOfRange(n))
        },
    }
}

/// The JSON entries `e` are the encoding of the sticky object `o`: its duration under
/// `duration_ms`, and nothing else.
pub open spec fn sticky_repr(o: StickyObjectView, e: Map<Seq<char>, serde_json::Value>) -> bool {
    &&& e.dom() == set!["duration_ms"@]
    &&& json_shape(e["duration_ms"@]) == JsonShape::Number(Some(o.duration_ms()))
}

impl StickyObject {
    /// Returns the sticky duration if the sticky event is valid.
    /// Returns `None` if the sticky property is invalid (out of range).
    pub fn sticky_duration(&self) -> (r: Option<StickyDurationMs>)
        ensures
            r == (match self {
                StickyObject::Valid(d) => Some(*d),
                StickyObject::OutOfRange(_) => None,
            }),
    {
        match self {
            StickyObject::Valid(duration) => Some(*duration),
            StickyObject::OutOfRange(_) => None,
        }
    }

    /// The JSON object of this sticky object.
    pub fn to_json_object(&self) -> (obj: JsonObject)
        ensures
            sticky_repr(self@, json_entries(obj)),
            self@.duration_ms() <= max_safe_uint(),
            self@ is Valid ==> self@.duration_ms() <= sticky_max(),
    {
        let duration_ms: u64 = match self {
            StickyObject::Valid(duration) => duration.get() as u64,
            StickyObject::OutOfRange(out_of_range) => uint_to_u64(*out_of_range),
        };
        let mut obj = json_object_new();
        json_object_insert(&mut obj, "duration_ms".to_owned(), json_u64_value(duration_ms));
        obj
    }

    /// Reads a sticky object from a JSON object.
    pub fn from_json_object(obj: JsonObject) -> (r: Result<Self, DecodeError>)
        ensures
            result_view(r) == spec_decode_sticky(json_entries(obj)),
    {
        let mut obj = obj;
        let duration_ms = match take_required_u64(&mut obj, "duration_ms") {
            Ok(n) => n,
            Err(err) => return Err(err),
        };
        match uint_new(duration_ms) {
            None => Err(DecodeError::InvalidValue("duration_ms".to_owned())),
            Some(u) => if duration_ms <= StickyDurationMs::MAX as u64 {
                Ok(StickyObject::Valid(StickyDurationMs::new_clamped_u64(duration_ms)))
            } else {
                Ok(StickyObject::OutOfRange(u))
            },
        }
    }
}

/// Clamping a duration that is already within one hour keeps it.
pub proof fn lemma_clamp_within_max(v: u64)
    requires
        v <= sticky_max(),
    ensures
        clamp_duration(v) == v,
{
}

/// Clamping never gives more than one hour, and clamping twice is clamping once.
pub proof fn lemma_clamp_idempotent(v: u64)
    ensures
        clamp_duration(v) <= sticky_max(),
        clamp_duration(clamp_duration(v) as u64) == clamp_duration(v),
{
}

/// What reading back the encoding of a sticky object gives: a valid duration stays valid; an
/// out-of-range one stays out of range above one hour, and reads as valid up to one hour.
pub open spec fn sticky_read_back(o: StickyObjectView) -> StickyObjectView {
    match o {
        StickyObjectView::Valid(d) => StickyObjectView::Valid(d),
        StickyObjectView::OutOfRange(n) => if n <= sticky_max() {
            StickyObjectView::Valid(clamp_duration(n))
        } else {
            StickyObjectView::OutOfRange(n)
        },
    }
}

/// Reading a sticky object's encoding gives what `sticky_read_back` says: the object itself
/// when it is valid or out of range above one hour. Every sticky object meets the premises:
/// `StickyObject::to_json_object` ensures them.
pub proof fn lemma_sticky_round_trip(o: StickyObjectView, e: Map<Seq<char>, serde_json::Value>)
    requires
        sticky_repr(o, e),
        o.duration_ms() <= max_safe_uint(),
        o is Valid ==> o.duration_ms() <= sticky_max(),
    ensures
        decodes_to(spec_decode_sticky(e), sticky_read_back(o)),
        (o is Valid || o.duration_ms() > sticky_max()) ==> sticky_read_back(o) == o,
{
}

/// A sticky object read from `{"duration_ms": n}` carries a duration exactly when
/// `n <= 3600000`, and then that duration is `n`, which clamping `n` gives too; otherwise it is
/// out of range and keeps `n`.
pub proof fn lemma_decoded_sticky_duration(e: Map<Seq<char>, serde_json::Value>)
    requires
        spec_decode_sticky(e) is Ok,
    ensures
        ({
            let n = spec_required_u64(e, "duration_ms"@)->Ok_0;
            match spec_decode_sticky(e)->Ok_0 {
                StickyObjectView::Valid(d) => n <= sticky_max() && d as u64 == n && d == clamp_duration(n),
                StickyObjectView::OutOfRange(m) => sticky_max() < n && m == n,
            }
        }),
{
}

/// Clamping keeps order: a smaller duration never clamps to a larger one.
pub proof fn lemma_clamp_monotonic(a: u64, b: u64)
    requires
        a <= b,
    ensures
        clamp_duration(a) <= clamp_duration(b),
{
}

/// A sticky object read from JSON is valid exactly when its duration is at most one hour.
pub proof fn lemma_decoded_sticky_valid(e: Map<Seq<char>, serde_json::Value>)
    requires
        spec_decode_sticky(e) is Ok,
    ensures
        (spec_decode_sticky(e)->Ok_0 is Valid) <==> spec_required_u64(e, "duration_ms"@)->Ok_0
            <= sticky_max(),
{
}

} // verus!
