//! The library's view of one serialized payload handled by the native
//! layer. The payload's encoding and contents stay native-side; the only
//! facts the wrapper's logic ever reads are the payload's type tag and the
//! identity of the native object, so a payload is modeled as exactly those
//! two plain values.

use vstd::prelude::*;

verus! {

/// The type tag of a serialized payload value.
#[derive(Clone, Copy, Debug, PartialEq, Eq, Structural)]
pub enum PayloadKind {
    Boolean,
    Integer,
    Real,
    Date,
    Data,
    Text,
    Array,
    Dictionary,
    Key,
    Uid,
    Null,
    Unknown,
}

/// One serialized payload as this library sees it: its type tag, and the
/// identity of the native object that holds the actual contents.
#[derive(Clone, Copy, Debug, PartialEq, Eq, Structural)]
pub struct SyncPayload {
    /// The payload's type tag.
    pub kind: PayloadKind,
    /// Identity of the native object behind this payload.
    pub handle: u64,
}

impl SyncPayload {
    /// Pair a native object identity with its type tag.
    pub fn new(kind: PayloadKind, handle: u64) -> (r: SyncPayload)
        ensures
            r == (SyncPayload { kind, handle }),
    {
        SyncPayload { kind, handle }
    }
}

/// Declares plist_plus's type tag enum, a plain fieldless enum, so that the
/// conversion below can be verified variant by variant.
#[verifier::external_type_specification]
pub struct ExPlistType(plist_plus::PlistType);

/// This library's tag for each tag of the plist library.
pub open spec fn kind_of_native(t: plist_plus::PlistType) -> PayloadKind {
    match t {
        plist_plus::PlistType::Boolean => PayloadKind::Boolean,
        plist_plus::PlistType::Integer => PayloadKind::Integer,
        plist_plus::PlistType::Real => PayloadKind::Real,
        plist_plus::PlistType::Date => PayloadKind::Date,
        plist_plus::PlistType::Data => PayloadKind::Data,
        plist_plus::PlistType::String => PayloadKind::Text,
        plist_plus::PlistType::Array => PayloadKind::Array,
        plist_plus::PlistType::Dictionary => PayloadKind::Dictionary,
        plist_plus::PlistType::Unknown => PayloadKind::Unknown,
        plist_plus::PlistType::Key => PayloadKind::Key,
        plist_plus::PlistType::Uid => PayloadKind::Uid,
        plist_plus::PlistType::None => PayloadKind::Null,
    }
}

impl PayloadKind {
    /// Reads a native payload value's type tag into this library's own
    /// closed enum, so that the wrapper's shape checks can reason about it.
    /// The tag a payload carries in the plist library maps one to one;
    /// `Null` stands for its tag for no value.
    pub fn from_native(t: plist_plus::PlistType) -> (r: PayloadKind)
        ensures
            r == kind_of_native(t),
    {
        match t {
            plist_plus::PlistType::Boolean => PayloadKind::Boolean,
            plist_plus::PlistType::Integer => PayloadKind::Integer,
            plist_plus::PlistType::Real => PayloadKind::Real,
            plist_plus::PlistType::Date => PayloadKind::Date,
            plist_plus::PlistType::Data => PayloadKind::Data,
            plist_plus::PlistType::String => PayloadKind::Text,
            plist_plus::PlistType::Array => PayloadKind::Array,
            plist_plus::PlistType::Dictionary => PayloadKind::Dictionary,
            plist_plus::PlistType::Unknown => PayloadKind::Unknown,
            plist_plus::PlistType::Key => PayloadKind::Key,
            plist_plus::PlistType::Uid => PayloadKind::Uid,
            plist_plus::PlistType::None => PayloadKind::Null,
        }
    }
}

} // verus!
