//! The tag-level (TLV) primitive of the application layer: a descriptor
//! classifies a byte range as an application or a context tag and carries a
//! length/value/type indicator.  The numeric code mappings for both tag
//! classes are total over the whole byte domain 0..=255 and round-trip
//! exactly; unknown codes route to the `Reserved`/`Other` catch-alls and are
//! never an error.

use vstd::prelude::*;

verus! {

/// A view over a range of a caller-owned buffer, classified by its
/// descriptor.  The tag does not copy the bytes it describes: `data_start`
/// and `data_end` index into the buffer the tag was decoded from, and the
/// view is meaningful only while that buffer is unchanged.
#[derive(Clone, Copy, Debug, PartialEq, Eq, Structural)]
pub struct Tag {
    pub tag_number: TagNumber,
    pub lvt: LengthValueType,
    pub data_start: usize,
    pub data_end: usize,
}

impl Tag {
    /// The tag's data range lies inside `buf`.
    pub open spec fn valid_in(self, buf: Seq<u8>) -> bool {
        self.data_start <= self.data_end && self.data_end <= buf.len()
    }
}

/// The tag's class together with its class-specific kind.
#[derive(Clone, Copy, Debug, PartialEq, Eq, Structural)]
pub enum TagNumber {
    Application(ApplicationTag),
    Context(ContextTag),
}

/// The length/value/type indicator of a descriptor: a literal small value,
/// an explicit payload length, or a structural bracket of a constructed
/// value.
#[derive(Clone, Copy, Debug, PartialEq, Eq, Structural)]
pub enum LengthValueType {
    Length(u32),
    Value(u8),
    Opening,
    Closing,
}

/// The semantic kind of an application tag.  Codes 13 to 15 are reserved by
/// the standard and kept as `Reserved(code)`; every other unnamed code is
/// kept as `Other(code)`, so the mapping from bytes is total.
#[derive(Clone, Copy, Debug, PartialEq, Eq, Structural)]
pub enum ApplicationTag {
    Null,
    Boolean,
    UnsignedInteger,
    SignedInteger,
    Real,
    Double,
    OctetString,
    CharacterString,
    BitString,
    Enumerated,
    Date,
    Time,
    BACnetObjectIdentifier,
    Reserved(u8),
    Other(u8),
}

/// The application-tag kind a byte decodes to.
pub open spec fn application_tag_of(b: u8) -> ApplicationTag {
    if b == 0 {
        ApplicationTag::Null
    } else if b == 1 {
        ApplicationTag::Boolean
    } else if b == 2 {
        ApplicationTag::UnsignedInteger
    } else if b == 3 {
        ApplicationTag::SignedInteger
    } else if b == 4 {
        ApplicationTag::Real
    } else if b == 5 {
        ApplicationTag::Double
    } else if b == 6 {
        ApplicationTag::OctetString
    } else if b == 7 {
        ApplicationTag::CharacterString
    } else if b == 8 {
        ApplicationTag::BitString
    } else if b == 9 {
        ApplicationTag::Enumerated
    } else if b == 10 {
        ApplicationTag::Date
    } else if b == 11 {
        ApplicationTag::Time
    } else if b == 12 {
        ApplicationTag::BACnetObjectIdentifier
    } else if 13 <= b && b <= 15 {
        ApplicationTag::Reserved(b)
    } else {
        ApplicationTag::Other(b)
    }
}

/// The byte an application-tag kind encodes to.
pub open spec fn application_tag_code(t: ApplicationTag) -> u8 {
    match t {
        ApplicationTag::Null => 0,
        ApplicationTag::Boolean => 1,
        ApplicationTag::UnsignedInteger => 2,
        ApplicationTag::SignedInteger => 3,
        ApplicationTag::Real => 4,
        ApplicationTag::Double => 5,
        ApplicationTag::OctetString => 6,
        ApplicationTag::CharacterString => 7,
        ApplicationTag::BitString => 8,
        ApplicationTag::Enumerated => 9,
        ApplicationTag::Date => 10,
        ApplicationTag::Time => 11,
        ApplicationTag::BACnetObjectIdentifier => 12,
        ApplicationTag::Reserved(t) => t,
        ApplicationTag::Other(t) => t,
    }
}

impl From<u8> for ApplicationTag {
    fn from(tag_number: u8) -> (r: Self) {
        if tag_number == 0 {
            ApplicationTag::Null
        } else if tag_number == 1 {
            ApplicationTag::Boolean
        } else if tag_number == 2 {
            ApplicationTag::UnsignedInteger
        } else if tag_number == 3 {
            ApplicationTag::SignedInteger
        } else if tag_number == 4 {
            ApplicationTag::Real
        } else if tag_number == 5 {
            ApplicationTag::Double
        } else if tag_number == 6 {
            ApplicationTag::OctetString
        } else if tag_number == 7 {
            ApplicationTag::CharacterString
        } else if tag_number == 8 {
            ApplicationTag::BitString
        } else if tag_number == 9 {
            ApplicationTag::Enumerated
        } else if tag_number == 10 {
            ApplicationTag::Date
        } else if tag_number == 11 {
            ApplicationTag::Time
        } else if tag_number == 12 {
            ApplicationTag::BACnetObjectIdentifier
        } else if tag_number <= 15 {
            ApplicationTag::Reserved(tag_number)
        } else {
            ApplicationTag::Other(tag_number)
        }
    }
}

impl vstd::std_specs::convert::FromSpecImpl<u8> for ApplicationTag {
    open spec fn obeys_from_spec() -> bool {
        true
    }

    open spec fn from_spec(v: u8) -> Self {
        application_tag_of(v)
    }
}

impl From<ApplicationTag> for u8 {
    fn from(val: ApplicationTag) -> (r: Self) {
        match val {
            ApplicationTag::Null => 0,
            ApplicationTag::Boolean => 1,
            ApplicationTag::UnsignedInteger => 2,
            ApplicationTag::SignedInteger => 3,
            ApplicationTag::Real => 4,
            ApplicationTag::Double => 5,
            ApplicationTag::OctetString => 6,
            ApplicationTag::CharacterString => 7,
            ApplicationTag::BitString => 8,
            ApplicationTag::Enumerated => 9,
            ApplicationTag::Date => 10,
            ApplicationTag::Time => 11,
            ApplicationTag::BACnetObjectIdentifier => 12,
            ApplicationTag::Reserved(t) => t,
            ApplicationTag::Other(t) => t,
        }
    }
}

impl vstd::std_specs::convert::FromSpecImpl<ApplicationTag> for u8 {
    open spec fn obeys_from_spec() -> bool {
        true
    }

    open spec fn from_spec(v: ApplicationTag) -> Self {
        application_tag_code(v)
    }
}

/// Context tags are opaque at this layer: every code is kept as it stands
/// and interpreted by a higher layer.
#[derive(Clone, Copy, Debug, PartialEq, Eq, Structural)]
pub enum ContextTag {
    Other(u8),
}

/// The context-tag kind a byte decodes to.
pub open spec fn context_tag_of(b: u8) -> ContextTag {
    ContextTag::Other(b)
}

/// The byte a context-tag kind encodes to.
pub open spec fn context_tag_code(t: ContextTag) -> u8 {
    match t {
        ContextTag::Other(b) => b,
    }
}

impl From<u8> for ContextTag {
    fn from(tag_number: u8) -> (r: Self) {
        ContextTag::Other(tag_number)
    }
}

impl vstd::std_specs::convert::FromSpecImpl<u8> for ContextTag {
    open spec fn obeys_from_spec() -> bool {
        true
    }

    open spec fn from_spec(v: u8) -> Self {
        context_tag_of(v)
    }
}

impl From<ContextTag> for u8 {
    fn from(val: ContextTag) -> (r: Self) {
        match val {
            ContextTag::Other(t) => t,
        }
    }
}

impl vstd::std_specs::convert::FromSpecImpl<ContextTag> for u8 {
    open spec fn obeys_from_spec() -> bool {
        true
    }

    open spec fn from_spec(v: ContextTag) -> Self {
        context_tag_code(v)
    }
}

/// Encoding the application-tag kind a byte decodes to reproduces that byte
/// exactly, for every byte value.
pub proof fn lemma_application_tag_byte_roundtrip(b: u8)
    ensures
        application_tag_code(application_tag_of(b)) == b,
{
}

/// Encoding the context-tag kind a byte decodes to reproduces that byte
/// exactly, for every byte value.
pub proof fn lemma_context_tag_byte_roundtrip(b: u8)
    ensures
        context_tag_code(context_tag_of(b)) == b,
{
}

/// An application-tag kind is canonical when its catch-all variants carry
/// only the codes that decode to them: `Reserved` one of 13 to 15, and
/// `Other` a code no named variant claims.
pub open spec fn application_tag_canonical(t: ApplicationTag) -> bool {
    match t {
        ApplicationTag::Reserved(c) => 13 <= c && c <= 15,
        ApplicationTag::Other(c) => c >= 16,
        _ => true,
    }
}

/// Decoding the byte any constructed kind encodes to reproduces an
/// equivalent kind: one with the same code always, and the kind itself
/// whenever it is canonical.
pub proof fn lemma_application_tag_kind_roundtrip(t: ApplicationTag)
    ensures
        application_tag_code(application_tag_of(application_tag_code(t))) == application_tag_code(
            t,
        ),
        application_tag_canonical(t) ==> application_tag_of(application_tag_code(t)) == t,
{
}

/// Decoding the byte a context-tag kind encodes to reproduces that kind
/// exactly: at this layer every context code is already canonical.
pub proof fn lemma_context_tag_kind_roundtrip(t: ContextTag)
    ensures
        context_tag_of(context_tag_code(t)) == t,
{
}

} // verus!
