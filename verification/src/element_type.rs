//! The element-type registry: the closed set of scalar kinds a tensor can
//! carry, each with its native integer tag and, for all but the string kind,
//! a fixed byte width.
//!
//! Tags coming from untrusted sources (model metadata, dynamic negotiation)
//! are validated by [`convert_to_onnx_el_type`]; width lookups through
//! [`get_type_size`] fail explicitly instead of panicking.

use vstd::prelude::*;

use crate::error::RunError;

verus! {

/// The scalar data kind of a tensor's entries, in native tag order.
#[derive(Clone, Copy, Debug, PartialEq, Eq, Structural)]
pub enum ElementType {
    Undefined,
    Float32,
    Uint8,
    Int8,
    Uint16,
    Int16,
    Int32,
    Int64,
    Str,
    Bool,
    Float16,
    Float64,
    Uint32,
    Uint64,
    Complex64,
    Complex128,
    Bfloat16,
}

impl ElementType {
    /// The native integer tag of this kind.
    pub open spec fn tag_spec(self) -> int {
        match self {
            ElementType::Undefined => 0,
            ElementType::Float32 => 1,
            ElementType::Uint8 => 2,
            ElementType::Int8 => 3,
            ElementType::Uint16 => 4,
            ElementType::Int16 => 5,
            ElementType::Int32 => 6,
            ElementType::Int64 => 7,
            ElementType::Str => 8,
            ElementType::Bool => 9,
            ElementType::Float16 => 10,
            ElementType::Float64 => 11,
            ElementType::Uint32 => 12,
            ElementType::Uint64 => 13,
            ElementType::Complex64 => 14,
            ElementType::Complex128 => 15,
            ElementType::Bfloat16 => 16,
        }
    }

    /// The byte width of one element; 0 for the two kinds without one
    /// (strings have no fixed width, the undefined kind has no elements).
    pub open spec fn width_spec(self) -> int {
        match self {
            ElementType::Undefined => 0,
            ElementType::Float32 => 4,
            ElementType::Uint8 => 1,
            ElementType::Int8 => 1,
            ElementType::Uint16 => 2,
            ElementType::Int16 => 2,
            ElementType::Int32 => 4,
            ElementType::Int64 => 8,
            ElementType::Str => 0,
            ElementType::Bool => 1,
            ElementType::Float16 => 2,
            ElementType::Float64 => 8,
            ElementType::Uint32 => 4,
            ElementType::Uint64 => 8,
            ElementType::Complex64 => 8,
            ElementType::Complex128 => 16,
            ElementType::Bfloat16 => 2,
        }
    }

    /// Whether a byte layout can be derived from this kind at all: true of
    /// every kind except the string kind.
    pub open spec fn fixed_width(self) -> bool {
        self != ElementType::Str
    }

    /// The native integer tag of this kind, for handing to the engine.
    pub fn tag_of(self) -> (tag: i32)
        ensures
            tag == self.tag_spec(),
    {
        match self {
            ElementType::Undefined => 0,
            ElementType::Float32 => 1,
            ElementType::Uint8 => 2,
            ElementType::Int8 => 3,
            ElementType::Uint16 => 4,
            ElementType::Int16 => 5,
            ElementType::Int32 => 6,
            ElementType::Int64 => 7,
            ElementType::Str => 8,
            ElementType::Bool => 9,
            ElementType::Float16 => 10,
            ElementType::Float64 => 11,
            ElementType::Uint32 => 12,
            ElementType::Uint64 => 13,
            ElementType::Complex64 => 14,
            ElementType::Complex128 => 15,
            ElementType::Bfloat16 => 16,
        }
    }
}

/// The kind a native tag denotes, or `None` for a tag outside the
/// enumeration.
pub open spec fn from_tag_spec(tag: int) -> Option<ElementType> {
    if tag == 0 {
        Some(ElementType::Undefined)
    } else if tag == 1 {
        Some(ElementType::Float32)
    } else if tag == 2 {
        Some(ElementType::Uint8)
    } else if tag == 3 {
        Some(ElementType::Int8)
    } else if tag == 4 {
        Some(ElementType::Uint16)
    } else if tag == 5 {
        Some(ElementType::Int16)
    } else if tag == 6 {
        Some(ElementType::Int32)
    } else if tag == 7 {
        Some(ElementType::Int64)
    } else if tag == 8 {
        Some(ElementType::Str)
    } else if tag == 9 {
        Some(ElementType::Bool)
    } else if tag == 10 {
        Some(ElementType::Float16)
    } else if tag == 11 {
        Some(ElementType::Float64)
    } else if tag == 12 {
        Some(ElementType::Uint32)
    } else if tag == 13 {
        Some(ElementType::Uint64)
    } else if tag == 14 {
        Some(ElementType::Complex64)
    } else if tag == 15 {
        Some(ElementType::Complex128)
    } else if tag == 16 {
        Some(ElementType::Bfloat16)
    } else {
        None
    }
}

/// Validates an untrusted integer tag and returns the element kind it
/// denotes; fails with `UnknownTypeTag` on anything outside the enumeration.
pub fn convert_to_onnx_el_type(tag: i32) -> (r: Result<ElementType, RunError>)
    ensures
        0 <= tag <= 16 ==> (r matches Ok(e) && from_tag_spec(tag as int) == Some(e)),
        !(0 <= tag <= 16) ==> (r matches Err(RunError::UnknownTypeTag { tag: t }) && t == tag),
{
    match tag {
        0 => Ok(ElementType::Undefined),
        1 => Ok(ElementType::Float32),
        2 => Ok(ElementType::Uint8),
        3 => Ok(ElementType::Int8),
        4 => Ok(ElementType::Uint16),
        5 => Ok(ElementType::Int16),
        6 => Ok(ElementType::Int32),
        7 => Ok(ElementType::Int64),
        8 => Ok(ElementType::Str),
        9 => Ok(ElementType::Bool),
        10 => Ok(ElementType::Float16),
        11 => Ok(ElementType::Float64),
        12 => Ok(ElementType::Uint32),
        13 => Ok(ElementType::Uint64),
        14 => Ok(ElementType::Complex64),
        15 => Ok(ElementType::Complex128),
        16 => Ok(ElementType::Bfloat16),
        _ => Err(RunError::UnknownTypeTag { tag }),
    }
}

/// The byte width of one element of the given kind; fails with
/// `UnsupportedType` for the string kind, which has no fixed width.
pub fn get_type_size(t: ElementType) -> (r: Result<usize, RunError>)
    ensures
        t.fixed_width() ==> (r matches Ok(w) && w == t.width_spec()),
        !t.fixed_width() ==> r matches Err(RunError::UnsupportedType),
{
    match t {
        ElementType::Undefined => Ok(0),
        ElementType::Float32 => Ok(4),
        ElementType::Uint8 => Ok(1),
        ElementType::Int8 => Ok(1),
        ElementType::Uint16 => Ok(2),
        ElementType::Int16 => Ok(2),
        ElementType::Int32 => Ok(4),
        ElementType::Int64 => Ok(8),
        ElementType::Str => Err(RunError::UnsupportedType),
        ElementType::Bool => Ok(1),
        ElementType::Float16 => Ok(2),
        ElementType::Float64 => Ok(8),
        ElementType::Uint32 => Ok(4),
        ElementType::Uint64 => Ok(8),
        ElementType::Complex64 => Ok(8),
        ElementType::Complex128 => Ok(16),
        ElementType::Bfloat16 => Ok(2),
    }
}

/// Law: the tag of a kind leads back to that kind, for every kind in the
/// enumeration.
pub proof fn lemma_from_tag_round_trip(e: ElementType)
    ensures
        from_tag_spec(e.tag_spec()) == Some(e),
{
}

/// Law: every tag in the defined range denotes a kind, and that kind's own
/// tag is the one it came from.
pub proof fn lemma_tag_of_from_tag(tag: int)
    requires
        0 <= tag <= 16,
    ensures
        from_tag_spec(tag) matches Some(e) && e.tag_spec() == tag,
{
}

/// Law: every kind with elements and a fixed width has width at least one
/// byte; only the undefined kind and the string kind fall outside.
pub proof fn lemma_defined_width_positive(e: ElementType)
    ensures
        e.fixed_width() && e != ElementType::Undefined ==> e.width_spec() >= 1,
{
}

} // verus!
