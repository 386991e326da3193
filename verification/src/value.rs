use vstd::prelude::*;

use crate::lane::{all_lane_types_seq, LaneType, LaneTypeIterator};
use crate::reference::{all_reference_types_seq, ReferenceType, ReferenceTypeIterator};
use crate::special::{all_special_types_seq, SpecialType, SpecialTypeIterator};
use crate::text::{cased, upper};
use crate::vector::{DynamicVectorType, VectorType};

verus! {

/// A concrete SSA value type.
///
/// All SSA values have a type that is described by an instance of `ValueType`
/// or one of its subclasses.
#[derive(Clone, PartialEq, Eq, Hash, Structural)]
pub enum ValueType {
    /// A scalar lane type.
    Lane(LaneType),
    /// A reference type.
    Reference(ReferenceType),
    /// A special type.
    Special(SpecialType),
    /// A SIMD vector type.
    Vector(VectorType),
    /// A dynamically-scaled SIMD vector type.
    DynamicVector(DynamicVectorType),
}

/// The prefix of the names of types in generated Rust source files.
pub open spec fn rust_name_prefix() -> Seq<char> {
    "ir::types::"@
}

impl ValueType {
    /// Whether the type has a number: the lane count of a vector, and the
    /// minimum lane count of a dynamic vector, is positive.
    pub open spec fn has_number(self) -> bool {
        match self {
            ValueType::Vector(v) => v.spec_lane_count() > 0,
            ValueType::DynamicVector(v) => v.spec_minimum_lane_count() > 0,
            _ => true,
        }
    }

    /// The number of bits in a lane.
    pub open spec fn spec_lane_bits(self) -> u64 {
        match self {
            ValueType::Lane(l) => l.spec_lane_bits(),
            ValueType::Reference(r) => r.spec_lane_bits(),
            ValueType::Special(s) => s.spec_lane_bits(),
            ValueType::Vector(v) => v.spec_lane_type().spec_lane_bits(),
            ValueType::DynamicVector(v) => v.spec_lane_type().spec_lane_bits(),
        }
    }

    /// The number of lanes: that of a vector, 1 for every other type.
    pub open spec fn spec_lane_count(self) -> u64 {
        match self {
            ValueType::Vector(v) => v.spec_lane_count(),
            _ => 1,
        }
    }

    /// The total number of bits of an instance of this type.
    pub open spec fn spec_width(self) -> int {
        self.spec_lane_count() * self.spec_lane_bits()
    }

    /// The unique number of this type.
    pub open spec fn spec_number(self) -> u16 {
        match self {
            ValueType::Lane(l) => l.spec_number(),
            ValueType::Reference(r) => r.spec_number(),
            ValueType::Special(s) => s.spec_number(),
            ValueType::Vector(v) => v.spec_number(),
            ValueType::DynamicVector(v) => v.spec_number(),
        }
    }

    /// The name of this type, such as `i32x4`.
    pub open spec fn spec_name(self) -> Seq<char> {
        match self {
            ValueType::Lane(l) => l.spec_name(),
            ValueType::Reference(r) => r.spec_name(),
            ValueType::Special(s) => s.spec_name(),
            ValueType::Vector(v) => v.spec_name(),
            ValueType::DynamicVector(v) => v.spec_name(),
        }
    }

    /// The documentation comment of this type.
    pub open spec fn spec_doc(self) -> Seq<char> {
        match self {
            ValueType::Lane(l) => l.spec_doc(),
            ValueType::Reference(r) => r.spec_doc(),
            ValueType::Special(s) => s.spec_doc(),
            ValueType::Vector(v) => v.spec_doc(),
            ValueType::DynamicVector(v) => v.spec_doc(),
        }
    }

    /// The debugging form, such as `Lane(IntType(bits=32))`.
    pub open spec fn spec_debug(self) -> Seq<char> {
        match self {
            ValueType::Lane(l) => "Lane("@ + l.spec_debug() + ")"@,
            ValueType::Reference(r) => "Reference("@ + r.spec_debug() + ")"@,
            ValueType::Special(s) => "Special("@ + s.spec_debug() + ")"@,
            ValueType::Vector(v) => "Vector("@ + v.spec_debug() + ")"@,
            ValueType::DynamicVector(v) => "DynamicVector("@ + v.spec_debug() + ")"@,
        }
    }

    /// The name of this type in generated Rust source files, such as `ir::types::I32X4`.
    pub open spec fn spec_rust_name(self) -> Seq<char> {
        rust_name_prefix() + upper(self.spec_name())
    }

    /// Iterate through all of the lane types.
    pub fn all_lane_types() -> (it: LaneTypeIterator)
        ensures
            it.remaining() == all_lane_types_seq(),
    {
        LaneTypeIterator::new()
    }

    /// Iterate through all of the special types (neither lanes nor vectors).
    pub fn all_special_types() -> (it: SpecialTypeIterator)
        ensures
            it.remaining() == all_special_types_seq(),
    {
        SpecialTypeIterator::new()
    }

    /// Iterate through all of the reference types.
    pub fn all_reference_types() -> (it: ReferenceTypeIterator)
        ensures
            it.remaining() == all_reference_types_seq(),
    {
        ReferenceTypeIterator::new()
    }

    /// Return a string containing the documentation comment for this type.
    pub fn doc(&self) -> (r: String)
        ensures
            r@ == self.spec_doc(),
    {
        match self {
            ValueType::Lane(l) => l.doc(),
            ValueType::Reference(r) => r.doc(),
            ValueType::Special(s) => s.doc(),
            ValueType::Vector(v) => v.doc(),
            ValueType::DynamicVector(v) => v.doc(),
        }
    }

    /// Return the number of bits in a lane.
    pub fn lane_bits(&self) -> (r: u64)
        ensures
            r == self.spec_lane_bits(),
    {
        match self {
            ValueType::Lane(l) => l.lane_bits(),
            ValueType::Reference(r) => r.lane_bits(),
            ValueType::Special(s) => s.lane_bits(),
            ValueType::Vector(v) => v.lane_bits(),
            ValueType::DynamicVector(v) => v.lane_bits(),
        }
    }

    /// Return the number of lanes.
    pub fn lane_count(&self) -> (r: u64)
        ensures
            r == self.spec_lane_count(),
    {
        match self {
            ValueType::Vector(v) => v.lane_count(),
            _ => 1,
        }
    }

    /// Find the number of bytes that this type occupies in memory.
    /// The width in bits must fit in 64 bits.
    pub fn membytes(&self) -> (r: u64)
        requires
            self.spec_width() <= u64::MAX,
        ensures
            r == self.spec_width() / 8,
            r == (self.spec_lane_count() * self.spec_lane_bits()) / 8,
    {
        self.width() / 8
    }

    /// Find the unique number associated with this type.
    pub fn number(&self) -> (r: u16)
        requires
            self.has_number(),
        ensures
            r == self.spec_number(),
    {
        match self {
            ValueType::Lane(l) => l.number(),
            ValueType::Reference(r) => r.number(),
            ValueType::Special(s) => s.number(),
            ValueType::Vector(v) => v.number(),
            ValueType::DynamicVector(v) => v.number(),
        }
    }

    /// Return the name of this type for generated Rust source files.
    pub fn rust_name(&self) -> (r: String)
        ensures
            r@ == self.spec_rust_name(),
    {
        let mut s = String::from_str("ir::types::");
        self.push_name(&mut s, true);
        s
    }

    /// Return the total number of bits of an instance of this type.
    /// The width must fit in 64 bits.
    pub fn width(&self) -> (r: u64)
        requires
            self.spec_width() <= u64::MAX,
        ensures
            r == self.spec_width(),
            r == self.spec_lane_count() * self.spec_lane_bits(),
    {
        self.lane_count() * self.lane_bits()
    }

    /// Append the name of this type to `s`, upper case when `up` holds.
    pub(crate) fn push_name(&self, s: &mut String, up: bool)
        ensures
            final(s)@ == old(s)@ + cased(self.spec_name(), up),
    {
        match self {
            ValueType::Lane(l) => l.push_name(s, up),
            ValueType::Reference(r) => r.push_name(s, up),
            ValueType::Special(t) => t.push_name(s, up),
            ValueType::Vector(v) => v.push_name(s, up),
            ValueType::DynamicVector(v) => v.push_name(s, up),
        }
    }

    /// The name of this type, such as `i32x4`.
    pub fn to_string(&self) -> (r: String)
        ensures
            r@ == self.spec_name(),
    {
        let mut s = String::new();
        self.push_name(&mut s, false);
        s
    }

    /// The debugging form, such as `Lane(IntType(bits=32))`.
    pub fn debug_string(&self) -> (r: String)
        ensures
            r@ == self.spec_debug(),
    {
        match self {
            ValueType::Lane(l) => String::from_str("Lane(").concat(l.debug_string().as_str()).concat(")"),
            ValueType::Reference(r) => String::from_str("Reference(").concat(r.debug_string().as_str()).concat(")"),
            ValueType::Special(t) => String::from_str("Special(").concat(t.debug_string().as_str()).concat(")"),
            ValueType::Vector(v) => String::from_str("Vector(").concat(v.debug_string().as_str()).concat(")"),
            ValueType::DynamicVector(v) => String::from_str("DynamicVector(").concat(v.debug_string().as_str()).concat(")"),
        }
    }
}

/// Create a ValueType from a given lane type.
impl From<LaneType> for ValueType {
    fn from(lane: LaneType) -> (r: Self) {
        ValueType::Lane(lane)
    }
}

impl vstd::std_specs::convert::FromSpecImpl<LaneType> for ValueType {
    open spec fn obeys_from_spec() -> bool {
        true
    }

    open spec fn from_spec(lane: LaneType) -> Self {
        ValueType::Lane(lane)
    }
}

/// Create a ValueType from a given reference type.
impl From<ReferenceType> for ValueType {
    fn from(reference: ReferenceType) -> (r: Self) {
        ValueType::Reference(reference)
    }
}

impl vstd::std_specs::convert::FromSpecImpl<ReferenceType> for ValueType {
    open spec fn obeys_from_spec() -> bool {
        true
    }

    open spec fn from_spec(reference: ReferenceType) -> Self {
        ValueType::Reference(reference)
    }
}

/// Create a ValueType from a given special type.
impl From<SpecialType> for ValueType {
    fn from(spec: SpecialType) -> (r: Self) {
        ValueType::Special(spec)
    }
}

impl vstd::std_specs::convert::FromSpecImpl<SpecialType> for ValueType {
    open spec fn obeys_from_spec() -> bool {
        true
    }

    open spec fn from_spec(spec: SpecialType) -> Self {
        ValueType::Special(spec)
    }
}

/// Create a ValueType from a given vector type.
impl From<VectorType> for ValueType {
    fn from(vector: VectorType) -> (r: Self) {
        ValueType::Vector(vector)
    }
}

impl vstd::std_specs::convert::FromSpecImpl<VectorType> for ValueType {
    open spec fn obeys_from_spec() -> bool {
        true
    }

    open spec fn from_spec(vector: VectorType) -> Self {
        ValueType::Vector(vector)
    }
}

/// Create a ValueType from a given dynamic vector type.
impl From<DynamicVectorType> for ValueType {
    fn from(vector: DynamicVectorType) -> (r: Self) {
        ValueType::DynamicVector(vector)
    }
}

impl vstd::std_specs::convert::FromSpecImpl<DynamicVectorType> for ValueType {
    open spec fn obeys_from_spec() -> bool {
        true
    }

    open spec fn from_spec(vector: DynamicVectorType) -> Self {
        ValueType::DynamicVector(vector)
    }
}

} // verus!
