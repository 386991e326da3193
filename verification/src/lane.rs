use vstd::prelude::*;

use crate::constants::LANE_BASE;
use crate::shared::{all_floats, all_ints, Float, FloatIterator, Int, IntIterator};
use crate::text::{ascii_upper, cased, decimal, lemma_upper_letter_decimal, push_decimal};
use crate::value::ValueType;
use crate::vector::{DynamicVectorType, VectorType};

verus! {

/// A concrete scalar type that can appear as a vector lane too.
#[derive(Clone, Copy, PartialEq, Eq, Hash, Structural)]
pub enum LaneType {
    /// A floating-point lane.
    Float(Float),
    /// An integer lane.
    Int(Int),
}

/// Every lane type, in the order that `ValueType::all_lane_types` yields them:
/// the integers from the narrowest to the widest, then the floats.
pub open spec fn all_lane_types_seq() -> Seq<LaneType> {
    all_ints().map_values(|i: Int| LaneType::Int(i)) + all_floats().map_values(
        |f: Float| LaneType::Float(f),
    )
}

impl LaneType {
    /// The number of bits in a lane of this type.
    pub open spec fn spec_lane_bits(self) -> u64 {
        match self {
            LaneType::Float(f) => f.spec_bits(),
            LaneType::Int(i) => i.spec_bits(),
        }
    }

    /// The unique number of this lane type.
    pub open spec fn spec_number(self) -> u16 {
        match self {
            LaneType::Int(Int::I8) => (LANE_BASE + 6) as u16,
            LaneType::Int(Int::I16) => (LANE_BASE + 7) as u16,
            LaneType::Int(Int::I32) => (LANE_BASE + 8) as u16,
            LaneType::Int(Int::I64) => (LANE_BASE + 9) as u16,
            LaneType::Int(Int::I128) => (LANE_BASE + 10) as u16,
            LaneType::Float(Float::F32) => (LANE_BASE + 11) as u16,
            LaneType::Float(Float::F64) => (LANE_BASE + 12) as u16,
        }
    }

    /// The letter that starts the name: `f` for floats, `i` for integers.
    pub open spec fn spec_letter(self) -> char {
        match self {
            LaneType::Float(_) => 'f',
            LaneType::Int(_) => 'i',
        }
    }

    /// The name of this lane type, such as `i32` or `f64`.
    pub open spec fn spec_name(self) -> Seq<char> {
        seq![self.spec_letter()] + decimal(self.spec_lane_bits() as nat)
    }

    /// The debugging form, such as `IntType(bits=32)`.
    pub open spec fn spec_debug(self) -> Seq<char> {
        match self {
            LaneType::Float(_) => "FloatType(bits="@ + decimal(self.spec_lane_bits() as nat)
                + ")"@,
            LaneType::Int(_) => "IntType(bits="@ + decimal(self.spec_lane_bits() as nat) + ")"@,
        }
    }

    /// The documentation comment of this lane type.
    pub open spec fn spec_doc(self) -> Seq<char> {
        match self {
            LaneType::Float(Float::F32) => "A 32-bit floating point type represented in the IEEE 754-2008\n                *binary32* interchange format. This corresponds to the :c:type:`float`\n                type in most C implementations."@,
            LaneType::Float(Float::F64) => "A 64-bit floating point type represented in the IEEE 754-2008\n                *binary64* interchange format. This corresponds to the :c:type:`double`\n                type in most C implementations."@,
            LaneType::Int(_) => if self.spec_lane_bits() < 32 {
                "An integer type with "@ + decimal(self.spec_lane_bits() as nat)
                    + " bits.\n                WARNING: arithmetic on "@ + decimal(
                    self.spec_lane_bits() as nat,
                ) + "bit integers is incomplete"@
            } else {
                "An integer type with "@ + decimal(self.spec_lane_bits() as nat) + " bits."@
            },
        }
    }

    /// Return a string containing the documentation comment for this lane type.
    pub fn doc(self) -> (r: String)
        ensures
            r@ == self.spec_doc(),
    {
        match self {
            LaneType::Float(Float::F32) => String::from_str(
                "A 32-bit floating point type represented in the IEEE 754-2008\n                *binary32* interchange format. This corresponds to the :c:type:`float`\n                type in most C implementations.",
            ),
            LaneType::Float(Float::F64) => String::from_str(
                "A 64-bit floating point type represented in the IEEE 754-2008\n                *binary64* interchange format. This corresponds to the :c:type:`double`\n                type in most C implementations.",
            ),
            LaneType::Int(_) => {
                let bits = self.lane_bits();
                let mut s = String::new();
                s.append("An integer type with ");
                push_decimal(&mut s, bits);
                if bits < 32 {
                    s.append(" bits.\n                WARNING: arithmetic on ");
                    push_decimal(&mut s, bits);
                    s.append("bit integers is incomplete");
                } else {
                    s.append(" bits.");
                }
                s
            },
        }
    }

    /// Return the number of bits in a lane.
    pub fn lane_bits(self) -> (r: u64)
        ensures
            r == self.spec_lane_bits(),
    {
        match self {
            LaneType::Float(ref f) => f.bits(),
            LaneType::Int(ref i) => i.bits(),
        }
    }

    /// Find the unique number associated with this lane type.
    pub fn number(self) -> (r: u16)
        ensures
            r == self.spec_number(),
    {
        LANE_BASE + match self {
            LaneType::Int(Int::I8) => 6,
            LaneType::Int(Int::I16) => 7,
            LaneType::Int(Int::I32) => 8,
            LaneType::Int(Int::I64) => 9,
            LaneType::Int(Int::I128) => 10,
            LaneType::Float(Float::F32) => 11,
            LaneType::Float(Float::F64) => 12,
        }
    }

    /// Whether `num_bits` is the width of an integer lane type.
    pub open spec fn is_int_width(num_bits: u16) -> bool {
        num_bits == 8 || num_bits == 16 || num_bits == 32 || num_bits == 64 || num_bits == 128
    }

    /// Whether `num_bits` is the width of a float lane type.
    pub open spec fn is_float_width(num_bits: u16) -> bool {
        num_bits == 32 || num_bits == 64
    }

    /// The integer lane type of a given width.
    pub open spec fn spec_int_from_bits(num_bits: u16) -> LaneType {
        LaneType::Int(
            if num_bits == 8 {
                Int::I8
            } else if num_bits == 16 {
                Int::I16
            } else if num_bits == 32 {
                Int::I32
            } else if num_bits == 64 {
                Int::I64
            } else {
                Int::I128
            },
        )
    }

    /// The float lane type of a given width.
    pub open spec fn spec_float_from_bits(num_bits: u16) -> LaneType {
        LaneType::Float(
            if num_bits == 32 {
                Float::F32
            } else {
                Float::F64
            },
        )
    }

    /// The integer lane type with `num_bits` bits; the width must be one of
    /// 8, 16, 32, 64 and 128.
    pub fn int_from_bits(num_bits: u16) -> (r: LaneType)
        requires
            Self::is_int_width(num_bits),
        ensures
            r == Self::spec_int_from_bits(num_bits),
            r is Int,
            r.spec_lane_bits() == num_bits,
    {
        LaneType::Int(
            match num_bits {
                8 => Int::I8,
                16 => Int::I16,
                32 => Int::I32,
                64 => Int::I64,
                _ => Int::I128,
            },
        )
    }

    /// The float lane type with `num_bits` bits; the width must be 32 or 64.
    pub fn float_from_bits(num_bits: u16) -> (r: LaneType)
        requires
            Self::is_float_width(num_bits),
        ensures
            r == Self::spec_float_from_bits(num_bits),
            r is Float,
            r.spec_lane_bits() == num_bits,
    {
        LaneType::Float(
            match num_bits {
                32 => Float::F32,
                _ => Float::F64,
            },
        )
    }

    /// The type of `lanes` lanes of this type: the lane type itself for one
    /// lane, a vector type otherwise.
    pub fn by_lanes(self, lanes: u16) -> (r: ValueType)
        ensures
            r.spec_lane_count() == lanes,
            r.spec_lane_bits() == self.spec_lane_bits(),
            lanes == 1 ==> r == ValueType::Lane(self),
            lanes != 1 ==> (r matches ValueType::Vector(v) && v.spec_lane_type() == self
                && v.spec_lane_count() == lanes),
    {
        if lanes == 1 {
            ValueType::from(self)
        } else {
            ValueType::Vector(VectorType::new(self, u64::from(lanes)))
        }
    }

    /// The dynamic vector type with a minimum of `lanes` lanes of this type.
    pub fn to_dynamic(self, lanes: u16) -> (r: ValueType)
        ensures
            r.spec_lane_bits() == self.spec_lane_bits(),
            r matches ValueType::DynamicVector(v) && v.spec_lane_type() == self
                && v.spec_minimum_lane_count() == lanes,
    {
        ValueType::DynamicVector(DynamicVectorType::new(self, u64::from(lanes)))
    }

    /// Append the name of this lane type to `s`, upper case when `up` holds.
    pub(crate) fn push_name(self, s: &mut String, up: bool)
        ensures
            final(s)@ == old(s)@ + cased(self.spec_name(), up),
    {
        let ghost start = s@;
        match self {
            LaneType::Float(_) => {
                if up {
                    proof { reveal_strlit("F"); }
                    s.append("F");
                } else {
                    proof { reveal_strlit("f"); }
                    s.append("f");
                }
            },
            LaneType::Int(_) => {
                if up {
                    proof { reveal_strlit("I"); }
                    s.append("I");
                } else {
                    proof { reveal_strlit("i"); }
                    s.append("i");
                }
            },
        }
        push_decimal(s, self.lane_bits());
        proof {
            lemma_upper_letter_decimal(self.spec_letter(), self.spec_lane_bits() as nat);
            assert(ascii_upper('f') == 'F');
            assert(ascii_upper('i') == 'I');
            assert(s@ =~= start + cased(self.spec_name(), up));
        }
    }

    /// The name of this lane type, such as `i32`.
    pub fn to_string(self) -> (r: String)
        ensures
            r@ == self.spec_name(),
    {
        let mut s = String::new();
        self.push_name(&mut s, false);
        s
    }

    /// The debugging form of this lane type, such as `IntType(bits=32)`.
    pub fn debug_string(self) -> (r: String)
        ensures
            r@ == self.spec_debug(),
    {
        let mut s = String::new();
        match self {
            LaneType::Float(_) => s.append("FloatType(bits="),
            LaneType::Int(_) => s.append("IntType(bits="),
        }
        push_decimal(&mut s, self.lane_bits());
        s.append(")");
        s
    }
}

/// Create a LaneType from a given float variant.
impl From<Float> for LaneType {
    fn from(f: Float) -> (r: Self) {
        LaneType::Float(f)
    }
}

impl vstd::std_specs::convert::FromSpecImpl<Float> for LaneType {
    open spec fn obeys_from_spec() -> bool {
        true
    }

    open spec fn from_spec(f: Float) -> Self {
        LaneType::Float(f)
    }
}

/// Create a LaneType from a given int variant.
impl From<Int> for LaneType {
    fn from(i: Int) -> (r: Self) {
        LaneType::Int(i)
    }
}

impl vstd::std_specs::convert::FromSpecImpl<Int> for LaneType {
    open spec fn obeys_from_spec() -> bool {
        true
    }

    open spec fn from_spec(i: Int) -> Self {
        LaneType::Int(i)
    }
}

/// An iterator over the lane types: the integers, then the floats.
pub struct LaneTypeIterator {
    int_iter: IntIterator,
    float_iter: FloatIterator,
}

impl LaneTypeIterator {
    /// The lane types this iterator has still to yield, in order.
    pub closed spec fn remaining(&self) -> Seq<LaneType> {
        self.int_iter.remaining().map_values(|i: Int| LaneType::Int(i))
            + self.float_iter.remaining().map_values(|f: Float| LaneType::Float(f))
    }

    /// Create a new lane type iterator.
    pub fn new() -> (it: Self)
        ensures
            it.remaining() == all_lane_types_seq(),
    {
        Self { int_iter: IntIterator::new(), float_iter: FloatIterator::new() }
    }

    /// Yield the next lane type, or `None` once all were yielded.
    pub fn next(&mut self) -> (r: Option<LaneType>)
        ensures
            old(self).remaining().len() == 0 ==> r.is_none() && final(self).remaining() == old(
                self,
            ).remaining(),
            old(self).remaining().len() > 0 ==> r == Some(old(self).remaining()[0])
                && final(self).remaining() == old(self).remaining().drop_first(),
    {
        if let Some(i) = self.int_iter.next() {
            let r = LaneType::from(i);
            assert(self.remaining() =~= old(self).remaining().drop_first());
            Some(r)
        } else if let Some(f) = self.float_iter.next() {
            let r = LaneType::from(f);
            assert(self.remaining() =~= old(self).remaining().drop_first());
            Some(r)
        } else {
            assert(self.remaining() =~= old(self).remaining());
            None
        }
    }
}

} // verus!
