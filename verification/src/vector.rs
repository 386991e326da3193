use vstd::prelude::*;

use crate::arith::{lemma_leading_zeros_log2, log2};
use crate::lane::LaneType;
use crate::text::{cased, decimal, lemma_cased_concat, lemma_cased_decimal, push_decimal};

verus! {

/// A concrete SIMD vector type.
///
/// A vector type has a lane type which is an instance of `LaneType`,
/// and a positive number of lanes.
#[derive(Clone, PartialEq, Eq, Hash, Structural)]
pub struct VectorType {
    base: LaneType,
    lanes: u64,
}

/// A concrete dynamic SIMD vector type.
///
/// A vector type has a lane type which is an instance of `LaneType`,
/// and a positive number of lanes.
#[derive(Clone, PartialEq, Eq, Hash, Structural)]
pub struct DynamicVectorType {
    base: LaneType,
    unscaled_lanes: u64,
}

/// The number encoding `2^log2_lanes` lanes of a lane type numbered `base`:
/// the lane type in the low 4 bits, the logarithm of the lane count above.
pub open spec fn lanes_number(log2_lanes: nat, base: u16) -> int {
    log2_lanes * 16 + base
}

/// `x << 4` is `x * 16` for a logarithm of a 64-bit count.
proof fn lemma_shl4(x: u32)
    requires
        x <= 63,
    ensures
        x << 4 == x * 16,
{
    assert(x <= 63 ==> x << 4 == x * 16) by (bit_vector);
}

/// The logarithm of a positive 64-bit count, as `63 - leading_zeros`.
fn lanes_log2(lanes: u64) -> (r: u32)
    requires
        lanes > 0,
    ensures
        r == log2(lanes as nat),
        r <= 63,
{
    proof {
        lemma_leading_zeros_log2(lanes);
        vstd::std_specs::bits::axiom_u64_leading_zeros(lanes);
    }
    63 - lanes.leading_zeros()
}

impl VectorType {
    /// The lane type.
    pub closed spec fn spec_lane_type(self) -> LaneType {
        self.base
    }

    /// The number of lanes.
    pub closed spec fn spec_lane_count(self) -> u64 {
        self.lanes
    }

    /// Two vector types with the same lane type and lane count are equal.
    pub proof fn lemma_ext(a: Self, b: Self)
        requires
            a.spec_lane_type() == b.spec_lane_type(),
            a.spec_lane_count() == b.spec_lane_count(),
        ensures
            a == b,
    {
    }

    /// The unique number of this vector type (for a positive lane count).
    pub open spec fn spec_number(self) -> u16 {
        lanes_number(log2(self.spec_lane_count() as nat), self.spec_lane_type().spec_number()) as u16
    }

    /// The name, such as `i32x4`.
    pub open spec fn spec_name(self) -> Seq<char> {
        self.spec_lane_type().spec_name() + seq!['x'] + decimal(self.spec_lane_count() as nat)
    }

    /// The documentation comment.
    pub open spec fn spec_doc(self) -> Seq<char> {
        "A SIMD vector with "@ + decimal(self.spec_lane_count() as nat)
            + " lanes containing a `"@ + self.spec_lane_type().spec_name() + "` each."@
    }

    /// The debugging form, such as `VectorType(base=i32, lanes=4)`.
    pub open spec fn spec_debug(self) -> Seq<char> {
        "VectorType(base="@ + self.spec_lane_type().spec_name() + ", lanes="@ + decimal(
            self.spec_lane_count() as nat,
        ) + ")"@
    }

    /// Initialize a new vector type with `lanes` lanes of type `base`.
    pub fn new(base: LaneType, lanes: u64) -> (r: Self)
        ensures
            r.spec_lane_type() == base,
            r.spec_lane_count() == lanes,
    {
        Self { base, lanes }
    }

    /// Return a string containing the documentation comment for this vector type.
    pub fn doc(&self) -> (r: String)
        ensures
            r@ == self.spec_doc(),
    {
        let mut s = String::new();
        s.append("A SIMD vector with ");
        push_decimal(&mut s, self.lane_count());
        s.append(" lanes containing a `");
        self.base.push_name(&mut s, false);
        s.append("` each.");
        s
    }

    /// Return the number of bits in a lane.
    pub fn lane_bits(&self) -> (r: u64)
        ensures
            r == self.spec_lane_type().spec_lane_bits(),
    {
        self.base.lane_bits()
    }

    /// Return the number of lanes.
    pub fn lane_count(&self) -> (r: u64)
        ensures
            r == self.spec_lane_count(),
    {
        self.lanes
    }

    /// Return the lane type.
    pub fn lane_type(&self) -> (r: LaneType)
        ensures
            r == self.spec_lane_type(),
    {
        self.base
    }

    /// Find the unique number associated with this vector type.
    ///
    /// Vector types are encoded with the lane type in the low 4 bits and
    /// log2(lanes) in the high 4 bits, giving a range of 2-256 lanes.
    /// The lane count must be positive.
    pub fn number(&self) -> (r: u16)
        requires
            self.spec_lane_count() > 0,
        ensures
            r == self.spec_number(),
            r == lanes_number(log2(self.spec_lane_count() as nat), self.spec_lane_type().spec_number()),
    {
        let lanes_log_2: u32 = lanes_log2(self.lane_count());
        let base_num = u32::from(self.base.number());
        proof {
            lemma_shl4(lanes_log_2);
        }
        let num = (lanes_log_2 << 4) + base_num;
        num as u16
    }

    /// Append the name of this vector type to `s`, upper case when `up` holds.
    pub(crate) fn push_name(&self, s: &mut String, up: bool)
        ensures
            final(s)@ == old(s)@ + cased(self.spec_name(), up),
    {
        let ghost start = s@;
        self.base.push_name(s, up);
        if up {
            proof { reveal_strlit("X"); }
            s.append("X");
        } else {
            proof { reveal_strlit("x"); }
            s.append("x");
        }
        push_decimal(s, self.lanes);
        proof {
            let a = self.base.spec_name();
            let d = decimal(self.lanes as nat);
            lemma_cased_concat(a + seq!['x'], d, up);
            lemma_cased_concat(a, seq!['x'], up);
            lemma_cased_decimal(self.lanes as nat, up);
            assert(cased(seq!['x'], up) =~= (if up { seq!['X'] } else { seq!['x'] }));
            assert(s@ =~= start + cased(self.spec_name(), up));
        }
    }

    /// The name of this vector type, such as `i32x4`.
    pub fn to_string(&self) -> (r: String)
        ensures
            r@ == self.spec_name(),
    {
        let mut s = String::new();
        self.push_name(&mut s, false);
        s
    }

    /// The debugging form, such as `VectorType(base=i32, lanes=4)`.
    pub fn debug_string(&self) -> (r: String)
        ensures
            r@ == self.spec_debug(),
    {
        let mut s = String::new();
        s.append("VectorType(base=");
        self.base.push_name(&mut s, false);
        s.append(", lanes=");
        push_decimal(&mut s, self.lanes);
        s.append(")");
        s
    }
}

impl DynamicVectorType {
    /// The lane type.
    pub closed spec fn spec_lane_type(self) -> LaneType {
        self.base
    }

    /// The minimum number of lanes.
    pub closed spec fn spec_minimum_lane_count(self) -> u64 {
        self.unscaled_lanes
    }

    /// Two dynamic vector types with the same lane type and minimum lane count are equal.
    pub proof fn lemma_ext(a: Self, b: Self)
        requires
            a.spec_lane_type() == b.spec_lane_type(),
            a.spec_minimum_lane_count() == b.spec_minimum_lane_count(),
        ensures
            a == b,
    {
    }

    /// The unique number of this dynamic vector type (for a positive lane count).
    pub open spec fn spec_number(self) -> u16 {
        (0x80 + lanes_number(
            log2(self.spec_minimum_lane_count() as nat),
            self.spec_lane_type().spec_number(),
        )) as u16
    }

    /// The name, such as `i32x4xN`.
    pub open spec fn spec_name(self) -> Seq<char> {
        self.spec_lane_type().spec_name() + seq!['x'] + decimal(
            self.spec_minimum_lane_count() as nat,
        ) + seq!['x', 'N']
    }

    /// The documentation comment.
    pub open spec fn spec_doc(self) -> Seq<char> {
        "A dynamically-scaled SIMD vector with a minimum of "@ + decimal(
            self.spec_minimum_lane_count() as nat,
        ) + " lanes containing `"@ + self.spec_lane_type().spec_name() + "` bits each."@
    }

    /// The debugging form, such as `DynamicVectorType(base=i32, lanes=4)`.
    pub open spec fn spec_debug(self) -> Seq<char> {
        "DynamicVectorType(base="@ + self.spec_lane_type().spec_name() + ", lanes="@ + decimal(
            self.spec_minimum_lane_count() as nat,
        ) + ")"@
    }

    /// Initialize a new type with `base` lane type and a minimum number of lanes.
    pub fn new(base: LaneType, unscaled_lanes: u64) -> (r: Self)
        ensures
            r.spec_lane_type() == base,
            r.spec_minimum_lane_count() == unscaled_lanes,
    {
        Self { base, unscaled_lanes }
    }

    /// Return a string containing the documentation comment for this vector type.
    pub fn doc(&self) -> (r: String)
        ensures
            r@ == self.spec_doc(),
    {
        let mut s = String::new();
        s.append("A dynamically-scaled SIMD vector with a minimum of ");
        push_decimal(&mut s, self.unscaled_lanes);
        s.append(" lanes containing `");
        self.base.push_name(&mut s, false);
        s.append("` bits each.");
        s
    }

    /// Return the number of bits in a lane.
    pub fn lane_bits(&self) -> (r: u64)
        ensures
            r == self.spec_lane_type().spec_lane_bits(),
    {
        self.base.lane_bits()
    }

    /// Return the number of lanes.
    pub fn minimum_lane_count(&self) -> (r: u64)
        ensures
            r == self.spec_minimum_lane_count(),
    {
        self.unscaled_lanes
    }

    /// Return the lane type.
    pub fn lane_type(&self) -> (r: LaneType)
        ensures
            r == self.spec_lane_type(),
    {
        self.base
    }

    /// Find the unique number associated with this vector type.
    ///
    /// Dynamic vector types are encoded in the same manner as `VectorType`,
    /// with lane type in the low 4 bits and the log2(lane_count). We add the
    /// start of the vector numbers, 0x80, to move these numbers into the
    /// range beyond the fixed SIMD types. The minimum lane count must be positive.
    pub fn number(&self) -> (r: u16)
        requires
            self.spec_minimum_lane_count() > 0,
        ensures
            r == self.spec_number(),
            r == 0x80 + lanes_number(
                log2(self.spec_minimum_lane_count() as nat),
                self.spec_lane_type().spec_number(),
            ),
    {
        let base_num = u32::from(self.base.number());
        let lanes_log_2: u32 = lanes_log2(self.minimum_lane_count());
        proof {
            lemma_shl4(lanes_log_2);
        }
        let num = 0x80 + (lanes_log_2 << 4) + base_num;
        num as u16
    }

    /// Append the name of this type to `s`, upper case when `up` holds.
    pub(crate) fn push_name(&self, s: &mut String, up: bool)
        ensures
            final(s)@ == old(s)@ + cased(self.spec_name(), up),
    {
        let ghost start = s@;
        self.base.push_name(s, up);
        if up {
            proof { reveal_strlit("X"); }
            s.append("X");
        } else {
            proof { reveal_strlit("x"); }
            s.append("x");
        }
        push_decimal(s, self.unscaled_lanes);
        if up {
            proof { reveal_strlit("XN"); }
            s.append("XN");
        } else {
            proof { reveal_strlit("xN"); }
            s.append("xN");
        }
        proof {
            let a = self.base.spec_name();
            let d = decimal(self.unscaled_lanes as nat);
            lemma_cased_concat(a + seq!['x'] + d, seq!['x', 'N'], up);
            lemma_cased_concat(a + seq!['x'], d, up);
            lemma_cased_concat(a, seq!['x'], up);
            lemma_cased_decimal(self.unscaled_lanes as nat, up);
            assert(cased(seq!['x'], up) =~= (if up { seq!['X'] } else { seq!['x'] }));
            assert(cased(seq!['x', 'N'], up) =~= (if up { seq!['X', 'N'] } else { seq!['x', 'N'] }));
            assert(s@ =~= start + cased(self.spec_name(), up));
        }
    }

    /// The name of this type, such as `i32x4xN`.
    pub fn to_string(&self) -> (r: String)
        ensures
            r@ == self.spec_name(),
    {
        let mut s = String::new();
        self.push_name(&mut s, false);
        s
    }

    /// The debugging form, such as `DynamicVectorType(base=i32, lanes=4)`.
    pub fn debug_string(&self) -> (r: String)
        ensures
            r@ == self.spec_debug(),
    {
        let mut s = String::new();
        s.append("DynamicVectorType(base=");
        self.base.push_name(&mut s, false);
        s.append(", lanes=");
        push_decimal(&mut s, self.unscaled_lanes);
        s.append(")");
        s
    }
}

} // verus!
