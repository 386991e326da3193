use vstd::prelude::*;

use crate::arith::{is_power_of_two, lemma_log2_injective, lemma_log2_range, lemma_log2_u64, log2};
use crate::constants::{LANE_BASE, REFERENCE_BASE};
use crate::lane::{all_lane_types_seq, LaneType};
use crate::reference::{all_reference_types_seq, ReferenceType};
use crate::shared::{Float, Flag, Int, Reference};
use crate::special::{all_special_types_seq, SpecialType};
use crate::value::ValueType;
use crate::text::{
    decimal, is_digit, lemma_decimal_digits, lemma_decimal_injective, lemma_split_at_separator,
    lemma_strip_affixes,
};
use crate::vector::{DynamicVectorType, VectorType};
use vstd::arithmetic::power2::{lemma2_to64, lemma_pow2_strictly_increases, lemma_pow2_unfold, pow2};

verus! {

/// Whether a type follows the numbering scheme: the lane count of a vector
/// is a power of two from 2 to 256, and the minimum lane count of a dynamic
/// vector is a power of two of at least 2.
pub open spec fn is_canonical(t: ValueType) -> bool {
    match t {
        ValueType::Vector(v) => is_power_of_two(v.spec_lane_count() as nat) && 2
            <= v.spec_lane_count() <= 256,
        ValueType::DynamicVector(v) => is_power_of_two(v.spec_minimum_lane_count() as nat) && 2
            <= v.spec_minimum_lane_count(),
        _ => true,
    }
}

/// Lane type numbers lie from `LANE_BASE + 6` to `LANE_BASE + 12`.
proof fn lemma_lane_number_range(l: LaneType)
    ensures
        LANE_BASE + 6 <= l.spec_number() <= LANE_BASE + 12,
{
}

/// Each lane type has its own number.
proof fn lemma_lane_number_unique(a: LaneType, b: LaneType)
    requires
        a.spec_number() == b.spec_number(),
    ensures
        a == b,
{
}

/// The numbering scheme: special types take 0x01-0x6f, lane types
/// 0x70-0x7d, reference types 0x7e-0x7f, vector types 0x80-0xff and
/// dynamic vector types 0x100-0x4ff.
pub proof fn lemma_number_ranges(t: ValueType)
    requires
        is_canonical(t),
    ensures
        t matches ValueType::Special(_) ==> 0x01 <= t.spec_number() <= 0x6f,
        t matches ValueType::Lane(_) ==> LANE_BASE <= t.spec_number() <= 0x7d,
        t matches ValueType::Reference(_) ==> REFERENCE_BASE <= t.spec_number() <= 0x7f,
        t matches ValueType::Vector(_) ==> 0x80 <= t.spec_number() <= 0xff,
        t matches ValueType::DynamicVector(_) ==> 0x100 <= t.spec_number() <= 0x4ff,
{
    match t {
        ValueType::Lane(l) => lemma_lane_number_range(l),
        ValueType::Vector(v) => {
            lemma_lane_number_range(v.spec_lane_type());
            lemma_log2_range(v.spec_lane_count() as nat);
        },
        ValueType::DynamicVector(v) => {
            lemma_lane_number_range(v.spec_lane_type());
            lemma_log2_u64(v.spec_minimum_lane_count());
            assert(log2(v.spec_minimum_lane_count() as nat) >= 1) by {
                crate::arith::lemma_log2_monotone(2, v.spec_minimum_lane_count() as nat);
                reveal_with_fuel(log2, 3);
            }
        },
        _ => {},
    }
}

/// Two vector numbers agree only for the same lane type and logarithm of the lane count.
proof fn lemma_lanes_number_unique(l1: nat, a: LaneType, l2: nat, b: LaneType)
    requires
        l1 * 16 + a.spec_number() == l2 * 16 + b.spec_number(),
    ensures
        l1 == l2,
        a == b,
{
    lemma_lane_number_range(a);
    lemma_lane_number_range(b);
    lemma_lane_number_unique(a, b);
}

/// Each type that follows the numbering scheme has its own number: two such
/// types with the same number are the same type.
pub proof fn lemma_number_unique(a: ValueType, b: ValueType)
    requires
        is_canonical(a),
        is_canonical(b),
        a.spec_number() == b.spec_number(),
    ensures
        a == b,
{
    lemma_number_ranges(a);
    lemma_number_ranges(b);
    match (a, b) {
        (ValueType::Lane(x), ValueType::Lane(y)) => lemma_lane_number_unique(x, y),
        (ValueType::Vector(x), ValueType::Vector(y)) => {
            lemma_log2_range(x.spec_lane_count() as nat);
            lemma_log2_range(y.spec_lane_count() as nat);
            lemma_lanes_number_unique(
                log2(x.spec_lane_count() as nat),
                x.spec_lane_type(),
                log2(y.spec_lane_count() as nat),
                y.spec_lane_type(),
            );
            lemma_log2_injective(x.spec_lane_count() as nat, y.spec_lane_count() as nat);
            VectorType::lemma_ext(x, y);
        },
        (ValueType::DynamicVector(x), ValueType::DynamicVector(y)) => {
            lemma_log2_u64(x.spec_minimum_lane_count());
            lemma_log2_u64(y.spec_minimum_lane_count());
            lemma_lanes_number_unique(
                log2(x.spec_minimum_lane_count() as nat),
                x.spec_lane_type(),
                log2(y.spec_minimum_lane_count() as nat),
                y.spec_lane_type(),
            );
            lemma_log2_injective(
                x.spec_minimum_lane_count() as nat,
                y.spec_minimum_lane_count() as nat,
            );
            DynamicVectorType::lemma_ext(x, y);
        },
        _ => {},
    }
}

/// An integer lane type is the one that `int_from_bits` gives for its width,
/// and `int_from_bits` gives a type of the width asked for.
pub proof fn lemma_int_bits_round_trip(l: LaneType, num_bits: u16)
    ensures
        l is Int ==> LaneType::is_int_width(l.spec_lane_bits() as u16)
            && LaneType::spec_int_from_bits(l.spec_lane_bits() as u16) == l,
        LaneType::is_int_width(num_bits) ==> LaneType::spec_int_from_bits(num_bits).spec_lane_bits()
            == num_bits,
{
}

/// A float lane type is the one that `float_from_bits` gives for its width,
/// and `float_from_bits` gives a type of the width asked for.
pub proof fn lemma_float_bits_round_trip(l: LaneType, num_bits: u16)
    ensures
        l is Float ==> LaneType::is_float_width(l.spec_lane_bits() as u16)
            && LaneType::spec_float_from_bits(l.spec_lane_bits() as u16) == l,
        LaneType::is_float_width(num_bits) ==> LaneType::spec_float_from_bits(
            num_bits,
        ).spec_lane_bits() == num_bits,
{
}

/// A reference type is the one that `ref_from_bits` gives for its width, and
/// `ref_from_bits` gives a type of the width asked for.
pub proof fn lemma_ref_bits_round_trip(r: ReferenceType, num_bits: u16)
    ensures
        ReferenceType::is_ref_width(r.spec_lane_bits() as u16) && ReferenceType::spec_ref_from_bits(
            r.spec_lane_bits() as u16,
        ) == r,
        ReferenceType::is_ref_width(num_bits) ==> ReferenceType::spec_ref_from_bits(
            num_bits,
        ).spec_lane_bits() == num_bits,
{
}

/// Iterating through all lane types yields each of the seven lane types once.
pub proof fn lemma_all_lane_types(l: LaneType)
    ensures
        all_lane_types_seq().len() == 7,
        all_lane_types_seq().no_duplicates(),
        all_lane_types_seq().contains(l),
{
    let s = all_lane_types_seq();
    assert(s =~= seq![
        LaneType::Int(Int::I8),
        LaneType::Int(Int::I16),
        LaneType::Int(Int::I32),
        LaneType::Int(Int::I64),
        LaneType::Int(Int::I128),
        LaneType::Float(Float::F32),
        LaneType::Float(Float::F64),
    ]);
    let i: int = match l {
        LaneType::Int(Int::I8) => 0,
        LaneType::Int(Int::I16) => 1,
        LaneType::Int(Int::I32) => 2,
        LaneType::Int(Int::I64) => 3,
        LaneType::Int(Int::I128) => 4,
        LaneType::Float(Float::F32) => 5,
        LaneType::Float(Float::F64) => 6,
    };
    assert(s[i] == l);
}

/// Iterating through all special types yields each of the two special types once.
pub proof fn lemma_all_special_types(t: SpecialType)
    ensures
        all_special_types_seq().len() == 2,
        all_special_types_seq().no_duplicates(),
        all_special_types_seq().contains(t),
{
    let s = all_special_types_seq();
    assert(s =~= seq![SpecialType::Flag(Flag::IFlags), SpecialType::Flag(Flag::FFlags)]);
    let i: int = match t {
        SpecialType::Flag(Flag::IFlags) => 0,
        SpecialType::Flag(Flag::FFlags) => 1,
    };
    assert(s[i] == t);
}

/// Iterating through all reference types yields each of the two reference types once.
pub proof fn lemma_all_reference_types(t: ReferenceType)
    ensures
        all_reference_types_seq().len() == 2,
        all_reference_types_seq().no_duplicates(),
        all_reference_types_seq().contains(t),
{
    let s = all_reference_types_seq();
    assert(s =~= seq![ReferenceType(Reference::R32), ReferenceType(Reference::R64)]);
    let i: int = match t {
        ReferenceType(Reference::R32) => 0,
        ReferenceType(Reference::R64) => 1,
    };
    assert(s[i] == t);
}

/// A number from `2^k` up to but not including `2^(k+1)` has logarithm `k`.
proof fn lemma_log2_between_powers(n: nat, k: nat)
    requires
        pow2(k) <= n < pow2(k + 1),
    ensures
        log2(n) == k,
    decreases k,
{
    lemma2_to64();
    if k == 0 {
        assert(n == 1);
    } else {
        lemma_pow2_unfold(k);
        lemma_pow2_unfold(k + 1);
        lemma_log2_between_powers(n / 2, (k - 1) as nat);
    }
}

/// A lane count below `2^64` lies between `2^k` and `2^(k+1)` only for `k < 64`.
proof fn lemma_power_below_u64(n: u64, k: nat)
    requires
        pow2(k) <= n,
    ensures
        k <= 63,
{
    lemma2_to64();
    if k > 63 {
        lemma_pow2_strictly_increases(63, k);
        lemma_pow2_unfold(64);
        assert(pow2(64) == 0x1_0000_0000_0000_0000);
        if k > 64 {
            lemma_pow2_strictly_increases(64, k);
        }
    }
}

/// The number of a vector type with from `2^k` up to `2^(k+1) - 1` lanes:
/// `k` in the bits above the 4 low ones, plus the number of its lane type.
pub proof fn lemma_vector_number_formula(v: VectorType, k: nat)
    requires
        pow2(k) <= v.spec_lane_count() < pow2(k + 1),
    ensures
        v.spec_number() == k * 16 + v.spec_lane_type().spec_number(),
        ValueType::Vector(v).spec_number() == k * 16 + v.spec_lane_type().spec_number(),
{
    lemma_log2_between_powers(v.spec_lane_count() as nat, k);
    lemma_power_below_u64(v.spec_lane_count(), k);
    lemma_lane_number_range(v.spec_lane_type());
}

/// The number of a dynamic vector type with a minimum of from `2^k` up to
/// `2^(k+1) - 1` lanes: 0x80, plus `k` in the bits above the 4 low ones,
/// plus the number of its lane type.
pub proof fn lemma_dynamic_vector_number_formula(v: DynamicVectorType, k: nat)
    requires
        pow2(k) <= v.spec_minimum_lane_count() < pow2(k + 1),
    ensures
        v.spec_number() == 0x80 + k * 16 + v.spec_lane_type().spec_number(),
        ValueType::DynamicVector(v).spec_number() == 0x80 + k * 16
            + v.spec_lane_type().spec_number(),
{
    lemma_log2_between_powers(v.spec_minimum_lane_count() as nat, k);
    lemma_power_below_u64(v.spec_minimum_lane_count(), k);
    lemma_lane_number_range(v.spec_lane_type());
}

/// The number of a lane type of `2^k` bits: `LANE_BASE + 3 + k` for an
/// integer, `LANE_BASE + 6 + k` for a float.
pub proof fn lemma_lane_number_formula(l: LaneType, k: nat)
    requires
        pow2(k) == l.spec_lane_bits(),
    ensures
        l is Int ==> l.spec_number() == LANE_BASE + 3 + k,
        l is Float ==> l.spec_number() == LANE_BASE + 6 + k,
{
    lemma2_to64();
    if k >= 8 {
        if k > 8 {
            lemma_pow2_strictly_increases(8, k);
        }
    } else if k == 0 {
    } else if k == 1 {
    } else if k == 2 {
    } else if k == 3 {
    } else if k == 4 {
    } else if k == 5 {
    } else if k == 6 {
    } else {
    }
}

/// A value type's number is the number of the type it wraps.
pub proof fn lemma_value_number_wraps(t: ValueType)
    ensures
        t matches ValueType::Lane(l) ==> t.spec_number() == l.spec_number(),
        t matches ValueType::Reference(r) ==> t.spec_number() == r.spec_number(),
        t matches ValueType::Special(s) ==> t.spec_number() == s.spec_number(),
        t matches ValueType::Vector(v) ==> t.spec_number() == v.spec_number(),
        t matches ValueType::DynamicVector(v) ==> t.spec_number() == v.spec_number(),
{
}

/// The numbers of the reference types are `REFERENCE_BASE` for 32 bits and
/// the next one for 64 bits; those of the flag types are 1 and 2.
pub proof fn lemma_reference_and_special_numbers(r: ReferenceType, s: SpecialType)
    ensures
        r.spec_number() == REFERENCE_BASE + (r.spec_lane_bits() / 32 - 1),
        s matches SpecialType::Flag(Flag::IFlags) ==> s.spec_number() == 1,
        s matches SpecialType::Flag(Flag::FFlags) ==> s.spec_number() == 2,
{
}

/// A lane type is named by its kind's letter, `i` or `f`, then its width in decimal.
pub proof fn lemma_lane_name(l: LaneType)
    ensures
        l is Int ==> l.spec_name() == seq!['i'] + decimal(l.spec_lane_bits() as nat),
        l is Float ==> l.spec_name() == seq!['f'] + decimal(l.spec_lane_bits() as nat),
        l.spec_lane_bits() == match l {
            LaneType::Int(i) => i.spec_bits(),
            LaneType::Float(f) => f.spec_bits(),
        },
{
}

/// No `x` occurs in the name of a lane type.
proof fn lemma_lane_name_has_no_x(l: LaneType)
    ensures
        forall|i: int| 0 <= i < l.spec_name().len() ==> l.spec_name()[i] != 'x',
{
    let n = l.spec_name();
    let d = decimal(l.spec_lane_bits() as nat);
    lemma_decimal_digits(l.spec_lane_bits() as nat);
    assert forall|i: int| 0 <= i < n.len() implies n[i] != 'x' by {
        if i > 0 {
            assert(n[i] == d[i - 1]);
            assert(is_digit(d[i - 1]));
        }
    }
}

/// Distinct lane types have distinct names.
pub proof fn lemma_lane_name_unique(a: LaneType, b: LaneType)
    requires
        a.spec_name() == b.spec_name(),
    ensures
        a == b,
{
    let da = decimal(a.spec_lane_bits() as nat);
    let db = decimal(b.spec_lane_bits() as nat);
    assert(a.spec_name()[0] == a.spec_letter());
    assert(b.spec_name()[0] == b.spec_letter());
    assert(a.spec_name().drop_first() =~= da);
    assert(b.spec_name().drop_first() =~= db);
    lemma_decimal_injective(a.spec_lane_bits() as nat, b.spec_lane_bits() as nat);
}

/// The name of a vector type is the name of its lane type, `x`, and its lane
/// count in decimal; distinct vector types have distinct names.
pub proof fn lemma_vector_name(v: VectorType, w: VectorType)
    ensures
        v.spec_name() == v.spec_lane_type().spec_name() + seq!['x'] + decimal(
            v.spec_lane_count() as nat,
        ),
        v.spec_name() == w.spec_name() ==> v == w,
{
    if v.spec_name() == w.spec_name() {
        lemma_lane_name_has_no_x(v.spec_lane_type());
        lemma_lane_name_has_no_x(w.spec_lane_type());
        lemma_split_at_separator(
            v.spec_lane_type().spec_name(),
            decimal(v.spec_lane_count() as nat),
            w.spec_lane_type().spec_name(),
            decimal(w.spec_lane_count() as nat),
            'x',
        );
        lemma_lane_name_unique(v.spec_lane_type(), w.spec_lane_type());
        lemma_decimal_injective(v.spec_lane_count() as nat, w.spec_lane_count() as nat);
        VectorType::lemma_ext(v, w);
    }
}

/// The name of a dynamic vector type is the name of its lane type, `x`, its
/// minimum lane count in decimal, and `xN`; distinct dynamic vector types have
/// distinct names.
pub proof fn lemma_dynamic_vector_name(v: DynamicVectorType, w: DynamicVectorType)
    ensures
        v.spec_name() == v.spec_lane_type().spec_name() + seq!['x'] + decimal(
            v.spec_minimum_lane_count() as nat,
        ) + seq!['x', 'N'],
        v.spec_name() == w.spec_name() ==> v == w,
{
    if v.spec_name() == w.spec_name() {
        let dv = decimal(v.spec_minimum_lane_count() as nat);
        let dw = decimal(w.spec_minimum_lane_count() as nat);
        lemma_lane_name_has_no_x(v.spec_lane_type());
        lemma_lane_name_has_no_x(w.spec_lane_type());
        assert(v.spec_name() =~= v.spec_lane_type().spec_name() + seq!['x'] + (dv + seq!['x', 'N']));
        assert(w.spec_name() =~= w.spec_lane_type().spec_name() + seq!['x'] + (dw + seq!['x', 'N']));
        lemma_split_at_separator(
            v.spec_lane_type().spec_name(),
            dv + seq!['x', 'N'],
            w.spec_lane_type().spec_name(),
            dw + seq!['x', 'N'],
            'x',
        );
        assert((dv + seq!['x', 'N']).len() == (dw + seq!['x', 'N']).len());
        assert(dv =~= (dv + seq!['x', 'N']).subrange(0, dv.len() as int));
        assert(dw =~= (dw + seq!['x', 'N']).subrange(0, dw.len() as int));
        lemma_lane_name_unique(v.spec_lane_type(), w.spec_lane_type());
        lemma_decimal_injective(
            v.spec_minimum_lane_count() as nat,
            w.spec_minimum_lane_count() as nat,
        );
        DynamicVectorType::lemma_ext(v, w);
    }
}

/// A value type's name is the name of the type it wraps.
pub proof fn lemma_value_name_wraps(t: ValueType)
    ensures
        t matches ValueType::Lane(l) ==> t.spec_name() == l.spec_name(),
        t matches ValueType::Reference(r) ==> t.spec_name() == r.spec_name(),
        t matches ValueType::Special(s) ==> t.spec_name() == s.spec_name(),
        t matches ValueType::Vector(v) ==> t.spec_name() == v.spec_name(),
        t matches ValueType::DynamicVector(v) ==> t.spec_name() == v.spec_name(),
{
}

/// The documentation of a reference type states its own width, so the two
/// reference types have distinct documentation.
pub proof fn lemma_reference_doc(r: ReferenceType, s: ReferenceType)
    ensures
        r.spec_doc() == "An opaque reference type with "@ + decimal(r.spec_lane_bits() as nat)
            + " bits."@,
        r.spec_doc() == s.spec_doc() ==> r == s,
        ValueType::Reference(r).spec_doc() == r.spec_doc(),
{
    if r.spec_doc() == s.spec_doc() {
        lemma_strip_affixes(
            "An opaque reference type with "@,
            decimal(r.spec_lane_bits() as nat),
            decimal(s.spec_lane_bits() as nat),
            " bits."@,
        );
        lemma_decimal_injective(r.spec_lane_bits() as nat, s.spec_lane_bits() as nat);
    }
}

/// The total width of a type is its lane count times its lane width: a
/// vector's lane count times the width of its lane type, the width of the
/// wrapped type for every other type.
pub proof fn lemma_width(t: ValueType)
    ensures
        t.spec_width() == t.spec_lane_count() * t.spec_lane_bits(),
        t matches ValueType::Vector(v) ==> t.spec_width() == v.spec_lane_count()
            * v.spec_lane_type().spec_lane_bits(),
        t matches ValueType::Lane(l) ==> t.spec_width() == l.spec_lane_bits(),
        t matches ValueType::Reference(r) ==> t.spec_width() == r.spec_lane_bits(),
        t matches ValueType::Special(_) ==> t.spec_width() == 0,
        t matches ValueType::DynamicVector(v) ==> t.spec_width()
            == v.spec_lane_type().spec_lane_bits(),
{
}

/// The lane width and lane count of a value type are those of the type it
/// wraps: a reference type's lane width is the width of its reference kind,
/// an integer or float lane's that of its kind, and only a vector has a lane
/// count other than 1.
pub proof fn lemma_lane_bits_wraps(t: ValueType)
    ensures
        t matches ValueType::Lane(l) ==> t.spec_lane_bits() == l.spec_lane_bits(),
        t matches ValueType::Reference(r) ==> t.spec_lane_bits() == r.spec_lane_bits()
            && t.spec_lane_bits() == r.0.spec_bits(),
        t matches ValueType::Special(_) ==> t.spec_lane_bits() == 0,
        t matches ValueType::Vector(v) ==> t.spec_lane_bits() == v.spec_lane_type().spec_lane_bits()
            && t.spec_lane_count() == v.spec_lane_count(),
        t matches ValueType::DynamicVector(v) ==> t.spec_lane_bits()
            == v.spec_lane_type().spec_lane_bits(),
        !(t is Vector) ==> t.spec_lane_count() == 1,
        t matches ValueType::Lane(LaneType::Int(i)) ==> t.spec_lane_bits() == i.spec_bits(),
        t matches ValueType::Lane(LaneType::Float(f)) ==> t.spec_lane_bits() == f.spec_bits(),
{
}

} // verus!
