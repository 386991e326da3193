use cranelift_codegen_meta::lane::LaneType;
use cranelift_codegen_meta::reference::ReferenceType;
use cranelift_codegen_meta::shared::{Flag, Float, Int, Reference};
use cranelift_codegen_meta::special::SpecialType;
use cranelift_codegen_meta::value::ValueType;
use cranelift_codegen_meta::vector::{DynamicVectorType, VectorType};

fn all_lanes() -> Vec<LaneType> {
    let mut it = ValueType::all_lane_types();
    let mut v = Vec::new();
    while let Some(l) = it.next() {
        v.push(l);
    }
    v
}

#[test]
fn lane_iteration_order() {
    assert!(
        all_lanes()
            == vec![
            LaneType::Int(Int::I8),
            LaneType::Int(Int::I16),
            LaneType::Int(Int::I32),
            LaneType::Int(Int::I64),
            LaneType::Int(Int::I128),
            LaneType::Float(Float::F32),
            LaneType::Float(Float::F64),
            ]
    );
    let mut it = ValueType::all_lane_types();
    for _ in 0..7 {
        assert!(it.next().is_some());
    }
    assert!(it.next().is_none());
    assert!(it.next().is_none());
}

#[test]
fn special_and_reference_iteration() {
    let mut it = ValueType::all_special_types();
    assert!(it.next() == Some(SpecialType::Flag(Flag::IFlags)));
    assert!(it.next() == Some(SpecialType::Flag(Flag::FFlags)));
    assert!(it.next() == None);
    assert!(it.next() == None);
    let mut it = ValueType::all_reference_types();
    assert!(it.next() == Some(ReferenceType(Reference::R32)));
    assert!(it.next() == Some(ReferenceType(Reference::R64)));
    assert!(it.next() == None);
}

#[test]
fn lane_names_and_bits() {
    let names: Vec<String> = all_lanes().iter().map(|l| l.to_string()).collect();
    assert_eq!(names, vec!["i8", "i16", "i32", "i64", "i128", "f32", "f64"]);
    let bits: Vec<u64> = all_lanes().iter().map(|l| l.lane_bits()).collect();
    assert_eq!(bits, vec![8, 16, 32, 64, 128, 32, 64]);
}

#[test]
fn lane_numbers() {
    let nums: Vec<u16> = all_lanes().iter().map(|l| l.number()).collect();
    assert_eq!(nums, vec![0x76, 0x77, 0x78, 0x79, 0x7a, 0x7b, 0x7c]);
}

#[test]
fn special_and_reference_numbers() {
    assert_eq!(SpecialType::Flag(Flag::IFlags).number(), 1);
    assert_eq!(SpecialType::Flag(Flag::FFlags).number(), 2);
    assert_eq!(ReferenceType(Reference::R32).number(), 0x7e);
    assert_eq!(ReferenceType(Reference::R64).number(), 0x7f);
}

#[test]
fn vector_numbers() {
    let i32x4 = LaneType::Int(Int::I32).by_lanes(4);
    assert_eq!(i32x4.number(), 0x98);
    assert_eq!(LaneType::Int(Int::I8).by_lanes(16).number(), 0xb6);
    assert_eq!(LaneType::Float(Float::F64).by_lanes(2).number(), 0x8c);
    assert_eq!(LaneType::Int(Int::I8).by_lanes(256).number(), 0xf6);
    // A lane count that is not a power of two is numbered by its rounded-down logarithm.
    assert_eq!(VectorType::new(LaneType::Int(Int::I32), 5).number(), 0x98);
    assert_eq!(VectorType::new(LaneType::Int(Int::I32), 1).number(), 0x78);
}

#[test]
fn dynamic_vector_numbers() {
    assert_eq!(LaneType::Int(Int::I32).to_dynamic(4).number(), 0x118);
    assert_eq!(LaneType::Int(Int::I8).to_dynamic(16).number(), 0x136);
    assert_eq!(
        DynamicVectorType::new(LaneType::Float(Float::F64), 1u64 << 63).number(),
        0x80 + 63 * 16 + 0x7c
    );
}

fn canonical_types() -> Vec<ValueType> {
    let mut v = Vec::new();
    for l in all_lanes() {
        v.push(ValueType::from(l));
        let mut lanes = 2u64;
        while lanes <= 256 {
            v.push(ValueType::from(VectorType::new(l, lanes)));
            lanes *= 2;
        }
        for k in 1..64u32 {
            v.push(ValueType::from(DynamicVectorType::new(l, 1u64 << k)));
        }
    }
    v.push(ValueType::from(SpecialType::Flag(Flag::IFlags)));
    v.push(ValueType::from(SpecialType::Flag(Flag::FFlags)));
    v.push(ValueType::from(ReferenceType(Reference::R32)));
    v.push(ValueType::from(ReferenceType(Reference::R64)));
    v
}

#[test]
fn numbers_are_unique() {
    let types = canonical_types();
    let mut nums: Vec<u16> = types.iter().map(|t| t.number()).collect();
    nums.sort();
    let before = nums.len();
    nums.dedup();
    assert_eq!(nums.len(), before);
}

#[test]
fn number_ranges() {
    for t in canonical_types() {
        let n = t.number();
        match t {
            ValueType::Special(_) => assert!((0x01..=0x6f).contains(&n)),
            ValueType::Lane(_) => assert!((0x70..=0x7d).contains(&n)),
            ValueType::Reference(_) => assert!((0x7e..=0x7f).contains(&n)),
            ValueType::Vector(_) => assert!((0x80..=0xff).contains(&n)),
            ValueType::DynamicVector(_) => assert!((0x100..=0x4ff).contains(&n)),
        }
    }
}

#[test]
fn value_type_names() {
    assert_eq!(LaneType::Int(Int::I32).by_lanes(4).to_string(), "i32x4");
    assert_eq!(LaneType::Float(Float::F32).to_dynamic(4).to_string(), "f32x4xN");
    assert_eq!(ValueType::from(SpecialType::Flag(Flag::IFlags)).to_string(), "iflags");
    assert_eq!(ValueType::from(SpecialType::Flag(Flag::FFlags)).to_string(), "fflags");
    assert_eq!(ValueType::from(ReferenceType(Reference::R64)).to_string(), "r64");
    assert_eq!(LaneType::Int(Int::I128).by_lanes(1).to_string(), "i128");
}

#[test]
fn rust_names() {
    assert_eq!(LaneType::Int(Int::I32).by_lanes(4).rust_name(), "ir::types::I32X4");
    assert_eq!(LaneType::Float(Float::F64).by_lanes(1).rust_name(), "ir::types::F64");
    assert_eq!(LaneType::Int(Int::I16).to_dynamic(8).rust_name(), "ir::types::I16X8XN");
    assert_eq!(ValueType::from(SpecialType::Flag(Flag::IFlags)).rust_name(), "ir::types::IFLAGS");
    assert_eq!(ValueType::from(ReferenceType(Reference::R32)).rust_name(), "ir::types::R32");
    for t in canonical_types() {
        assert_eq!(t.rust_name(), format!("ir::types::{}", t.to_string().to_uppercase()));
    }
}

#[test]
fn lane_docs() {
    assert_eq!(
        LaneType::Int(Int::I8).doc(),
        "An integer type with 8 bits.\n                WARNING: arithmetic on 8bit integers is incomplete"
    );
    assert_eq!(
        LaneType::Int(Int::I16).doc(),
        "An integer type with 16 bits.\n                WARNING: arithmetic on 16bit integers is incomplete"
    );
    assert_eq!(LaneType::Int(Int::I32).doc(), "An integer type with 32 bits.");
    assert_eq!(LaneType::Int(Int::I128).doc(), "An integer type with 128 bits.");
    assert_eq!(
        LaneType::Float(Float::F32).doc(),
        "A 32-bit floating point type represented in the IEEE 754-2008\n                *binary32* interchange format. This corresponds to the :c:type:`float`\n                type in most C implementations."
    );
    assert_eq!(
        LaneType::Float(Float::F64).doc(),
        "A 64-bit floating point type represented in the IEEE 754-2008\n                *binary64* interchange format. This corresponds to the :c:type:`double`\n                type in most C implementations."
    );
}

#[test]
fn other_docs() {
    assert_eq!(
        LaneType::Int(Int::I32).by_lanes(4).doc(),
        "A SIMD vector with 4 lanes containing a `i32` each."
    );
    assert_eq!(
        LaneType::Float(Float::F32).to_dynamic(4).doc(),
        "A dynamically-scaled SIMD vector with a minimum of 4 lanes containing `f32` bits each."
    );
    assert_eq!(
        ValueType::from(SpecialType::Flag(Flag::IFlags)).doc(),
        "CPU flags representing the result of an integer comparison. These flags\n                can be tested with an :type:`intcc` condition code."
    );
    assert_eq!(
        ValueType::from(SpecialType::Flag(Flag::FFlags)).doc(),
        "CPU flags representing the result of a floating point comparison. These\n                flags can be tested with a :type:`floatcc` condition code."
    );
    assert_eq!(
        ValueType::from(ReferenceType(Reference::R64)).doc(),
        "An opaque reference type with 64 bits."
    );
    assert_eq!(ValueType::from(LaneType::Int(Int::I64)).doc(), "An integer type with 64 bits.");
}

#[test]
fn debug_forms() {
    assert_eq!(LaneType::Int(Int::I32).debug_string(), "IntType(bits=32)");
    assert_eq!(LaneType::Float(Float::F64).debug_string(), "FloatType(bits=64)");
    assert_eq!(
        VectorType::new(LaneType::Int(Int::I8), 16).debug_string(),
        "VectorType(base=i8, lanes=16)"
    );
    assert_eq!(
        DynamicVectorType::new(LaneType::Int(Int::I8), 16).debug_string(),
        "DynamicVectorType(base=i8, lanes=16)"
    );
    assert_eq!(SpecialType::Flag(Flag::FFlags).debug_string(), "FlagsType(fflags)");
    assert_eq!(ReferenceType(Reference::R32).debug_string(), "ReferenceType(bits=32)");
    assert_eq!(
        LaneType::Int(Int::I32).by_lanes(4).debug_string(),
        "Vector(VectorType(base=i32, lanes=4))"
    );
    assert_eq!(ValueType::from(LaneType::Int(Int::I8)).debug_string(), "Lane(IntType(bits=8))");
    assert_eq!(
        ValueType::from(ReferenceType(Reference::R64)).debug_string(),
        "Reference(ReferenceType(bits=64))"
    );
    assert_eq!(
        ValueType::from(SpecialType::Flag(Flag::IFlags)).debug_string(),
        "Special(FlagsType(iflags))"
    );
    assert_eq!(
        LaneType::Int(Int::I16).to_dynamic(2).debug_string(),
        "DynamicVector(DynamicVectorType(base=i16, lanes=2))"
    );
}

#[test]
fn widths_and_sizes() {
    let i32x4 = LaneType::Int(Int::I32).by_lanes(4);
    assert_eq!(i32x4.lane_bits(), 32);
    assert_eq!(i32x4.lane_count(), 4);
    assert_eq!(i32x4.width(), 128);
    assert_eq!(i32x4.membytes(), 16);
    let i8 = ValueType::from(LaneType::Int(Int::I8));
    assert_eq!(i8.width(), 8);
    assert_eq!(i8.membytes(), 1);
    let flags = ValueType::from(SpecialType::Flag(Flag::IFlags));
    assert_eq!(flags.lane_bits(), 0);
    assert_eq!(flags.lane_count(), 1);
    assert_eq!(flags.width(), 0);
    assert_eq!(flags.membytes(), 0);
    let r32 = ValueType::from(ReferenceType(Reference::R32));
    assert_eq!(r32.width(), 32);
    assert_eq!(r32.membytes(), 4);
    // A dynamic vector counts as one lane.
    let dyn_v = LaneType::Int(Int::I64).to_dynamic(4);
    assert_eq!(dyn_v.lane_count(), 1);
    assert_eq!(dyn_v.lane_bits(), 64);
    assert_eq!(dyn_v.width(), 64);
    assert_eq!(dyn_v.membytes(), 8);
}

#[test]
fn by_lanes_shapes() {
    let l = LaneType::Float(Float::F32);
    assert!(l.by_lanes(1) == ValueType::Lane(l));
    match l.by_lanes(8) {
        ValueType::Vector(v) => {
            assert!(v.lane_type() == l);
            assert_eq!(v.lane_count(), 8);
            assert_eq!(v.lane_bits(), 32);
        }
        other => panic!("unexpected {}", other.debug_string()),
    }
    match l.by_lanes(0) {
        ValueType::Vector(v) => assert_eq!(v.lane_count(), 0),
        other => panic!("unexpected {}", other.debug_string()),
    }
    match l.to_dynamic(1) {
        ValueType::DynamicVector(v) => {
            assert!(v.lane_type() == l);
            assert_eq!(v.minimum_lane_count(), 1);
            assert_eq!(v.lane_bits(), 32);
        }
        other => panic!("unexpected {}", other.debug_string()),
    }
}

#[test]
fn from_bits_round_trips() {
    for b in [8u16, 16, 32, 64, 128] {
        let l = LaneType::int_from_bits(b);
        assert_eq!(l.lane_bits(), b as u64);
        assert!(matches!(l, LaneType::Int(_)));
    }
    for b in [32u16, 64] {
        let l = LaneType::float_from_bits(b);
        assert_eq!(l.lane_bits(), b as u64);
        assert!(matches!(l, LaneType::Float(_)));
        assert_eq!(ReferenceType::ref_from_bits(b).lane_bits(), b as u64);
    }
    for l in all_lanes() {
        let b = l.lane_bits() as u16;
        match l {
            LaneType::Int(_) => assert!(LaneType::int_from_bits(b) == l),
            LaneType::Float(_) => assert!(LaneType::float_from_bits(b) == l),
        }
    }
    assert!(ReferenceType::ref_from_bits(32) == ReferenceType(Reference::R32));
    assert!(ReferenceType::ref_from_bits(64) == ReferenceType(Reference::R64));
}

#[test]
fn conversions() {
    assert!(LaneType::from(Int::I16) == LaneType::Int(Int::I16));
    assert!(LaneType::from(Float::F64) == LaneType::Float(Float::F64));
    assert!(SpecialType::from(Flag::FFlags) == SpecialType::Flag(Flag::FFlags));
    assert!(ReferenceType::from(Reference::R64) == ReferenceType(Reference::R64));
    let v = VectorType::new(LaneType::Int(Int::I8), 2);
    assert!(ValueType::from(v.clone()) == ValueType::Vector(v));
    let d = DynamicVectorType::new(LaneType::Int(Int::I8), 2);
    assert!(ValueType::from(d.clone()) == ValueType::DynamicVector(d));
}

#[test]
fn large_decimal_names() {
    let v = VectorType::new(LaneType::Int(Int::I64), u64::MAX);
    assert_eq!(v.to_string(), "i64x18446744073709551615");
    assert_eq!(VectorType::new(LaneType::Int(Int::I64), 0).to_string(), "i64x0");
    assert_eq!(VectorType::new(LaneType::Int(Int::I64), 10).to_string(), "i64x10");
    assert_eq!(VectorType::new(LaneType::Int(Int::I64), 1000).doc(), "A SIMD vector with 1000 lanes containing a `i64` each.");
}
