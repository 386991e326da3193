//! The value types of the Cranelift code generator's meta language: lane
//! types, vectors, dynamic vectors, special and reference types, with their
//! sizes, their unique type numbers and their textual names.

pub mod constants;
pub mod shared;
pub mod text;
pub mod arith;
pub mod lane;
pub mod reference;
pub mod special;
pub mod value;
pub mod vector;
pub mod laws;
