use vstd::prelude::*;

use crate::constants::REFERENCE_BASE;
use crate::shared::{all_references, Reference, ReferenceIterator};
use crate::text::{ascii_upper, cased, decimal, lemma_upper_letter_decimal, push_decimal};

verus! {

/// Reference type is scalar type, but not lane type.
#[derive(Clone, Copy, PartialEq, Eq, Hash, Structural)]
pub struct ReferenceType(pub Reference);

/// Every reference type, in the order that `ValueType::all_reference_types` yields them.
pub open spec fn all_reference_types_seq() -> Seq<ReferenceType> {
    all_references().map_values(|r: Reference| ReferenceType(r))
}

impl ReferenceType {
    /// The number of bits of a reference of this type.
    pub open spec fn spec_lane_bits(self) -> u64 {
        match self.0 {
            Reference::R32 => 32,
            Reference::R64 => 64,
        }
    }

    /// The unique number of this reference type.
    pub open spec fn spec_number(self) -> u16 {
        match self.0 {
            Reference::R32 => (REFERENCE_BASE + 0) as u16,
            Reference::R64 => (REFERENCE_BASE + 1) as u16,
        }
    }

    /// The name, such as `r64`.
    pub open spec fn spec_name(self) -> Seq<char> {
        seq!['r'] + decimal(self.spec_lane_bits() as nat)
    }

    /// The debugging form, such as `ReferenceType(bits=64)`.
    pub open spec fn spec_debug(self) -> Seq<char> {
        "ReferenceType(bits="@ + decimal(self.spec_lane_bits() as nat) + ")"@
    }

    /// The documentation comment.
    pub open spec fn spec_doc(self) -> Seq<char> {
        "An opaque reference type with "@ + decimal(self.spec_lane_bits() as nat) + " bits."@
    }

    /// Return a string containing the documentation comment for this reference type.
    pub fn doc(self) -> (r: String)
        ensures
            r@ == self.spec_doc(),
    {
        let mut s = String::new();
        s.append("An opaque reference type with ");
        push_decimal(&mut s, self.lane_bits());
        s.append(" bits.");
        s
    }

    /// Return the number of bits in a lane.
    pub fn lane_bits(self) -> (r: u64)
        ensures
            r == self.spec_lane_bits(),
    {
        match self.0 {
            Reference::R32 => 32,
            Reference::R64 => 64,
        }
    }

    /// Find the unique number associated with this reference type.
    pub fn number(self) -> (r: u16)
        ensures
            r == self.spec_number(),
    {
        REFERENCE_BASE + match self {
            ReferenceType(Reference::R32) => 0,
            ReferenceType(Reference::R64) => 1,
        }
    }

    /// Whether `num_bits` is the width of a reference type.
    pub open spec fn is_ref_width(num_bits: u16) -> bool {
        num_bits == 32 || num_bits == 64
    }

    /// The reference type of a given width.
    pub open spec fn spec_ref_from_bits(num_bits: u16) -> ReferenceType {
        if num_bits == 32 {
            ReferenceType(Reference::R32)
        } else {
            ReferenceType(Reference::R64)
        }
    }

    /// The reference type with `num_bits` bits; the width must be 32 or 64.
    pub fn ref_from_bits(num_bits: u16) -> (r: ReferenceType)
        requires
            Self::is_ref_width(num_bits),
        ensures
            r == Self::spec_ref_from_bits(num_bits),
            r.spec_lane_bits() == num_bits,
    {
        ReferenceType(
            match num_bits {
                32 => Reference::R32,
                _ => Reference::R64,
            },
        )
    }

    /// Append the name of this reference type to `s`, upper case when `up` holds.
    pub(crate) fn push_name(self, s: &mut String, up: bool)
        ensures
            final(s)@ == old(s)@ + cased(self.spec_name(), up),
    {
        let ghost start = s@;
        if up {
            proof { reveal_strlit("R"); }
            s.append("R");
        } else {
            proof { reveal_strlit("r"); }
            s.append("r");
        }
        push_decimal(s, self.lane_bits());
        proof {
            lemma_upper_letter_decimal('r', self.spec_lane_bits() as nat);
            assert(ascii_upper('r') == 'R');
            assert(s@ =~= start + cased(self.spec_name(), up));
        }
    }

    /// The name of this reference type, such as `r64`.
    pub fn to_string(self) -> (r: String)
        ensures
            r@ == self.spec_name(),
    {
        let mut s = String::new();
        self.push_name(&mut s, false);
        s
    }

    /// The debugging form, such as `ReferenceType(bits=64)`.
    pub fn debug_string(self) -> (r: String)
        ensures
            r@ == self.spec_debug(),
    {
        let mut s = String::new();
        s.append("ReferenceType(bits=");
        push_decimal(&mut s, self.lane_bits());
        s.append(")");
        s
    }
}

/// Create a ReferenceType from a given reference variant.
impl From<Reference> for ReferenceType {
    fn from(r: Reference) -> (res: Self) {
        ReferenceType(r)
    }
}

impl vstd::std_specs::convert::FromSpecImpl<Reference> for ReferenceType {
    open spec fn obeys_from_spec() -> bool {
        true
    }

    open spec fn from_spec(r: Reference) -> Self {
        ReferenceType(r)
    }
}

/// An iterator for different reference types.
pub struct ReferenceTypeIterator {
    reference_iter: ReferenceIterator,
}

impl ReferenceTypeIterator {
    /// The reference types this iterator has still to yield, in order.
    pub closed spec fn remaining(&self) -> Seq<ReferenceType> {
        self.reference_iter.remaining().map_values(|r: Reference| ReferenceType(r))
    }

    /// Create a new reference type iterator.
    pub fn new() -> (it: Self)
        ensures
            it.remaining() == all_reference_types_seq(),
    {
        Self { reference_iter: ReferenceIterator::new() }
    }

    /// Yield the next reference type, or `None` once all were yielded.
    pub fn next(&mut self) -> (r: Option<ReferenceType>)
        ensures
            old(self).remaining().len() == 0 ==> r.is_none() && final(self).remaining() == old(
                self,
            ).remaining(),
            old(self).remaining().len() > 0 ==> r == Some(old(self).remaining()[0])
                && final(self).remaining() == old(self).remaining().drop_first(),
    {
        if let Some(r) = self.reference_iter.next() {
            let t = ReferenceType::from(r);
            assert(self.remaining() =~= old(self).remaining().drop_first());
            Some(t)
        } else {
            assert(self.remaining() =~= old(self).remaining());
            None
        }
    }
}

} // verus!
