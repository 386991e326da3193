use vstd::prelude::*;

use crate::shared::{all_flags, Flag, FlagIterator};
use crate::text::{cased, upper};

verus! {

/// A concrete scalar type that is neither a vector nor a lane type.
///
/// Special types cannot be used to form vectors.
#[derive(Clone, Copy, PartialEq, Eq, Hash, Structural)]
pub enum SpecialType {
    /// A CPU flags type.
    Flag(Flag),
}

/// Every special type, in the order that `ValueType::all_special_types` yields them.
pub open spec fn all_special_types_seq() -> Seq<SpecialType> {
    all_flags().map_values(|f: Flag| SpecialType::Flag(f))
}

impl SpecialType {
    /// The number of bits in a lane: none.
    pub open spec fn spec_lane_bits(self) -> u64 {
        0
    }

    /// The unique number of this special type.
    pub open spec fn spec_number(self) -> u16 {
        match self {
            SpecialType::Flag(Flag::IFlags) => 1,
            SpecialType::Flag(Flag::FFlags) => 2,
        }
    }

    /// The name: `iflags` or `fflags`.
    pub open spec fn spec_name(self) -> Seq<char> {
        match self {
            SpecialType::Flag(Flag::IFlags) => seq!['i', 'f', 'l', 'a', 'g', 's'],
            SpecialType::Flag(Flag::FFlags) => seq!['f', 'f', 'l', 'a', 'g', 's'],
        }
    }

    /// The debugging form, such as `FlagsType(iflags)`.
    pub open spec fn spec_debug(self) -> Seq<char> {
        "FlagsType("@ + self.spec_name() + ")"@
    }

    /// The documentation comment.
    pub open spec fn spec_doc(self) -> Seq<char> {
        match self {
            SpecialType::Flag(Flag::IFlags) => "CPU flags representing the result of an integer comparison. These flags\n                can be tested with an :type:`intcc` condition code."@,
            SpecialType::Flag(Flag::FFlags) => "CPU flags representing the result of a floating point comparison. These\n                flags can be tested with a :type:`floatcc` condition code."@,
        }
    }

    /// Return a string containing the documentation comment for this special type.
    pub fn doc(self) -> (r: String)
        ensures
            r@ == self.spec_doc(),
    {
        match self {
            SpecialType::Flag(Flag::IFlags) => String::from_str(
                "CPU flags representing the result of an integer comparison. These flags\n                can be tested with an :type:`intcc` condition code.",
            ),
            SpecialType::Flag(Flag::FFlags) => String::from_str(
                "CPU flags representing the result of a floating point comparison. These\n                flags can be tested with a :type:`floatcc` condition code.",
            ),
        }
    }

    /// Return the number of bits in a lane.
    pub fn lane_bits(self) -> (r: u64)
        ensures
            r == self.spec_lane_bits(),
    {
        match self {
            SpecialType::Flag(_) => 0,
        }
    }

    /// Find the unique number associated with this special type.
    pub fn number(self) -> (r: u16)
        ensures
            r == self.spec_number(),
    {
        match self {
            SpecialType::Flag(Flag::IFlags) => 1,
            SpecialType::Flag(Flag::FFlags) => 2,
        }
    }

    /// Append the name of this special type to `s`, upper case when `up` holds.
    pub(crate) fn push_name(self, s: &mut String, up: bool)
        ensures
            final(s)@ == old(s)@ + cased(self.spec_name(), up),
    {
        let ghost start = s@;
        match self {
            SpecialType::Flag(Flag::IFlags) => {
                if up {
                    proof { reveal_strlit("IFLAGS"); }
                    s.append("IFLAGS");
                } else {
                    proof { reveal_strlit("iflags"); }
                    s.append("iflags");
                }
            },
            SpecialType::Flag(Flag::FFlags) => {
                if up {
                    proof { reveal_strlit("FFLAGS"); }
                    s.append("FFLAGS");
                } else {
                    proof { reveal_strlit("fflags"); }
                    s.append("fflags");
                }
            },
        }
        proof {
            assert(upper(seq!['i', 'f', 'l', 'a', 'g', 's']) =~= seq!['I', 'F', 'L', 'A', 'G', 'S']);
            assert(upper(seq!['f', 'f', 'l', 'a', 'g', 's']) =~= seq!['F', 'F', 'L', 'A', 'G', 'S']);
            assert(s@ =~= start + cased(self.spec_name(), up));
        }
    }

    /// The name of this special type: `iflags` or `fflags`.
    pub fn to_string(self) -> (r: String)
        ensures
            r@ == self.spec_name(),
    {
        let mut s = String::new();
        self.push_name(&mut s, false);
        s
    }

    /// The debugging form, such as `FlagsType(iflags)`.
    pub fn debug_string(self) -> (r: String)
        ensures
            r@ == self.spec_debug(),
    {
        let mut s = String::new();
        s.append("FlagsType(");
        self.push_name(&mut s, false);
        s.append(")");
        s
    }
}

/// Create a SpecialType from a given flag variant.
impl From<Flag> for SpecialType {
    fn from(f: Flag) -> (r: Self) {
        SpecialType::Flag(f)
    }
}

impl vstd::std_specs::convert::FromSpecImpl<Flag> for SpecialType {
    open spec fn obeys_from_spec() -> bool {
        true
    }

    open spec fn from_spec(f: Flag) -> Self {
        SpecialType::Flag(f)
    }
}

/// An iterator over the special types.
pub struct SpecialTypeIterator {
    flag_iter: FlagIterator,
}

impl SpecialTypeIterator {
    /// The special types this iterator has still to yield, in order.
    pub closed spec fn remaining(&self) -> Seq<SpecialType> {
        self.flag_iter.remaining().map_values(|f: Flag| SpecialType::Flag(f))
    }

    /// Create a new special type iterator.
    pub fn new() -> (it: Self)
        ensures
            it.remaining() == all_special_types_seq(),
    {
        Self { flag_iter: FlagIterator::new() }
    }

    /// Yield the next special type, or `None` once all were yielded.
    pub fn next(&mut self) -> (r: Option<SpecialType>)
        ensures
            old(self).remaining().len() == 0 ==> r.is_none() && final(self).remaining() == old(
                self,
            ).remaining(),
            old(self).remaining().len() > 0 ==> r == Some(old(self).remaining()[0])
                && final(self).remaining() == old(self).remaining().drop_first(),
    {
        match self.flag_iter.next() {
            Some(f) => {
                let r = SpecialType::from(f);
                assert(self.remaining() =~= old(self).remaining().drop_first());
                Some(r)
            },
            None => {
                assert(self.remaining() =~= old(self).remaining());
                None
            },
        }
    }
}

} // verus!
