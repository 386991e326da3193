use vstd::prelude::*;

verus! {

/// Integer lane widths.
#[derive(Debug, Clone, Copy, PartialEq, Eq, Hash, Structural)]
pub enum Int {
    /// An 8-bit integer.
    I8,
    /// A 16-bit integer.
    I16,
    /// A 32-bit integer.
    I32,
    /// A 64-bit integer.
    I64,
    /// A 128-bit integer.
    I128,
}

/// Floating-point lane widths (only the tag; no floating-point value is held).
#[derive(Debug, Clone, Copy, PartialEq, Eq, Hash, Structural)]
pub enum Float {
    /// The IEEE 754 binary32 format.
    F32,
    /// The IEEE 754 binary64 format.
    F64,
}

/// CPU flag types.
#[derive(Debug, Clone, Copy, PartialEq, Eq, Hash, Structural)]
pub enum Flag {
    /// CPU flags from an integer comparison.
    IFlags,
    /// CPU flags from a floating-point comparison.
    FFlags,
}

/// Reference widths.
#[derive(Debug, Clone, Copy, PartialEq, Eq, Hash, Structural)]
pub enum Reference {
    /// A 32-bit reference.
    R32,
    /// A 64-bit reference.
    R64,
}

impl Int {
    /// The width in bits of an integer of this kind.
    pub open spec fn spec_bits(self) -> u64 {
        match self {
            Int::I8 => 8,
            Int::I16 => 16,
            Int::I32 => 32,
            Int::I64 => 64,
            Int::I128 => 128,
        }
    }

    /// Return the width in bits.
    pub fn bits(&self) -> (r: u64)
        ensures
            r == self.spec_bits(),
    {
        match self {
            Int::I8 => 8,
            Int::I16 => 16,
            Int::I32 => 32,
            Int::I64 => 64,
            Int::I128 => 128,
        }
    }
}

impl Float {
    /// The width in bits of a float of this kind.
    pub open spec fn spec_bits(self) -> u64 {
        match self {
            Float::F32 => 32,
            Float::F64 => 64,
        }
    }

    /// Return the width in bits.
    pub fn bits(&self) -> (r: u64)
        ensures
            r == self.spec_bits(),
    {
        match self {
            Float::F32 => 32,
            Float::F64 => 64,
        }
    }
}

impl Reference {
    /// The width in bits of a reference of this kind.
    pub open spec fn spec_bits(self) -> u64 {
        match self {
            Reference::R32 => 32,
            Reference::R64 => 64,
        }
    }

    /// Return the width in bits.
    pub fn bits(&self) -> (r: u64)
        ensures
            r == self.spec_bits(),
    {
        match self {
            Reference::R32 => 32,
            Reference::R64 => 64,
        }
    }
}

/// Every integer kind, in the order the iterator yields them.
pub open spec fn all_ints() -> Seq<Int> {
    seq![Int::I8, Int::I16, Int::I32, Int::I64, Int::I128]
}

/// Every float kind, in the order the iterator yields them.
pub open spec fn all_floats() -> Seq<Float> {
    seq![Float::F32, Float::F64]
}

/// Every flag kind, in the order the iterator yields them.
pub open spec fn all_flags() -> Seq<Flag> {
    seq![Flag::IFlags, Flag::FFlags]
}

/// Every reference kind, in the order the iterator yields them.
pub open spec fn all_references() -> Seq<Reference> {
    seq![Reference::R32, Reference::R64]
}

/// What is left of `all` once `index` items were handed out.
pub open spec fn rest<T>(all: Seq<T>, index: int) -> Seq<T> {
    if index >= all.len() {
        Seq::empty()
    } else {
        all.subrange(index, all.len() as int)
    }
}

/// An iterator over the integer kinds, from the narrowest to the widest.
pub struct IntIterator {
    index: u8,
}

/// An iterator over the float kinds, from the narrowest to the widest.
pub struct FloatIterator {
    index: u8,
}

/// An iterator over the flag kinds.
pub struct FlagIterator {
    index: u8,
}

/// An iterator over the reference kinds, from the narrowest to the widest.
pub struct ReferenceIterator {
    index: u8,
}

impl IntIterator {
    /// The kinds this iterator has still to yield, in order.
    pub closed spec fn remaining(&self) -> Seq<Int> {
        rest(all_ints(), self.index as int)
    }

    /// Create an iterator over every integer kind.
    pub fn new() -> (it: Self)
        ensures
            it.remaining() == all_ints(),
    {
        let it = IntIterator { index: 0 };
        assert(it.remaining() =~= all_ints());
        it
    }

    /// Yield the next kind, or `None` once all were yielded.
    pub fn next(&mut self) -> (r: Option<Int>)
        ensures
            old(self).remaining().len() == 0 ==> r.is_none() && final(self).remaining() == old(
                self,
            ).remaining(),
            old(self).remaining().len() > 0 ==> r == Some(old(self).remaining()[0])
                && final(self).remaining() == old(self).remaining().drop_first(),
    {
        let r = match self.index {
            0 => Int::I8,
            1 => Int::I16,
            2 => Int::I32,
            3 => Int::I64,
            4 => Int::I128,
            _ => return None,
        };
        self.index = self.index + 1;
        assert(self.remaining() =~= old(self).remaining().drop_first());
        Some(r)
    }
}

impl FloatIterator {
    /// The kinds this iterator has still to yield, in order.
    pub closed spec fn remaining(&self) -> Seq<Float> {
        rest(all_floats(), self.index as int)
    }

    /// Create an iterator over every float kind.
    pub fn new() -> (it: Self)
        ensures
            it.remaining() == all_floats(),
    {
        let it = FloatIterator { index: 0 };
        assert(it.remaining() =~= all_floats());
        it
    }

    /// Yield the next kind, or `None` once all were yielded.
    pub fn next(&mut self) -> (r: Option<Float>)
        ensures
            old(self).remaining().len() == 0 ==> r.is_none() && final(self).remaining() == old(
                self,
            ).remaining(),
            old(self).remaining().len() > 0 ==> r == Some(old(self).remaining()[0])
                && final(self).remaining() == old(self).remaining().drop_first(),
    {
        let r = match self.index {
            0 => Float::F32,
            1 => Float::F64,
            _ => return None,
        };
        self.index = self.index + 1;
        assert(self.remaining() =~= old(self).remaining().drop_first());
        Some(r)
    }
}

impl FlagIterator {
    /// The kinds this iterator has still to yield, in order.
    pub closed spec fn remaining(&self) -> Seq<Flag> {
        rest(all_flags(), self.index as int)
    }

    /// Create an iterator over every flag kind.
    pub fn new() -> (it: Self)
        ensures
            it.remaining() == all_flags(),
    {
        let it = FlagIterator { index: 0 };
        assert(it.remaining() =~= all_flags());
        it
    }

    /// Yield the next kind, or `None` once all were yielded.
    pub fn next(&mut self) -> (r: Option<Flag>)
        ensures
            old(self).remaining().len() == 0 ==> r.is_none() && final(self).remaining() == old(
                self,
            ).remaining(),
            old(self).remaining().len() > 0 ==> r == Some(old(self).remaining()[0])
                && final(self).remaining() == old(self).remaining().drop_first(),
    {
        let r = match self.index {
            0 => Flag::IFlags,
            1 => Flag::FFlags,
            _ => return None,
        };
        self.index = self.index + 1;
        assert(self.remaining() =~= old(self).remaining().drop_first());
        Some(r)
    }
}

impl ReferenceIterator {
    /// The kinds this iterator has still to yield, in order.
    pub closed spec fn remaining(&self) -> Seq<Reference> {
        rest(all_references(), self.index as int)
    }

    /// Create an iterator over every reference kind.
    pub fn new() -> (it: Self)
        ensures
            it.remaining() == all_references(),
    {
        let it = ReferenceIterator { index: 0 };
        assert(it.remaining() =~= all_references());
        it
    }

    /// Yield the next kind, or `None` once all were yielded.
    pub fn next(&mut self) -> (r: Option<Reference>)
        ensures
            old(self).remaining().len() == 0 ==> r.is_none() && final(self).remaining() == old(
                self,
            ).remaining(),
            old(self).remaining().len() > 0 ==> r == Some(old(self).remaining()[0])
                && final(self).remaining() == old(self).remaining().drop_first(),
    {
        let r = match self.index {
            0 => Reference::R32,
            1 => Reference::R64,
            _ => return None,
        };
        self.index = self.index + 1;
        assert(self.remaining() =~= old(self).remaining().drop_first());
        Some(r)
    }
}

} // verus!
