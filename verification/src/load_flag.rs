use vstd::prelude::*;

verus! {

/// Every bit that some load flag uses: bits 0 to 7, 9 to 13, 15, the
/// render-target field in bits 16 to 18, and bit 20 (colour).
pub const ALL_LOAD_BITS: i32 = 0x0017_beff;

/// The flags handed to FreeType when a glyph is loaded, as a set of bits.
#[derive(Debug, Clone, Copy, PartialEq, Eq, Structural)]
pub struct LoadFlag {
    bits: i32,
}

impl LoadFlag {
    #[allow(non_snake_case)]
    pub fn DEFAULT() -> (f: LoadFlag)
        ensures
            f.spec_bits() == 0x0,
    {
        proof { lemma_named_flags_in_range(); }
        LoadFlag { bits: 0x0 }
    }
    #[allow(non_snake_case)]
    pub fn NO_SCALE() -> (f: LoadFlag)
        ensures
            f.spec_bits() == 0x1,
    {
        proof { lemma_named_flags_in_range(); }
        LoadFlag { bits: 0x1 }
    }
    #[allow(non_snake_case)]
    pub fn NO_HINTING() -> (f: LoadFlag)
        ensures
            f.spec_bits() == 0x2,
    {
        proof { lemma_named_flags_in_range(); }
        LoadFlag { bits: 0x2 }
    }
    #[allow(non_snake_case)]
    pub fn RENDER() -> (f: LoadFlag)
        ensures
            f.spec_bits() == 0x4,
    {
        proof { lemma_named_flags_in_range(); }
        LoadFlag { bits: 0x4 }
    }
    #[allow(non_snake_case)]
    pub fn NO_BITMAP() -> (f: LoadFlag)
        ensures
            f.spec_bits() == 0x8,
    {
        proof { lemma_named_flags_in_range(); }
        LoadFlag { bits: 0x8 }
    }
    #[allow(non_snake_case)]
    pub fn VERTICAL_LAYOUT() -> (f: LoadFlag)
        ensures
            f.spec_bits() == 0x10,
    {
        proof { lemma_named_flags_in_range(); }
        LoadFlag { bits: 0x10 }
    }
    #[allow(non_snake_case)]
    pub fn FORCE_AUTOHINT() -> (f: LoadFlag)
        ensures
            f.spec_bits() == 0x20,
    {
        proof { lemma_named_flags_in_range(); }
        LoadFlag { bits: 0x20 }
    }
    #[allow(non_snake_case)]
    pub fn CROP_BITMAP() -> (f: LoadFlag)
        ensures
            f.spec_bits() == 0x40,
    {
        proof { lemma_named_flags_in_range(); }
        LoadFlag { bits: 0x40 }
    }
    #[allow(non_snake_case)]
    pub fn PEDANTIC() -> (f: LoadFlag)
        ensures
            f.spec_bits() == 0x80,
    {
        proof { lemma_named_flags_in_range(); }
        LoadFlag { bits: 0x80 }
    }
    #[allow(non_snake_case)]
    pub fn IGNORE_GLOBAL_ADVANCE_WITH() -> (f: LoadFlag)
        ensures
            f.spec_bits() == 0x200,
    {
        proof { lemma_named_flags_in_range(); }
        LoadFlag { bits: 0x200 }
    }
    #[allow(non_snake_case)]
    pub fn NO_RECURSE() -> (f: LoadFlag)
        ensures
            f.spec_bits() == 0x400,
    {
        proof { lemma_named_flags_in_range(); }
        LoadFlag { bits: 0x400 }
    }
    #[allow(non_snake_case)]
    pub fn IGNORE_TRANSFORM() -> (f: LoadFlag)
        ensures
            f.spec_bits() == 0x800,
    {
        proof { lemma_named_flags_in_range(); }
        LoadFlag { bits: 0x800 }
    }
    #[allow(non_snake_case)]
    pub fn MONOCHROME() -> (f: LoadFlag)
        ensures
            f.spec_bits() == 0x1000,
    {
        proof { lemma_named_flags_in_range(); }
        LoadFlag { bits: 0x1000 }
    }
    #[allow(non_snake_case)]
    pub fn LINEAR_DESIGN() -> (f: LoadFlag)
        ensures
            f.spec_bits() == 0x2000,
    {
        proof { lemma_named_flags_in_range(); }
        LoadFlag { bits: 0x2000 }
    }
    #[allow(non_snake_case)]
    pub fn NO_AUTOHINT() -> (f: LoadFlag)
        ensures
            f.spec_bits() == 0x8000,
    {
        proof { lemma_named_flags_in_range(); }
        LoadFlag { bits: 0x8000 }
    }
    #[allow(non_snake_case)]
    pub fn TARGET_NORMAL() -> (f: LoadFlag)
        ensures
            f.spec_bits() == 0x0,
    {
        proof { lemma_named_flags_in_range(); }
        LoadFlag { bits: 0x0 }
    }
    #[allow(non_snake_case)]
    pub fn TARGET_LIGHT() -> (f: LoadFlag)
        ensures
            f.spec_bits() == 0x1_0000,
    {
        proof { lemma_named_flags_in_range(); }
        LoadFlag { bits: 0x1_0000 }
    }
    #[allow(non_snake_case)]
    pub fn TARGET_MONO() -> (f: LoadFlag)
        ensures
            f.spec_bits() == 0x2_0000,
    {
        proof { lemma_named_flags_in_range(); }
        LoadFlag { bits: 0x2_0000 }
    }
    #[allow(non_snake_case)]
    pub fn TARGET_LCD() -> (f: LoadFlag)
        ensures
            f.spec_bits() == 0x3_0000,
    {
        proof { lemma_named_flags_in_range(); }
        LoadFlag { bits: 0x3_0000 }
    }
    #[allow(non_snake_case)]
    pub fn TARGET_LCD_V() -> (f: LoadFlag)
        ensures
            f.spec_bits() == 0x4_0000,
    {
        proof { lemma_named_flags_in_range(); }
        LoadFlag { bits: 0x4_0000 }
    }
    #[allow(non_snake_case)]
    pub fn COLOR() -> (f: LoadFlag)
        ensures
            f.spec_bits() == 0x10_0000,
    {
        proof { lemma_named_flags_in_range(); }
        LoadFlag { bits: 0x10_0000 }
    }

    /// The bits of these flags.
    pub closed spec fn spec_bits(self) -> i32 {
        self.bits
    }

    /// Only bits that some flag uses are ever set.
    #[verifier::type_invariant]
    pub closed spec fn inv(self) -> bool {
        self.bits & !ALL_LOAD_BITS == 0
    }

    /// The bits of these flags, as FreeType takes them.
    pub fn bits(&self) -> (b: i32)
        ensures
            b == self.spec_bits(),
            b & !ALL_LOAD_BITS == 0,
    {
        proof {
            use_type_invariant(self);
        }
        self.bits
    }

    /// No flag set.
    pub fn empty() -> (f: LoadFlag)
        ensures
            f.spec_bits() == 0,
    {
        assert(0i32 & !ALL_LOAD_BITS == 0) by (bit_vector);
        LoadFlag { bits: 0 }
    }

    /// Every bit that some flag uses.
    pub fn all() -> (f: LoadFlag)
        ensures
            f.spec_bits() == ALL_LOAD_BITS,
    {
        assert(ALL_LOAD_BITS & !ALL_LOAD_BITS == 0) by (bit_vector);
        LoadFlag { bits: ALL_LOAD_BITS }
    }

    /// The flags with exactly these bits, or `None` where a bit is set that no
    /// flag uses.
    pub fn from_bits(bits: i32) -> (f: Option<LoadFlag>)
        ensures
            f is Some <==> bits & !ALL_LOAD_BITS == 0,
            f matches Some(g) ==> g.spec_bits() == bits,
    {
        if bits & !ALL_LOAD_BITS == 0 {
            Some(LoadFlag { bits })
        } else {
            None
        }
    }

    /// The flags with these bits, leaving out every bit that no flag uses.
    pub fn from_bits_truncate(bits: i32) -> (f: LoadFlag)
        ensures
            f.spec_bits() == bits & ALL_LOAD_BITS,
    {
        let b = bits & ALL_LOAD_BITS;
        assert(b & !ALL_LOAD_BITS == 0) by (bit_vector)
            requires
                b == bits & ALL_LOAD_BITS,
        ;
        LoadFlag { bits: b }
    }

    /// Whether no bit is set.
    pub fn is_empty(&self) -> (r: bool)
        ensures
            r == (self.spec_bits() == 0),
    {
        self.bits == 0
    }

    /// Whether every bit that some flag uses is set.
    pub fn is_all(&self) -> (r: bool)
        ensures
            r == (self.spec_bits() == ALL_LOAD_BITS),
    {
        self.bits == ALL_LOAD_BITS
    }

    /// Whether every bit of `other` is set here.
    pub fn contains(&self, other: LoadFlag) -> (r: bool)
        ensures
            r == (self.spec_bits() & other.spec_bits() == other.spec_bits()),
    {
        self.bits & other.bits == other.bits
    }

    /// Whether some bit is set both here and in `other`.
    pub fn intersects(&self, other: LoadFlag) -> (r: bool)
        ensures
            r == (self.spec_bits() & other.spec_bits() != 0),
    {
        self.bits & other.bits != 0
    }

    /// The bits set here or in `other`.
    pub fn union(self, other: LoadFlag) -> (f: LoadFlag)
        ensures
            f.spec_bits() == self.spec_bits() | other.spec_bits(),
    {
        proof {
            use_type_invariant(&self);
            use_type_invariant(&other);
        }
        let (a, b) = (self.bits, other.bits);
        assert((a | b) & !ALL_LOAD_BITS == 0) by (bit_vector)
            requires
                a & !ALL_LOAD_BITS == 0,
                b & !ALL_LOAD_BITS == 0,
        ;
        LoadFlag { bits: a | b }
    }

    /// The bits set both here and in `other`.
    pub fn intersection(self, other: LoadFlag) -> (f: LoadFlag)
        ensures
            f.spec_bits() == self.spec_bits() & other.spec_bits(),
    {
        proof {
            use_type_invariant(&self);
        }
        let (a, b) = (self.bits, other.bits);
        assert((a & b) & !ALL_LOAD_BITS == 0) by (bit_vector)
            requires
                a & !ALL_LOAD_BITS == 0,
        ;
        LoadFlag { bits: a & b }
    }

    /// The bits set here and not in `other`.
    pub fn difference(self, other: LoadFlag) -> (f: LoadFlag)
        ensures
            f.spec_bits() == self.spec_bits() & !other.spec_bits(),
    {
        proof {
            use_type_invariant(&self);
        }
        let (a, b) = (self.bits, other.bits);
        assert((a & !b) & !ALL_LOAD_BITS == 0) by (bit_vector)
            requires
                a & !ALL_LOAD_BITS == 0,
        ;
        LoadFlag { bits: a & !b }
    }

    /// Sets every bit of `other`.
    pub fn insert(&mut self, other: LoadFlag)
        ensures
            final(self).spec_bits() == old(self).spec_bits() | other.spec_bits(),
    {
        *self = self.union(other);
    }

    /// Clears every bit of `other`.
    pub fn remove(&mut self, other: LoadFlag)
        ensures
            final(self).spec_bits() == old(self).spec_bits() & !other.spec_bits(),
    {
        *self = self.difference(other);
    }
}

/// Each named flag only uses bits that some flag uses.
proof fn lemma_named_flags_in_range()
    by (bit_vector)
    ensures
        0x0i32 & !ALL_LOAD_BITS == 0,
        0x1i32 & !ALL_LOAD_BITS == 0,
        0x2i32 & !ALL_LOAD_BITS == 0,
        0x4i32 & !ALL_LOAD_BITS == 0,
        0x8i32 & !ALL_LOAD_BITS == 0,
        0x10i32 & !ALL_LOAD_BITS == 0,
        0x20i32 & !ALL_LOAD_BITS == 0,
        0x40i32 & !ALL_LOAD_BITS == 0,
        0x80i32 & !ALL_LOAD_BITS == 0,
        0x200i32 & !ALL_LOAD_BITS == 0,
        0x400i32 & !ALL_LOAD_BITS == 0,
        0x800i32 & !ALL_LOAD_BITS == 0,
        0x1000i32 & !ALL_LOAD_BITS == 0,
        0x2000i32 & !ALL_LOAD_BITS == 0,
        0x8000i32 & !ALL_LOAD_BITS == 0,
        0x1_0000i32 & !ALL_LOAD_BITS == 0,
        0x2_0000i32 & !ALL_LOAD_BITS == 0,
        0x3_0000i32 & !ALL_LOAD_BITS == 0,
        0x4_0000i32 & !ALL_LOAD_BITS == 0,
        0x10_0000i32 & !ALL_LOAD_BITS == 0,
{
}

/// After `insert`, the flags contain what was inserted, and every flag that
/// was set before is still set.
pub proof fn lemma_insert_contains(before: LoadFlag, other: LoadFlag)
    ensures
        (before.spec_bits() | other.spec_bits()) & other.spec_bits() == other.spec_bits(),
        (before.spec_bits() | other.spec_bits()) & before.spec_bits() == before.spec_bits(),
{
    let (b, o) = (before.spec_bits(), other.spec_bits());
    assert((b | o) & o == o && (b | o) & b == b) by (bit_vector);
}

/// After `remove`, no bit of what was removed is set, and every other bit
/// is kept.
pub proof fn lemma_remove_clears(before: LoadFlag, other: LoadFlag)
    ensures
        (before.spec_bits() & !other.spec_bits()) & other.spec_bits() == 0,
        (before.spec_bits() & !other.spec_bits()) | (before.spec_bits() & other.spec_bits())
            == before.spec_bits(),
{
    let (b, o) = (before.spec_bits(), other.spec_bits());
    assert((b & !o) & o == 0 && (b & !o) | (b & o) == b) by (bit_vector);
}

/// Union is commutative and leaves the empty set of flags alone.
pub proof fn lemma_union_laws(a: LoadFlag, b: LoadFlag)
    ensures
        a.spec_bits() | b.spec_bits() == b.spec_bits() | a.spec_bits(),
        a.spec_bits() | 0 == a.spec_bits(),
{
    let (x, y) = (a.spec_bits(), b.spec_bits());
    assert(x | y == y | x && x | 0 == x) by (bit_vector);
}

/// Flags are determined by their bits: two values with the same bits are
/// the same flags (so `from_bits(f.bits())` gives `f` back).
pub proof fn lemma_bits_determine_flags(f: LoadFlag, g: LoadFlag)
    requires
        f.spec_bits() == g.spec_bits(),
    ensures
        f == g,
{
}

} // verus!
