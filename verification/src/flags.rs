//! Sets of bit flags, each over a fixed set of known bits.

use vstd::prelude::*;
use core::marker::PhantomData;

verus! {

/// A family of flags: the bits it knows of.
pub trait FlagKind {
    /// Every bit that has a meaning in this family.
    spec fn spec_all_bits() -> u32;

    /// Returns every bit that has a meaning in this family.
    fn all_bits() -> (bits: u32)
        ensures
            bits == Self::spec_all_bits(),
    ;
}

/// A set of flags of the family `K`, stored as a bit mask that holds only known bits.
#[derive(Debug)]
pub struct Flags<K: FlagKind> {
    bits: u32,
    kind: PhantomData<K>,
}

impl<K: FlagKind> Clone for Flags<K> {
    fn clone(&self) -> (res: Self)
        ensures
            res == *self,
    {
        proof {
            use_type_invariant(self);
        }
        Flags { bits: self.bits, kind: PhantomData }
    }
}

impl<K: FlagKind> Copy for Flags<K> {
}

impl<K: FlagKind> Flags<K> {
    /// The bit mask of this set.
    pub closed spec fn spec_bits(self) -> u32 {
        self.bits
    }

    /// A set holds only bits that are known to its family.
    pub open spec fn wf(self) -> bool {
        self.spec_bits() & !K::spec_all_bits() == 0
    }

    /// Every set holds only known bits.
    #[verifier::type_invariant]
    pub(crate) open spec fn known_bits_only(self) -> bool {
        self.wf()
    }

    /// Returns the bit mask of this set.
    pub fn bits(&self) -> (bits: u32)
        ensures
            bits == self.spec_bits(),
            self.wf(),
    {
        proof {
            use_type_invariant(self);
        }
        self.bits
    }

    /// The empty set.
    pub fn empty() -> (f: Self)
        ensures
            f.spec_bits() == 0,
            f.wf(),
    {
        assert(0u32 & !K::spec_all_bits() == 0) by (bit_vector);
        Flags { bits: 0, kind: PhantomData }
    }

    /// The set of every known flag of the family.
    pub fn all_flags() -> (f: Self)
        ensures
            f.spec_bits() == K::spec_all_bits(),
            f.wf(),
    {
        let all = K::all_bits();
        assert(all & !all == 0) by (bit_vector);
        Flags { bits: all, kind: PhantomData }
    }

    /// Keeps the known bits of `bits` and drops the others.
    pub fn from_bits_truncate(bits: u32) -> (f: Self)
        ensures
            f.spec_bits() == bits & K::spec_all_bits(),
            f.wf(),
    {
        let all = K::all_bits();
        let b = bits & all;
        assert((bits & all) & !all == 0) by (bit_vector);
        Flags { bits: b, kind: PhantomData }
    }

    /// The set with the given bit mask, or `None` if it holds a bit unknown to the family.
    pub fn from_bits(bits: u32) -> (f: Option<Self>)
        ensures
            f is Some <==> bits & !K::spec_all_bits() == 0,
            f matches Some(s) ==> s.spec_bits() == bits,
    {
        let all = K::all_bits();
        if bits & !all == 0 {
            Some(Flags { bits, kind: PhantomData })
        } else {
            None
        }
    }

    /// Whether every bit of `other` is in this set.
    pub fn contains(&self, other: Self) -> (res: bool)
        ensures
            res == (self.spec_bits() & other.spec_bits() == other.spec_bits()),
    {
        self.bits & other.bits == other.bits
    }

    /// Whether this set and `other` share a bit.
    pub fn intersects(&self, other: Self) -> (res: bool)
        ensures
            res == (self.spec_bits() & other.spec_bits() != 0),
    {
        self.bits & other.bits != 0
    }

    /// The bits in either set.
    pub fn union(self, other: Self) -> (f: Self)
        ensures
            f.spec_bits() == self.spec_bits() | other.spec_bits(),
            f.wf(),
    {
        proof {
            use_type_invariant(&self);
            use_type_invariant(&other);
        }
        let a = self.bits;
        let b = other.bits;
        let ghost all = K::spec_all_bits();
        assert(a & !all == 0 && b & !all == 0 ==> (a | b) & !all == 0) by (bit_vector);
        Flags { bits: a | b, kind: PhantomData }
    }

    /// The bits in both sets.
    pub fn intersection(self, other: Self) -> (f: Self)
        ensures
            f.spec_bits() == self.spec_bits() & other.spec_bits(),
            f.wf(),
    {
        proof {
            use_type_invariant(&self);
        }
        let a = self.bits;
        let b = other.bits;
        let ghost all = K::spec_all_bits();
        assert(a & !all == 0 ==> (a & b) & !all == 0) by (bit_vector);
        Flags { bits: a & b, kind: PhantomData }
    }

    /// The bits of this set that are not in `other`.
    pub fn difference(self, other: Self) -> (f: Self)
        ensures
            f.spec_bits() == self.spec_bits() & !other.spec_bits(),
            f.wf(),
    {
        proof {
            use_type_invariant(&self);
        }
        let a = self.bits;
        let b = other.bits;
        let ghost all = K::spec_all_bits();
        assert(a & !all == 0 ==> (a & !b) & !all == 0) by (bit_vector);
        Flags { bits: a & !b, kind: PhantomData }
    }

    /// The bits in exactly one of the two sets.
    pub fn symmetric_difference(self, other: Self) -> (f: Self)
        ensures
            f.spec_bits() == self.spec_bits() ^ other.spec_bits(),
            f.wf(),
    {
        proof {
            use_type_invariant(&self);
            use_type_invariant(&other);
        }
        let a = self.bits;
        let b = other.bits;
        let ghost all = K::spec_all_bits();
        assert(a & !all == 0 && b & !all == 0 ==> (a ^ b) & !all == 0) by (bit_vector);
        Flags { bits: a ^ b, kind: PhantomData }
    }

    /// The known bits of the family that are not in this set.
    pub fn complement(self) -> (f: Self)
        ensures
            f.spec_bits() == !self.spec_bits() & K::spec_all_bits(),
            f.wf(),
    {
        let all = K::all_bits();
        let a = self.bits;
        assert((!a & all) & !all == 0) by (bit_vector);
        Flags { bits: !a & all, kind: PhantomData }
    }

    /// Adds the bits of `other` to this set.
    pub fn insert(&mut self, other: Self)
        ensures
            final(self).spec_bits() == old(self).spec_bits() | other.spec_bits(),
    {
        *self = self.union(other);
    }

    /// Removes the bits of `other` from this set.
    pub fn remove(&mut self, other: Self)
        ensures
            final(self).spec_bits() == old(self).spec_bits() & !other.spec_bits(),
    {
        *self = self.difference(other);
    }

    /// Flips the bits of `other` in this set.
    pub fn toggle(&mut self, other: Self)
        ensures
            final(self).spec_bits() == old(self).spec_bits() ^ other.spec_bits(),
    {
        *self = self.symmetric_difference(other);
    }

    /// Adds the bits of `other` to this set if `value` holds, else removes them.
    pub fn set(&mut self, other: Self, value: bool)
        ensures
            final(self).spec_bits() == if value {
                old(self).spec_bits() | other.spec_bits()
            } else {
                old(self).spec_bits() & !other.spec_bits()
            },
    {
        if value {
            self.insert(other);
        } else {
            self.remove(other);
        }
    }

    /// Whether this set holds no bit.
    pub fn is_empty(&self) -> (res: bool)
        ensures
            res == (self.spec_bits() == 0),
    {
        self.bits == 0
    }

    /// Whether this set holds every known flag of the family.
    pub fn is_all(&self) -> (res: bool)
        ensures
            res == (self.spec_bits() == K::spec_all_bits()),
    {
        self.bits == K::all_bits()
    }

    /// The set whose bit mask is the given one.
    pub closed spec fn from_known_bits_spec(bits: u32) -> Self {
        Flags { bits, kind: PhantomData }
    }

    /// The set made from a bit mask holds that bit mask.
    pub proof fn lemma_from_known_bits_spec(bits: u32)
        ensures
            Self::from_known_bits_spec(bits).spec_bits() == bits,
    {
    }

    /// Creates a set from bits that are all known to the family.
    pub(crate) fn from_known_bits(bits: u32) -> (f: Self)
        requires
            bits & !K::spec_all_bits() == 0,
        ensures
            f.spec_bits() == bits,
            f == Self::from_known_bits_spec(bits),
            f.wf(),
    {
        Flags { bits, kind: PhantomData }
    }
}

impl<K: FlagKind> PartialEq for Flags<K> {
    fn eq(&self, other: &Self) -> (res: bool) {
        self.bits == other.bits
    }
}

impl<K: FlagKind> Eq for Flags<K> {
}

impl<K: FlagKind> vstd::std_specs::cmp::PartialEqSpecImpl for Flags<K> {
    open spec fn obeys_eq_spec() -> bool {
        true
    }

    open spec fn eq_spec(&self, other: &Self) -> bool {
        self.spec_bits() == other.spec_bits()
    }
}

} // verus!
