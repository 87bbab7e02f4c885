//! The roles a package name can play, and sets of such roles.

use vstd::prelude::*;

verus! {

/// One purpose that a name given to a package serves.
#[derive(Clone, Copy, Debug, PartialEq, Eq, Structural)]
pub enum NameRole {
    /// The name of the source package.
    SrcName,
    /// The name of the single binary package.
    BinName,
    /// The name under which the package is tracked.
    TrackName,
    /// The name shown to people.
    DisplayName,
    /// The name from which the project the package belongs to is derived.
    ProjectNameSeed,
}

impl NameRole {
    /// The bit that stands for the role in the mask of a [`NameType`].
    pub open spec fn bit(self) -> u32 {
        match self {
            NameRole::SrcName => 1,
            NameRole::BinName => 2,
            NameRole::TrackName => 4,
            NameRole::DisplayName => 8,
            NameRole::ProjectNameSeed => 16,
        }
    }
}

/// Mask with the bits of all roles set.
pub const ALL_ROLE_BITS: u32 = 0x1f;

/// A set of name roles, kept as a bit mask.
///
/// Its view is the mathematical set of the roles whose bits are set. No bit
/// outside [`ALL_ROLE_BITS`] is ever set.
#[derive(Clone, Copy, Debug, PartialEq, Eq, Structural)]
pub struct NameType {
    bits: u32,
}

impl View for NameType {
    type V = Set<NameRole>;

    closed spec fn view(&self) -> Set<NameRole> {
        Set::new(|role: NameRole| self.bits & role.bit() != 0)
    }
}

/// Where `inner` has role bits only, a mask that has every role bit that
/// `inner` has, has all of `inner`.
proof fn lemma_mask_covers(outer: u32, inner: u32)
    requires
        inner <= ALL_ROLE_BITS,
        inner & 1 != 0 ==> outer & 1 != 0,
        inner & 2 != 0 ==> outer & 2 != 0,
        inner & 4 != 0 ==> outer & 4 != 0,
        inner & 8 != 0 ==> outer & 8 != 0,
        inner & 16 != 0 ==> outer & 16 != 0,
    ensures
        outer & inner == inner,
{
    assert(outer & inner == inner) by (bit_vector)
        requires
            inner <= 0x1fu32,
            inner & 1 != 0 ==> outer & 1 != 0,
            inner & 2 != 0 ==> outer & 2 != 0,
            inner & 4 != 0 ==> outer & 4 != 0,
            inner & 8 != 0 ==> outer & 8 != 0,
            inner & 16 != 0 ==> outer & 16 != 0,
    ;
}

/// A set holds the set of one role exactly where it holds that role.
pub proof fn lemma_single_role_included(roles: Set<NameRole>)
    ensures
        forall|role: NameRole| #[trigger] set![role].subset_of(roles) == roles.contains(role),
{
    assert forall|role: NameRole| #[trigger] set![role].subset_of(roles) == roles.contains(
        role,
    ) by {
        assert(set![role].contains(role));
    }
}

impl NameType {
    #[verifier::type_invariant]
    spec fn known_bits_only(self) -> bool {
        self.bits <= ALL_ROLE_BITS
    }

    /// The mask that stands for a set of roles.
    pub open spec fn mask_of(roles: Set<NameRole>) -> u32 {
        (if roles.contains(NameRole::SrcName) { 1u32 } else { 0u32 })
        | (if roles.contains(NameRole::BinName) { 2u32 } else { 0u32 })
        | (if roles.contains(NameRole::TrackName) { 4u32 } else { 0u32 })
        | (if roles.contains(NameRole::DisplayName) { 8u32 } else { 0u32 })
        | (if roles.contains(NameRole::ProjectNameSeed) { 16u32 } else { 0u32 })
    }

    /// The set that holds the source name role alone.
    #[allow(non_snake_case)]
    pub fn SrcName() -> (flags: NameType)
        ensures
            flags@ == set![NameRole::SrcName],
    {
        let flags = NameType { bits: 1 };
        proof {
            Self::lemma_single(flags, NameRole::SrcName);
        }
        flags
    }

    /// The set that holds the binary name role alone.
    #[allow(non_snake_case)]
    pub fn BinName() -> (flags: NameType)
        ensures
            flags@ == set![NameRole::BinName],
    {
        let flags = NameType { bits: 2 };
        proof {
            Self::lemma_single(flags, NameRole::BinName);
        }
        flags
    }

    /// The set that holds the tracking name role alone.
    #[allow(non_snake_case)]
    pub fn TrackName() -> (flags: NameType)
        ensures
            flags@ == set![NameRole::TrackName],
    {
        let flags = NameType { bits: 4 };
        proof {
            Self::lemma_single(flags, NameRole::TrackName);
        }
        flags
    }

    /// The set that holds the display name role alone.
    #[allow(non_snake_case)]
    pub fn DisplayName() -> (flags: NameType)
        ensures
            flags@ == set![NameRole::DisplayName],
    {
        let flags = NameType { bits: 8 };
        proof {
            Self::lemma_single(flags, NameRole::DisplayName);
        }
        flags
    }

    /// The set that holds the project name seed role alone.
    #[allow(non_snake_case)]
    pub fn ProjectNameSeed() -> (flags: NameType)
        ensures
            flags@ == set![NameRole::ProjectNameSeed],
    {
        let flags = NameType { bits: 16 };
        proof {
            Self::lemma_single(flags, NameRole::ProjectNameSeed);
        }
        flags
    }

    /// The set without any role.
    pub fn empty() -> (flags: NameType)
        ensures
            flags@ == Set::<NameRole>::empty(),
    {
        let flags = NameType { bits: 0 };
        proof {
            assert forall|role: NameRole| !flags@.contains(role) by {
                let bit = role.bit();
                assert(0u32 & bit == 0) by (bit_vector);
            }
            assert(flags@ =~= Set::<NameRole>::empty());
        }
        flags
    }

    /// The set of all five roles.
    pub fn all() -> (flags: NameType)
        ensures
            flags@ == Set::<NameRole>::full(),
    {
        let flags = NameType { bits: ALL_ROLE_BITS };
        proof {
            assert forall|role: NameRole| flags@.contains(role) by {
                assert(0x1fu32 & 1 != 0 && 0x1fu32 & 2 != 0 && 0x1fu32 & 4 != 0 && 0x1fu32 & 8 != 0
                    && 0x1fu32 & 16 != 0) by (bit_vector);
            }
            assert(flags@ =~= Set::<NameRole>::full());
        }
        flags
    }

    /// The mask of the set, one bit for each role in it.
    pub fn bits(&self) -> (mask: u32)
        ensures
            mask == Self::mask_of(self@),
            mask <= ALL_ROLE_BITS,
    {
        proof {
            use_type_invariant(self);
            Self::lemma_mask_of_view(*self);
        }
        self.bits
    }

    /// The set for a mask, where the mask holds no bit but those of the five
    /// roles.
    pub fn from_bits(mask: u32) -> (flags: Option<NameType>)
        ensures
            flags is Some <==> mask <= ALL_ROLE_BITS,
            flags matches Some(f) ==> Self::mask_of(f@) == mask,
    {
        if mask <= ALL_ROLE_BITS {
            let flags = NameType { bits: mask };
            proof {
                Self::lemma_mask_of_view(flags);
            }
            Some(flags)
        } else {
            None
        }
    }

    /// Whether the set holds no role.
    pub fn is_empty(&self) -> (none: bool)
        ensures
            none == (self@ == Set::<NameRole>::empty()),
    {
        proof {
            use_type_invariant(self);
            let bits = self.bits;
            if bits == 0 {
                assert forall|role: NameRole| !self@.contains(role) by {
                    let bit = role.bit();
                    assert(0u32 & bit == 0) by (bit_vector);
                }
                assert(self@ =~= Set::<NameRole>::empty());
            } else {
                assert(bits & 1 != 0 || bits & 2 != 0 || bits & 4 != 0 || bits & 8 != 0 || bits
                    & 16 != 0) by (bit_vector)
                    requires
                        bits != 0,
                        bits <= 0x1fu32,
                ;
                assert(self@.contains(NameRole::SrcName) || self@.contains(NameRole::BinName)
                    || self@.contains(NameRole::TrackName) || self@.contains(
                    NameRole::DisplayName,
                ) || self@.contains(NameRole::ProjectNameSeed));
            }
        }
        self.bits == 0
    }

    /// Whether every role of `other` is in the set.
    pub fn contains(&self, other: NameType) -> (included: bool)
        ensures
            included == other@.subset_of(self@),
    {
        proof {
            use_type_invariant(self);
            use_type_invariant(&other);
            let outer = self.bits;
            let inner = other.bits;
            if outer & inner == inner {
                assert forall|role: NameRole| other@.contains(role) implies self@.contains(
                    role,
                ) by {
                    let bit = role.bit();
                    assert(outer & bit != 0) by (bit_vector)
                        requires
                            outer & inner == inner,
                            inner & bit != 0,
                    ;
                }
            }
            if other@.subset_of(self@) {
                assert(other@.contains(NameRole::SrcName) ==> self@.contains(NameRole::SrcName));
                assert(other@.contains(NameRole::BinName) ==> self@.contains(NameRole::BinName));
                assert(other@.contains(NameRole::TrackName) ==> self@.contains(
                    NameRole::TrackName,
                ));
                assert(other@.contains(NameRole::DisplayName) ==> self@.contains(
                    NameRole::DisplayName,
                ));
                assert(other@.contains(NameRole::ProjectNameSeed) ==> self@.contains(
                    NameRole::ProjectNameSeed,
                ));
                lemma_mask_covers(outer, inner);
            }
        }
        self.bits & other.bits == other.bits
    }

    /// The roles that are in either set.
    pub fn union(self, other: NameType) -> (both: NameType)
        ensures
            both@ == self@.union(other@),
    {
        proof {
            use_type_invariant(&self);
            use_type_invariant(&other);
        }
        let left = self.bits;
        let right = other.bits;
        assert(left | right <= 0x1fu32) by (bit_vector)
            requires
                left <= 0x1fu32,
                right <= 0x1fu32,
        ;
        let both = NameType { bits: left | right };
        proof {
            assert forall|role: NameRole|
                both@.contains(role) == (self@.contains(role) || other@.contains(role)) by {
                let bit = role.bit();
                assert(((left | right) & bit != 0) == (left & bit != 0 || right & bit != 0))
                    by (bit_vector);
            }
            assert(both@ =~= self@.union(other@));
        }
        both
    }

    /// A mask of one role's bit stands for the set of that role.
    proof fn lemma_single(flags: NameType, role: NameRole)
        requires
            flags.bits == role.bit(),
        ensures
            flags@ == set![role],
    {
        assert forall|other: NameRole| flags@.contains(other) == (other == role) by {
            assert(1u32 & 1 != 0 && 1u32 & 2 == 0 && 1u32 & 4 == 0 && 1u32 & 8 == 0 && 1u32 & 16
                == 0) by (bit_vector);
            assert(2u32 & 1 == 0 && 2u32 & 2 != 0 && 2u32 & 4 == 0 && 2u32 & 8 == 0 && 2u32 & 16
                == 0) by (bit_vector);
            assert(4u32 & 1 == 0 && 4u32 & 2 == 0 && 4u32 & 4 != 0 && 4u32 & 8 == 0 && 4u32 & 16
                == 0) by (bit_vector);
            assert(8u32 & 1 == 0 && 8u32 & 2 == 0 && 8u32 & 4 == 0 && 8u32 & 8 != 0 && 8u32 & 16
                == 0) by (bit_vector);
            assert(16u32 & 1 == 0 && 16u32 & 2 == 0 && 16u32 & 4 == 0 && 16u32 & 8 == 0 && 16u32
                & 16 != 0) by (bit_vector);
        }
        assert(flags@ =~= set![role]);
    }

    /// The mask of a set is the mask computed from its view.
    proof fn lemma_mask_of_view(flags: NameType)
        requires
            flags.bits <= ALL_ROLE_BITS,
        ensures
            Self::mask_of(flags@) == flags.bits,
    {
        let bits = flags.bits;
        let b0 = if bits & 1 != 0 { 1u32 } else { 0u32 };
        let b1 = if bits & 2 != 0 { 2u32 } else { 0u32 };
        let b2 = if bits & 4 != 0 { 4u32 } else { 0u32 };
        let b3 = if bits & 8 != 0 { 8u32 } else { 0u32 };
        let b4 = if bits & 16 != 0 { 16u32 } else { 0u32 };
        assert(flags@.contains(NameRole::SrcName) == (bits & 1 != 0));
        assert(flags@.contains(NameRole::BinName) == (bits & 2 != 0));
        assert(flags@.contains(NameRole::TrackName) == (bits & 4 != 0));
        assert(flags@.contains(NameRole::DisplayName) == (bits & 8 != 0));
        assert(flags@.contains(NameRole::ProjectNameSeed) == (bits & 16 != 0));
        assert(b0 | b1 | b2 | b3 | b4 == bits) by (bit_vector)
            requires
                bits <= 0x1fu32,
                b0 == (if bits & 1 != 0 { 1u32 } else { 0u32 }),
                b1 == (if bits & 2 != 0 { 2u32 } else { 0u32 }),
                b2 == (if bits & 4 != 0 { 4u32 } else { 0u32 }),
                b3 == (if bits & 8 != 0 { 8u32 } else { 0u32 }),
                b4 == (if bits & 16 != 0 { 16u32 } else { 0u32 }),
        ;
    }
}

} // verus!
