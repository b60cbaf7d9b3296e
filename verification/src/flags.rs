//! Option and capability bit sets.
//!
//! Each set is a 64-bit mask in which only the bits that the kernel defines
//! for it can be set. The view of a set is that mask.

use vstd::prelude::*;
use vstd::string::*;
use crate::defines::{
    UFFDIO_COPY_MODE_DONTWAKE, UFFDIO_REGISTER_MODE_MISSING, UFFDIO_REGISTER_MODE_WP,
    UFFDIO_ZEROPAGE_MODE_DONTWAKE, UFFD_API_IOCTLS, UFFD_API_RANGE_IOCTLS,
    UFFD_API_RANGE_IOCTLS_BASIC, _UFFDIO_API, _UFFDIO_COPY, _UFFDIO_REGISTER, _UFFDIO_UNREGISTER,
    _UFFDIO_WAKE, _UFFDIO_ZEROPAGE,
};

verus! {

/// Masks of the single operations in an available-operations set.
pub const IOCTL_API: u64 = 0x8000_0000_0000_0000;

pub const IOCTL_REGISTER: u64 = 0x01;

pub const IOCTL_UNREGISTER: u64 = 0x02;

pub const IOCTL_WAKE: u64 = 0x04;

pub const IOCTL_COPY: u64 = 0x08;

pub const IOCTL_ZEROPAGE: u64 = 0x10;

/// Every bit that a set of the kind can hold.
pub const REGISTER_MODE_ALL: u64 = 0x03;

pub const COPY_MODE_ALL: u64 = 0x01;

pub const ZEROPAGE_MODE_ALL: u64 = 0x01;

pub const IOCTLS_ALL: u64 = 0x8000_0000_0000_001F;

/// `a` holds every bit of `b`.
pub open spec fn includes(a: u64, b: u64) -> bool {
    a & b == b
}

proof fn lemma_mask(b: u64, all: u64)
    ensures
        (b & all) & !all == 0,
        0u64 & !all == 0,
        all & !all == 0,
{
    assert((b & all) & !all == 0) by (bit_vector);
    assert(0u64 & !all == 0) by (bit_vector);
    assert(all & !all == 0) by (bit_vector);
}

proof fn lemma_within(a: u64, b: u64, all: u64)
    requires
        a & !all == 0,
    ensures
        (a & b) & !all == 0,
        b & !all == 0 ==> (a | b) & !all == 0,
{
    assert((a & b) & !all == 0) by (bit_vector)
        requires
            a & !all == 0,
    ;
    assert(b & !all == 0 ==> (a | b) & !all == 0) by (bit_vector)
        requires
            a & !all == 0,
    ;
}

/// Which faults of a registered range are reported.
#[derive(Clone, Copy, Debug, PartialEq, Eq, Hash, Structural)]
pub struct RegisterMode {
    bits: u64,
}

impl View for RegisterMode {
    type V = u64;

    closed spec fn view(&self) -> u64 {
        self.bits
    }
}

impl RegisterMode {
    #[verifier::type_invariant]
    spec fn within(self) -> bool {
        self.bits & !REGISTER_MODE_ALL == 0
    }

    /// The set without a member.
    pub fn empty() -> (r: Self)
        ensures
            r@ == 0,
    {
        proof {
            lemma_mask(0, REGISTER_MODE_ALL);
        }
        RegisterMode { bits: 0 }
    }

    /// The set of every member that the kernel defines.
    pub fn all() -> (r: Self)
        ensures
            r@ == REGISTER_MODE_ALL,
    {
        proof {
            lemma_mask(0, REGISTER_MODE_ALL);
        }
        RegisterMode { bits: REGISTER_MODE_ALL }
    }

    /// Track faults on pages that have no content yet.
    pub fn missing() -> (r: Self)
        ensures
            r@ == UFFDIO_REGISTER_MODE_MISSING,
    {
        assert(UFFDIO_REGISTER_MODE_MISSING & !REGISTER_MODE_ALL == 0) by (bit_vector);
        RegisterMode { bits: UFFDIO_REGISTER_MODE_MISSING }
    }

    /// Track faults on write-protected pages.
    pub fn wp() -> (r: Self)
        ensures
            r@ == UFFDIO_REGISTER_MODE_WP,
    {
        assert(UFFDIO_REGISTER_MODE_WP & !REGISTER_MODE_ALL == 0) by (bit_vector);
        RegisterMode { bits: UFFDIO_REGISTER_MODE_WP }
    }

    /// The mask of the set; no bit outside the defined ones is ever set in it.
    pub fn bits(&self) -> (bits: u64)
        ensures
            bits == self@,
            bits & !REGISTER_MODE_ALL == 0,
    {
        proof {
            use_type_invariant(self);
        }
        self.bits
    }

    /// The set with the mask `bits`, if `bits` holds defined bits only.
    pub fn from_bits(bits: u64) -> (r: Option<Self>)
        ensures
            r is Some <==> bits & !REGISTER_MODE_ALL == 0,
            r matches Some(set) ==> set@ == bits,
    {
        if bits & !REGISTER_MODE_ALL == 0 {
            Some(RegisterMode { bits })
        } else {
            None
        }
    }

    /// The set of the defined bits of `bits`; the others are dropped.
    pub fn from_bits_truncate(bits: u64) -> (r: Self)
        ensures
            r@ == bits & REGISTER_MODE_ALL,
    {
        proof {
            lemma_mask(bits, REGISTER_MODE_ALL);
        }
        RegisterMode { bits: bits & REGISTER_MODE_ALL }
    }

    pub fn is_empty(&self) -> (r: bool)
        ensures
            r == (self@ == 0),
    {
        self.bits == 0
    }

    /// Whether every member of `other` is a member of this set.
    pub fn contains(&self, other: Self) -> (r: bool)
        ensures
            r == includes(self@, other@),
    {
        self.bits & other.bits == other.bits
    }

    /// The members of either set.
    pub fn union(self, other: Self) -> (r: Self)
        ensures
            r@ == self@ | other@,
    {
        proof {
            use_type_invariant(self);
            use_type_invariant(other);
            lemma_within(self.bits, other.bits, REGISTER_MODE_ALL);
        }
        RegisterMode { bits: self.bits | other.bits }
    }

    /// The members of both sets.
    pub fn intersection(self, other: Self) -> (r: Self)
        ensures
            r@ == self@ & other@,
    {
        proof {
            use_type_invariant(self);
            lemma_within(self.bits, other.bits, REGISTER_MODE_ALL);
        }
        RegisterMode { bits: self.bits & other.bits }
    }
}

/// Options of a copy.
#[derive(Clone, Copy, Debug, PartialEq, Eq, Hash, Structural)]
pub struct CopyMode {
    bits: u64,
}

impl View for CopyMode {
    type V = u64;

    closed spec fn view(&self) -> u64 {
        self.bits
    }
}

impl CopyMode {
    #[verifier::type_invariant]
    spec fn within(self) -> bool {
        self.bits & !COPY_MODE_ALL == 0
    }

    /// The set without a member.
    pub fn empty() -> (r: Self)
        ensures
            r@ == 0,
    {
        proof {
            lemma_mask(0, COPY_MODE_ALL);
        }
        CopyMode { bits: 0 }
    }

    /// The set of every member that the kernel defines.
    pub fn all() -> (r: Self)
        ensures
            r@ == COPY_MODE_ALL,
    {
        proof {
            lemma_mask(0, COPY_MODE_ALL);
        }
        CopyMode { bits: COPY_MODE_ALL }
    }

    /// Leave the faulting thread blocked until an explicit wake.
    pub fn dontwake() -> (r: Self)
        ensures
            r@ == UFFDIO_COPY_MODE_DONTWAKE,
    {
        assert(UFFDIO_COPY_MODE_DONTWAKE & !COPY_MODE_ALL == 0) by (bit_vector);
        CopyMode { bits: UFFDIO_COPY_MODE_DONTWAKE }
    }

    /// The mask of the set; no bit outside the defined ones is ever set in it.
    pub fn bits(&self) -> (bits: u64)
        ensures
            bits == self@,
            bits & !COPY_MODE_ALL == 0,
    {
        proof {
            use_type_invariant(self);
        }
        self.bits
    }

    /// The set with the mask `bits`, if `bits` holds defined bits only.
    pub fn from_bits(bits: u64) -> (r: Option<Self>)
        ensures
            r is Some <==> bits & !COPY_MODE_ALL == 0,
            r matches Some(set) ==> set@ == bits,
    {
        if bits & !COPY_MODE_ALL == 0 {
            Some(CopyMode { bits })
        } else {
            None
        }
    }

    /// The set of the defined bits of `bits`; the others are dropped.
    pub fn from_bits_truncate(bits: u64) -> (r: Self)
        ensures
            r@ == bits & COPY_MODE_ALL,
    {
        proof {
            lemma_mask(bits, COPY_MODE_ALL);
        }
        CopyMode { bits: bits & COPY_MODE_ALL }
    }

    pub fn is_empty(&self) -> (r: bool)
        ensures
            r == (self@ == 0),
    {
        self.bits == 0
    }

    /// Whether every member of `other` is a member of this set.
    pub fn contains(&self, other: Self) -> (r: bool)
        ensures
            r == includes(self@, other@),
    {
        self.bits & other.bits == other.bits
    }

    /// The members of either set.
    pub fn union(self, other: Self) -> (r: Self)
        ensures
            r@ == self@ | other@,
    {
        proof {
            use_type_invariant(self);
            use_type_invariant(other);
            lemma_within(self.bits, other.bits, COPY_MODE_ALL);
        }
        CopyMode { bits: self.bits | other.bits }
    }

    /// The members of both sets.
    pub fn intersection(self, other: Self) -> (r: Self)
        ensures
            r@ == self@ & other@,
    {
        proof {
            use_type_invariant(self);
            lemma_within(self.bits, other.bits, COPY_MODE_ALL);
        }
        CopyMode { bits: self.bits & other.bits }
    }
}

/// Options of a zero-fill.
#[derive(Clone, Copy, Debug, PartialEq, Eq, Hash, Structural)]
pub struct ZeropageMode {
    bits: u64,
}

impl View for ZeropageMode {
    type V = u64;

    closed spec fn view(&self) -> u64 {
        self.bits
    }
}

impl ZeropageMode {
    #[verifier::type_invariant]
    spec fn within(self) -> bool {
        self.bits & !ZEROPAGE_MODE_ALL == 0
    }

    /// The set without a member.
    pub fn empty() -> (r: Self)
        ensures
            r@ == 0,
    {
        proof {
            lemma_mask(0, ZEROPAGE_MODE_ALL);
        }
        ZeropageMode { bits: 0 }
    }

    /// The set of every member that the kernel defines.
    pub fn all() -> (r: Self)
        ensures
            r@ == ZEROPAGE_MODE_ALL,
    {
        proof {
            lemma_mask(0, ZEROPAGE_MODE_ALL);
        }
        ZeropageMode { bits: ZEROPAGE_MODE_ALL }
    }

    /// Leave the faulting thread blocked until an explicit wake.
    pub fn dontwake() -> (r: Self)
        ensures
            r@ == UFFDIO_ZEROPAGE_MODE_DONTWAKE,
    {
        assert(UFFDIO_ZEROPAGE_MODE_DONTWAKE & !ZEROPAGE_MODE_ALL == 0) by (bit_vector);
        ZeropageMode { bits: UFFDIO_ZEROPAGE_MODE_DONTWAKE }
    }

    /// The mask of the set; no bit outside the defined ones is ever set in it.
    pub fn bits(&self) -> (bits: u64)
        ensures
            bits == self@,
            bits & !ZEROPAGE_MODE_ALL == 0,
    {
        proof {
            use_type_invariant(self);
        }
        self.bits
    }

    /// The set with the mask `bits`, if `bits` holds defined bits only.
    pub fn from_bits(bits: u64) -> (r: Option<Self>)
        ensures
            r is Some <==> bits & !ZEROPAGE_MODE_ALL == 0,
            r matches Some(set) ==> set@ == bits,
    {
        if bits & !ZEROPAGE_MODE_ALL == 0 {
            Some(ZeropageMode { bits })
        } else {
            None
        }
    }

    /// The set of the defined bits of `bits`; the others are dropped.
    pub fn from_bits_truncate(bits: u64) -> (r: Self)
        ensures
            r@ == bits & ZEROPAGE_MODE_ALL,
    {
        proof {
            lemma_mask(bits, ZEROPAGE_MODE_ALL);
        }
        ZeropageMode { bits: bits & ZEROPAGE_MODE_ALL }
    }

    pub fn is_empty(&self) -> (r: bool)
        ensures
            r == (self@ == 0),
    {
        self.bits == 0
    }

    /// Whether every member of `other` is a member of this set.
    pub fn contains(&self, other: Self) -> (r: bool)
        ensures
            r == includes(self@, other@),
    {
        self.bits & other.bits == other.bits
    }

    /// The members of either set.
    pub fn union(self, other: Self) -> (r: Self)
        ensures
            r@ == self@ | other@,
    {
        proof {
            use_type_invariant(self);
            use_type_invariant(other);
            lemma_within(self.bits, other.bits, ZEROPAGE_MODE_ALL);
        }
        ZeropageMode { bits: self.bits | other.bits }
    }

    /// The members of both sets.
    pub fn intersection(self, other: Self) -> (r: Self)
        ensures
            r@ == self@ & other@,
    {
        proof {
            use_type_invariant(self);
            lemma_within(self.bits, other.bits, ZEROPAGE_MODE_ALL);
        }
        ZeropageMode { bits: self.bits & other.bits }
    }
}

/// The operations that the kernel honors, for a handle or for a registered range.
#[derive(Clone, Copy, Debug, PartialEq, Eq, Hash, Structural)]
pub struct Ioctls {
    bits: u64,
}

impl View for Ioctls {
    type V = u64;

    closed spec fn view(&self) -> u64 {
        self.bits
    }
}

impl Ioctls {
    #[verifier::type_invariant]
    spec fn within(self) -> bool {
        self.bits & !IOCTLS_ALL == 0
    }

    /// The set without a member.
    pub fn empty() -> (r: Self)
        ensures
            r@ == 0,
    {
        proof {
            lemma_mask(0, IOCTLS_ALL);
        }
        Ioctls { bits: 0 }
    }

    /// The set of every member that the kernel defines.
    pub fn all() -> (r: Self)
        ensures
            r@ == IOCTLS_ALL,
    {
        proof {
            lemma_mask(0, IOCTLS_ALL);
        }
        Ioctls { bits: IOCTLS_ALL }
    }

    /// Negotiation.
    pub fn api() -> (r: Self)
        ensures
            r@ == IOCTL_API,
    {
        assert(IOCTL_API & !IOCTLS_ALL == 0) by (bit_vector);
        Ioctls { bits: IOCTL_API }
    }

    /// Registration of a range.
    pub fn register() -> (r: Self)
        ensures
            r@ == IOCTL_REGISTER,
    {
        assert(IOCTL_REGISTER & !IOCTLS_ALL == 0) by (bit_vector);
        Ioctls { bits: IOCTL_REGISTER }
    }

    /// Release of a range.
    pub fn unregister() -> (r: Self)
        ensures
            r@ == IOCTL_UNREGISTER,
    {
        assert(IOCTL_UNREGISTER & !IOCTLS_ALL == 0) by (bit_vector);
        Ioctls { bits: IOCTL_UNREGISTER }
    }

    /// Waking the threads blocked on a range.
    pub fn wake() -> (r: Self)
        ensures
            r@ == IOCTL_WAKE,
    {
        assert(IOCTL_WAKE & !IOCTLS_ALL == 0) by (bit_vector);
        Ioctls { bits: IOCTL_WAKE }
    }

    /// Resolving a fault with given content.
    pub fn copy() -> (r: Self)
        ensures
            r@ == IOCTL_COPY,
    {
        assert(IOCTL_COPY & !IOCTLS_ALL == 0) by (bit_vector);
        Ioctls { bits: IOCTL_COPY }
    }

    /// Resolving a fault with zeroes.
    pub fn zeropage() -> (r: Self)
        ensures
            r@ == IOCTL_ZEROPAGE,
    {
        assert(IOCTL_ZEROPAGE & !IOCTLS_ALL == 0) by (bit_vector);
        Ioctls { bits: IOCTL_ZEROPAGE }
    }

    /// The operations on a handle: negotiation, registration and release.
    pub fn api_ioctls() -> (r: Self)
        ensures
            r@ == UFFD_API_IOCTLS,
    {
        assert(UFFD_API_IOCTLS & !IOCTLS_ALL == 0) by (bit_vector);
        Ioctls { bits: UFFD_API_IOCTLS }
    }

    /// The operations on a registered range: wake, copy and zero-fill.
    pub fn range_ioctls() -> (r: Self)
        ensures
            r@ == UFFD_API_RANGE_IOCTLS,
    {
        assert(UFFD_API_RANGE_IOCTLS & !IOCTLS_ALL == 0) by (bit_vector);
        Ioctls { bits: UFFD_API_RANGE_IOCTLS }
    }

    /// The operations on a registered range of huge pages: wake and copy.
    pub fn range_ioctls_basic() -> (r: Self)
        ensures
            r@ == UFFD_API_RANGE_IOCTLS_BASIC,
    {
        assert(UFFD_API_RANGE_IOCTLS_BASIC & !IOCTLS_ALL == 0) by (bit_vector);
        Ioctls { bits: UFFD_API_RANGE_IOCTLS_BASIC }
    }

    /// The mask of the set; no bit outside the defined ones is ever set in it.
    pub fn bits(&self) -> (bits: u64)
        ensures
            bits == self@,
            bits & !IOCTLS_ALL == 0,
    {
        proof {
            use_type_invariant(self);
        }
        self.bits
    }

    /// The set with the mask `bits`, if `bits` holds defined bits only.
    pub fn from_bits(bits: u64) -> (r: Option<Self>)
        ensures
            r is Some <==> bits & !IOCTLS_ALL == 0,
            r matches Some(set) ==> set@ == bits,
    {
        if bits & !IOCTLS_ALL == 0 {
            Some(Ioctls { bits })
        } else {
            None
        }
    }

    /// The set of the defined bits of `bits`; the others are dropped.
    pub fn from_bits_truncate(bits: u64) -> (r: Self)
        ensures
            r@ == bits & IOCTLS_ALL,
    {
        proof {
            lemma_mask(bits, IOCTLS_ALL);
        }
        Ioctls { bits: bits & IOCTLS_ALL }
    }

    pub fn is_empty(&self) -> (r: bool)
        ensures
            r == (self@ == 0),
    {
        self.bits == 0
    }

    /// Whether every member of `other` is a member of this set.
    pub fn contains(&self, other: Self) -> (r: bool)
        ensures
            r == includes(self@, other@),
    {
        self.bits & other.bits == other.bits
    }

    /// The members of either set.
    pub fn union(self, other: Self) -> (r: Self)
        ensures
            r@ == self@ | other@,
    {
        proof {
            use_type_invariant(self);
            use_type_invariant(other);
            lemma_within(self.bits, other.bits, IOCTLS_ALL);
        }
        Ioctls { bits: self.bits | other.bits }
    }

    /// The members of both sets.
    pub fn intersection(self, other: Self) -> (r: Self)
        ensures
            r@ == self@ & other@,
    {
        proof {
            use_type_invariant(self);
            lemma_within(self.bits, other.bits, IOCTLS_ALL);
        }
        Ioctls { bits: self.bits & other.bits }
    }

    /// The text of `name` if the mask `bits` holds every bit of `flag`, else
    /// nothing.
    pub open spec fn label(bits: u64, flag: u64, name: Seq<char>) -> Seq<char> {
        if includes(bits, flag) {
            name
        } else {
            Seq::empty()
        }
    }

    /// How the set with the mask `bits` is written: the names of its
    /// members, in the order in which the kernel lists them, in brackets.
    pub open spec fn text(bits: u64) -> Seq<char> {
        "["@ + Self::label(bits, IOCTL_API, "IOCTL_API"@) + Self::label(
            bits,
            IOCTL_REGISTER,
            "IOCTL_REGISTER"@,
        ) + Self::label(bits, IOCTL_UNREGISTER, "IOCTL_UNREGISTER"@) + Self::label(
            bits,
            IOCTL_WAKE,
            "IOCTL_WAKE"@,
        ) + Self::label(bits, IOCTL_COPY, "IOCTL_COPY"@) + Self::label(
            bits,
            IOCTL_ZEROPAGE,
            "IOCTL_ZEROPAGE"@,
        ) + "]"@
    }

    /// Writes the set out as `text` says.
    pub fn to_string(&self) -> (s: String)
        ensures
            s@ == Self::text(self@),
    {
        let mut s = String::from_str("[");
        if self.bits & IOCTL_API == IOCTL_API {
            s.append("IOCTL_API");
        }
        if self.bits & IOCTL_REGISTER == IOCTL_REGISTER {
            s.append("IOCTL_REGISTER");
        }
        if self.bits & IOCTL_UNREGISTER == IOCTL_UNREGISTER {
            s.append("IOCTL_UNREGISTER");
        }
        if self.bits & IOCTL_WAKE == IOCTL_WAKE {
            s.append("IOCTL_WAKE");
        }
        if self.bits & IOCTL_COPY == IOCTL_COPY {
            s.append("IOCTL_COPY");
        }
        if self.bits & IOCTL_ZEROPAGE == IOCTL_ZEROPAGE {
            s.append("IOCTL_ZEROPAGE");
        }
        s.append("]");
        s
    }
}

/// Union and intersection are those of sets: a union includes both its
/// sets, both sets include their intersection, every set includes the empty
/// one, and two sets that include each other are the same.
pub proof fn lemma_set_algebra(a: u64, b: u64)
    ensures
        includes(a | b, a),
        includes(a | b, b),
        includes(a, a & b),
        includes(b, a & b),
        includes(a, 0),
        includes(a, a),
        includes(a, b) && includes(b, a) ==> a == b,
{
    assert((a | b) & a == a && (a | b) & b == b && a & (a & b) == a & b && b & (a & b) == a & b
        && a & 0 == 0 && a & a == a && (a & b == b && b & a == a ==> a == b)) by (bit_vector);
}

/// The mask of each operation is the bit at the position that the kernel
/// numbers the operation with, and the three groups are made of them.
pub proof fn lemma_ioctl_masks()
    ensures
        IOCTL_API == 1u64 << _UFFDIO_API,
        IOCTL_REGISTER == 1u64 << _UFFDIO_REGISTER,
        IOCTL_UNREGISTER == 1u64 << _UFFDIO_UNREGISTER,
        IOCTL_WAKE == 1u64 << _UFFDIO_WAKE,
        IOCTL_COPY == 1u64 << _UFFDIO_COPY,
        IOCTL_ZEROPAGE == 1u64 << _UFFDIO_ZEROPAGE,
        UFFD_API_IOCTLS == IOCTL_REGISTER | IOCTL_UNREGISTER | IOCTL_API,
        UFFD_API_RANGE_IOCTLS == IOCTL_WAKE | IOCTL_COPY | IOCTL_ZEROPAGE,
        UFFD_API_RANGE_IOCTLS_BASIC == IOCTL_WAKE | IOCTL_COPY,
        IOCTLS_ALL == UFFD_API_IOCTLS | UFFD_API_RANGE_IOCTLS,
{
    assert(0x8000_0000_0000_0000u64 == 1u64 << 0x3Fu64) by (bit_vector);
    assert(0x01u64 == 1u64 << 0x00u64) by (bit_vector);
    assert(0x02u64 == 1u64 << 0x01u64) by (bit_vector);
    assert(0x04u64 == 1u64 << 0x02u64) by (bit_vector);
    assert(0x08u64 == 1u64 << 0x03u64) by (bit_vector);
    assert(0x10u64 == 1u64 << 0x04u64) by (bit_vector);
    assert(0x8000_0000_0000_0003u64 == 0x01u64 | 0x02u64 | 0x8000_0000_0000_0000u64)
        by (bit_vector);
    assert(0x1Cu64 == 0x04u64 | 0x08u64 | 0x10u64) by (bit_vector);
    assert(0x0Cu64 == 0x04u64 | 0x08u64) by (bit_vector);
    assert(0x8000_0000_0000_001Fu64 == 0x8000_0000_0000_0003u64 | 0x1Cu64) by (bit_vector);
}

} // verus!
