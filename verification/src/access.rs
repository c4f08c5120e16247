//! Access control markers for volatile pointers.
//!
//! The markers [`RO`], [`RW`] and [`WO`] have no values: they exist only to
//! fix, in the type of a pointer, which accesses it allows.

use core::cmp::Ordering;
use core::fmt::Debug;
use core::marker::PhantomData;
use vstd::prelude::*;
use vstd::std_specs::cmp::{PartialEqSpec, PartialEqSpecImpl, PartialOrdSpec, PartialOrdSpecImpl};

verus! {

/// A raw address of a value of type `T` that may be read but not written.
///
/// This is the library's model of `*const T`: a pointer is the address it
/// holds. Pointers compare and order by their addresses.
#[derive(Debug, Ord, Hash)]
pub struct ConstPtr<T> {
    /// The address.
    pub address: usize,
    /// Ties the pointer to the pointee type.
    pub marker: PhantomData<T>,
}

/// A raw address of a value of type `T` that may be written.
///
/// This is the library's model of `*mut T`: a pointer is the address it
/// holds. Pointers compare and order by their addresses.
#[derive(Debug, Ord, Hash)]
pub struct MutPtr<T> {
    /// The address.
    pub address: usize,
    /// Ties the pointer to the pointee type.
    pub marker: PhantomData<T>,
}

/// How two addresses order.
pub open spec fn addr_order(a: usize, b: usize) -> Option<Ordering> {
    if a < b {
        Some(Ordering::Less)
    } else if a == b {
        Some(Ordering::Equal)
    } else {
        Some(Ordering::Greater)
    }
}

/// What a raw pointer model offers: it is an address, and it can be made
/// from one.
pub trait RawPtr: Sized + Copy + PartialEq + Eq + PartialOrd {
    /// The address this pointer holds.
    spec fn addr(&self) -> usize;

    /// Makes a pointer that holds `address`.
    fn from_addr(address: usize) -> (r: Self)
        ensures
            r.addr() == address,
    ;

    /// Returns the address this pointer holds.
    fn to_addr(&self) -> (r: usize)
        ensures
            r == self.addr(),
    ;

    /// Pointers compare and order exactly as their addresses do.
    proof fn lemma_compare_by_addr(p: Self, q: Self)
        ensures
            Self::obeys_eq_spec(),
            p.eq_spec(&q) == (p.addr() == q.addr()),
            Self::obeys_partial_cmp_spec(),
            p.partial_cmp_spec(&q) == addr_order(p.addr(), q.addr()),
    ;

    /// A pointer is its address: two pointers that hold the same address
    /// are equal.
    proof fn lemma_addr_determines_pointer(p: Self, q: Self)
        requires
            p.addr() == q.addr(),
        ensures
            p == q,
    ;
}

impl<T> Clone for ConstPtr<T> {
    fn clone(&self) -> (r: Self)
        ensures
            r == *self,
    {
        *self
    }
}

impl<T> Copy for ConstPtr<T> {}

impl<T> Clone for MutPtr<T> {
    fn clone(&self) -> (r: Self)
        ensures
            r == *self,
    {
        *self
    }
}

impl<T> Copy for MutPtr<T> {}

impl<T> PartialEq for ConstPtr<T> {
    fn eq(&self, other: &Self) -> (r: bool) {
        self.address == other.address
    }
}

impl<T> PartialEqSpecImpl for ConstPtr<T> {
    open spec fn obeys_eq_spec() -> bool {
        true
    }

    open spec fn eq_spec(&self, other: &Self) -> bool {
        self.address == other.address
    }
}

impl<T> Eq for ConstPtr<T> {}

impl<T> PartialOrd for ConstPtr<T> {
    fn partial_cmp(&self, other: &Self) -> (r: Option<Ordering>) {
        if self.address < other.address {
            Some(Ordering::Less)
        } else if self.address == other.address {
            Some(Ordering::Equal)
        } else {
            Some(Ordering::Greater)
        }
    }
}

impl<T> PartialOrdSpecImpl for ConstPtr<T> {
    open spec fn obeys_partial_cmp_spec() -> bool {
        true
    }

    open spec fn partial_cmp_spec(&self, other: &Self) -> Option<Ordering> {
        if self.address < other.address {
            Some(Ordering::Less)
        } else if self.address == other.address {
            Some(Ordering::Equal)
        } else {
            Some(Ordering::Greater)
        }
    }
}

impl<T> PartialEq for MutPtr<T> {
    fn eq(&self, other: &Self) -> (r: bool) {
        self.address == other.address
    }
}

impl<T> PartialEqSpecImpl for MutPtr<T> {
    open spec fn obeys_eq_spec() -> bool {
        true
    }

    open spec fn eq_spec(&self, other: &Self) -> bool {
        self.address == other.address
    }
}

impl<T> Eq for MutPtr<T> {}

impl<T> PartialOrd for MutPtr<T> {
    fn partial_cmp(&self, other: &Self) -> (r: Option<Ordering>) {
        if self.address < other.address {
            Some(Ordering::Less)
        } else if self.address == other.address {
            Some(Ordering::Equal)
        } else {
            Some(Ordering::Greater)
        }
    }
}

impl<T> PartialOrdSpecImpl for MutPtr<T> {
    open spec fn obeys_partial_cmp_spec() -> bool {
        true
    }

    open spec fn partial_cmp_spec(&self, other: &Self) -> Option<Ordering> {
        if self.address < other.address {
            Some(Ordering::Less)
        } else if self.address == other.address {
            Some(Ordering::Equal)
        } else {
            Some(Ordering::Greater)
        }
    }
}

impl<T> RawPtr for ConstPtr<T> {
    proof fn lemma_compare_by_addr(p: Self, q: Self) {
    }

    proof fn lemma_addr_determines_pointer(p: Self, q: Self) {
    }

    open spec fn addr(&self) -> usize {
        self.address
    }

    fn from_addr(address: usize) -> (r: Self) {
        ConstPtr { address, marker: PhantomData }
    }

    fn to_addr(&self) -> (r: usize) {
        self.address
    }
}

impl<T> RawPtr for MutPtr<T> {
    proof fn lemma_compare_by_addr(p: Self, q: Self) {
    }

    proof fn lemma_addr_determines_pointer(p: Self, q: Self) {
    }

    open spec fn addr(&self) -> usize {
        self.address
    }

    fn from_addr(address: usize) -> (r: Self) {
        MutPtr { address, marker: PhantomData }
    }

    fn to_addr(&self) -> (r: usize) {
        self.address
    }
}

/// The raw pointer conversions that need no cast: a pointer to its own type,
/// and a mutable pointer to a const one. A const pointer never becomes a
/// mutable one.
pub trait CoerceTo<P: RawPtr>: RawPtr {
    /// The same address, as a pointer of type `P`.
    fn coerce(self) -> (r: P)
        ensures
            r.addr() == self.addr(),
    ;
}

impl<T> CoerceTo<MutPtr<T>> for MutPtr<T> {
    fn coerce(self) -> (r: MutPtr<T>) {
        self
    }
}

impl<T> CoerceTo<ConstPtr<T>> for MutPtr<T> {
    fn coerce(self) -> (r: ConstPtr<T>) {
        ConstPtr { address: self.address, marker: PhantomData }
    }
}

impl<T> CoerceTo<ConstPtr<T>> for ConstPtr<T> {
    fn coerce(self) -> (r: ConstPtr<T>) {
        self
    }
}

/// A trait that defines how a specific access marker relates to raw pointers.
pub trait VolatilePtrAccess<T>: Debug + Clone + Copy + PartialEq + PartialOrd + Eq + Ord {
    /// The underlying raw pointer type for this access level.
    type TPtr: RawPtr;

    /// Creates a raw pointer from a memory address.
    fn from_usize(ptr: usize) -> (r: Self::TPtr)
        ensures
            r.addr() == ptr,
    ;

    /// Converts the access marker instance to a usize address.
    ///
    /// The markers have no values, so this is never called.
    fn into_usize(self) -> usize;
}

/// **Read-Only** access marker.
///
/// Pointers with this marker only allow reads. Maps to a const pointer.
#[derive(Debug, Clone, Copy, PartialEq, Eq, PartialOrd, Ord)]
pub struct RO {
    no_values: (),
}

impl RO {
    /// No value of a marker can exist: the markers only stand in types.
    #[verifier::type_invariant]
    spec fn has_no_values(self) -> bool {
        false
    }
}

/// **Read-Write** access marker.
///
/// Pointers with this marker allow both reads and writes. Maps to a mut pointer.
#[derive(Debug, Clone, Copy, PartialEq, Eq, PartialOrd, Ord)]
pub struct RW {
    no_values: (),
}

impl RW {
    /// No value of a marker can exist: the markers only stand in types.
    #[verifier::type_invariant]
    spec fn has_no_values(self) -> bool {
        false
    }
}

/// **Write-Only** access marker.
///
/// Pointers with this marker only allow writes. Maps to a mut pointer.
#[derive(Debug, Clone, Copy, PartialEq, Eq, PartialOrd, Ord)]
pub struct WO {
    no_values: (),
}

impl WO {
    /// No value of a marker can exist: the markers only stand in types.
    #[verifier::type_invariant]
    spec fn has_no_values(self) -> bool {
        false
    }
}

impl<T> VolatilePtrAccess<T> for RO {
    type TPtr = ConstPtr<T>;

    fn from_usize(ptr: usize) -> (r: ConstPtr<T>) {
        ConstPtr::from_addr(ptr)
    }

    fn into_usize(self) -> usize {
        proof {
            use_type_invariant(&self);
        }
        0
    }
}

impl<T> VolatilePtrAccess<T> for RW {
    type TPtr = MutPtr<T>;

    fn from_usize(ptr: usize) -> (r: MutPtr<T>) {
        MutPtr::from_addr(ptr)
    }

    fn into_usize(self) -> usize {
        proof {
            use_type_invariant(&self);
        }
        0
    }
}

impl<T> VolatilePtrAccess<T> for WO {
    type TPtr = MutPtr<T>;

    fn from_usize(ptr: usize) -> (r: MutPtr<T>) {
        MutPtr::from_addr(ptr)
    }

    fn into_usize(self) -> usize {
        proof {
            use_type_invariant(&self);
        }
        0
    }
}

/// The address that a raw pointer of access level `A` holds.
pub(crate) fn into_usize_unchecked<A: VolatilePtrAccess<T>, T>(v: A::TPtr) -> (r: usize)
    ensures
        r == v.addr(),
{
    v.to_addr()
}

} // verus!
