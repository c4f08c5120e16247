//! Type-safe volatile pointer model.
//!
//! [`VolatilePtr`] pairs an address with an access marker ([`RO`], [`RW`]
//! or [`WO`]) and a value type, so that the allowed accesses are fixed in the
//! type. Its view is the address it holds.

use crate::access::{addr_order, CoerceTo, ConstPtr, MutPtr, RawPtr, RO, RW, VolatilePtrAccess, WO, into_usize_unchecked};
use core::cmp::Ordering;
use core::marker::PhantomData;
use core::ops::{BitAnd, BitOr, Not};
use vstd::layout::size_of;
use vstd::prelude::*;
use vstd::std_specs::cmp::{PartialEqSpec, PartialEqSpecImpl, PartialOrdSpecImpl};
use vstd::std_specs::ops::{BitAndSpec, BitOrSpec, NotSpec};

verus! {

/// A volatile pointer with compile-time access control.
///
/// - `A`: Access marker ([`RO`], [`RW`], or [`WO`]).
/// - `T`: The type of the value being pointed to.
///
/// Pointers compare and order by the addresses they hold.
#[derive(Debug, Ord)]
pub struct VolatilePtr<A, T> where A: VolatilePtrAccess<T> {
    /// The actual hardware memory address.
    address: usize,
    /// Zero-sized marker to tie the struct to a specific access level (RO/RW/WO).
    _access_marker: PhantomData<A>,
    /// Zero-sized marker to keep track of the underlying data type `T`.
    _type_marker: PhantomData<T>,
}

impl<A, T> Clone for VolatilePtr<A, T> where A: VolatilePtrAccess<T> {
    fn clone(&self) -> (r: Self)
        ensures
            r == *self,
    {
        *self
    }
}

impl<A, T> Copy for VolatilePtr<A, T> where A: VolatilePtrAccess<T> {}

impl<A, T> PartialEq for VolatilePtr<A, T> where A: VolatilePtrAccess<T> {
    fn eq(&self, other: &Self) -> (r: bool) {
        self.address == other.address
    }
}

impl<A, T> PartialEqSpecImpl for VolatilePtr<A, T> where A: VolatilePtrAccess<T> {
    open spec fn obeys_eq_spec() -> bool {
        true
    }

    open spec fn eq_spec(&self, other: &Self) -> bool {
        self@ == other@
    }
}

impl<A, T> Eq for VolatilePtr<A, T> where A: VolatilePtrAccess<T> {}

impl<A, T> PartialOrd for VolatilePtr<A, T> where A: VolatilePtrAccess<T> {
    fn partial_cmp(&self, other: &Self) -> (r: Option<Ordering>) {
        if self.address < other.address {
            Some(Ordering::Less)
        } else if self.address == other.address {
            Some(Ordering::Equal)
        } else {
            Some(Ordering::Greater)
        }
    }
}

impl<A, T> PartialOrdSpecImpl for VolatilePtr<A, T> where A: VolatilePtrAccess<T> {
    open spec fn obeys_partial_cmp_spec() -> bool {
        true
    }

    open spec fn partial_cmp_spec(&self, other: &Self) -> Option<Ordering> {
        addr_order(self@, other@)
    }
}

impl<A, T> View for VolatilePtr<A, T> where A: VolatilePtrAccess<T> {
    type V = usize;

    /// The address the pointer holds.
    closed spec fn view(&self) -> usize {
        self.address
    }
}

impl<A, T> VolatilePtr<A, T> where A: VolatilePtrAccess<T> {
    /// A pointer is its address: two pointers of one type that hold the same
    /// address are equal.
    pub proof fn lemma_view_determines_pointer(p: Self, q: Self)
        requires
            p@ == q@,
        ensures
            p == q,
    {
    }
}

impl<T> VolatilePtr<RW, T> {
    /// Creates a pointer from a memory address.
    pub fn from_usize(address: usize) -> (r: Self)
        ensures
            r@ == address,
    {
        Self::from_ptr(RW::from_usize(address))
    }

    /// Casts the internal address to a raw mutable pointer of another type.
    pub fn cast<N>(&self) -> (r: MutPtr<N>)
        ensures
            r.addr() == self@,
    {
        MutPtr::from_addr(self.address)
    }
}

impl<T> VolatilePtr<RO, T> {
    /// Creates a pointer from a memory address.
    pub fn from_usize(address: usize) -> (r: Self)
        ensures
            r@ == address,
    {
        Self::from_ptr(RO::from_usize(address))
    }

    /// Casts the internal address to a raw mutable pointer of another type.
    pub fn cast<N>(&self) -> (r: MutPtr<N>)
        ensures
            r.addr() == self@,
    {
        MutPtr::from_addr(self.address)
    }
}

impl<T> VolatilePtr<WO, T> {
    /// Creates a pointer from a memory address.
    pub fn from_usize(address: usize) -> (r: Self)
        ensures
            r@ == address,
    {
        Self::from_ptr(WO::from_usize(address))
    }

    /// Casts the internal address to a raw mutable pointer of another type.
    pub fn cast<N>(&self) -> (r: MutPtr<N>)
        ensures
            r.addr() == self@,
    {
        MutPtr::from_addr(self.address)
    }
}

impl<A, T> VolatilePtr<A, T> where A: VolatilePtrAccess<T> {
    /// Creates a new `VolatilePtr` from a raw pointer of the appropriate type.
    pub fn from_ptr(address: A::TPtr) -> (r: Self)
        ensures
            r@ == address.addr(),
    {
        VolatilePtr {
            address: into_usize_unchecked::<A, T>(address),
            _access_marker: PhantomData,
            _type_marker: PhantomData,
        }
    }

    /// Returns the underlying raw pointer.
    pub fn get_address(&self) -> (r: A::TPtr)
        ensures
            r.addr() == self@,
    {
        A::from_usize(self.address)
    }

    /// Returns the raw memory address as a `usize`.
    pub fn get_usize_address(&self) -> (r: usize)
        ensures
            r == self@,
    {
        self.address
    }

    /// Returns the underlying raw pointer.
    pub fn as_raw_ptr(&self) -> (r: A::TPtr)
        ensures
            r.addr() == self@,
    {
        self.get_address()
    }
}

impl<A, T> VolatilePtr<A, T> where A: VolatilePtrAccess<T> {
    /// Calculates an offset from the pointer using typed arithmetic.
    ///
    /// The offset is multiplied by `size_of::<T>()`. As for raw pointers,
    /// the offset in bytes must fit in an `isize` and the new address must
    /// not pass the end of the address space.
    pub fn add(&self, count: usize) -> (r: Self)
        requires
            count * size_of::<T>() <= isize::MAX,
            self@ + count * size_of::<T>() <= usize::MAX,
        ensures
            r@ == self@ + count * size_of::<T>(),
    {
        let size = core::mem::size_of::<T>();
        self.byte_add(count * size)
    }

    /// Calculates a byte-based offset from the pointer.
    ///
    /// As for raw pointers, the offset must fit in an `isize` and the new
    /// address must not pass the end of the address space.
    pub fn byte_add(&self, count: usize) -> (r: Self)
        requires
            count <= isize::MAX,
            self@ + count <= usize::MAX,
        ensures
            r@ == self@ + count,
    {
        VolatilePtr { address: self.address + count, _access_marker: PhantomData, _type_marker: PhantomData }
    }

    /// Calculates a byte-based offset using wrapping arithmetic.
    ///
    /// Any offset is allowed: the address wraps around the end of the
    /// address space.
    pub fn raw_byte_add(&self, count: usize) -> (r: Self)
        ensures
            r@ == wrapping_byte_add(self@, count),
    {
        VolatilePtr {
            address: self.address.wrapping_add(count),
            _access_marker: PhantomData,
            _type_marker: PhantomData,
        }
    }
}

impl<A, T> VolatilePtr<A, T> where A: VolatilePtrAccess<T> {
    /// The register `offset` bytes (wrapping) after this base address, with
    /// access level `B`, as a register map lays it out.
    ///
    /// A register shares the base's value type; its access level may be
    /// narrower than the base's (a read-write base carries read-only and
    /// write-only registers), never wider.
    pub fn map_register<B>(&self, offset: usize) -> (r: VolatilePtr<B, T>) where
        B: VolatilePtrAccess<T>,
        A::TPtr: CoerceTo<B::TPtr>,
        ensures
            r@ == wrapping_byte_add(self@, offset),
    {
        VolatilePtr::<B, T>::from_ptr(self.raw_byte_add(offset).as_raw_ptr().coerce())
    }
}

impl<T> VolatilePtr<RW, T> where
    T: BitOr<Output = T> + BitAnd<Output = T> + Not<Output = T> + Copy,
 {
    /// The value that setting the bits of `mask` (`v | mask`) stores, given
    /// the value `current` read from the register.
    pub fn set_bits_value(current: T, mask: T) -> (r: T)
        requires
            current.bitor_req(mask),
        ensures
            T::obeys_bitor_spec() ==> r == bits_set(current, mask),
    {
        current | mask
    }

    /// The value that clearing the bits of `mask` (`v & !mask`) stores, given
    /// the value `current` read from the register.
    pub fn clear_bits_value(current: T, mask: T) -> (r: T)
        requires
            mask.not_req(),
            forall|m: T| #[trigger] current.bitand_req(m),
        ensures
            T::obeys_not_spec() && T::obeys_bitand_spec() ==> r == bits_cleared(current, mask),
    {
        current & !mask
    }
}

/// `value` with the bits of `mask` set: `value | mask`.
pub open spec fn bits_set<T: BitOr<Output = T>>(value: T, mask: T) -> T {
    value.bitor_spec(mask)
}

/// `value` with the bits of `mask` cleared: `value & !mask`.
pub open spec fn bits_cleared<T: BitAnd<Output = T> + Not<Output = T>>(value: T, mask: T) -> T {
    value.bitand_spec(mask.not_spec())
}

/// Whether a spin-wait for `value` is over, given the value `current` just
/// read from the register: it ends exactly when the two are equal.
pub fn wait_until_reached<T: PartialEq>(current: &T, value: &T) -> (r: bool)
    ensures
        T::obeys_eq_spec() ==> r == current.eq_spec(value),
{
    *current == *value
}

/// The address `count` bytes after `address`, wrapping around the end of the
/// address space.
pub open spec fn wrapping_byte_add(address: usize, count: usize) -> usize {
    if address + count > usize::MAX {
        (address + count - (usize::MAX + 1)) as usize
    } else {
        (address + count) as usize
    }
}

} // verus!
