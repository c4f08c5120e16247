//! Laws that relate the pointer operations to one another.
//!
//! Each is stated over the spec functions and views that the operations'
//! own contracts use, and proved here.

use crate::access::{RawPtr, VolatilePtrAccess};
use crate::ptr::{VolatilePtr, bits_cleared, bits_set, wrapping_byte_add};
use vstd::layout::size_of;
use vstd::prelude::*;
use vstd::std_specs::cmp::{PartialEqSpec, PartialOrdSpec};
use core::cmp::Ordering;

verus! {

/// Equality and order of volatile pointers are those of the raw pointers
/// they wrap: for `p = VolatilePtr::from_ptr(a)` and
/// `q = VolatilePtr::from_ptr(b)`, `p == q` exactly when `a == b`, and
/// `p.partial_cmp(&q)` is `a.partial_cmp(&b)`; the markers take no part.
pub proof fn lemma_volatile_ptr_compares_as_raw<A: VolatilePtrAccess<T>, T>(
    p: VolatilePtr<A, T>,
    q: VolatilePtr<A, T>,
    a: A::TPtr,
    b: A::TPtr,
)
    requires
        p@ == a.addr(),
        q@ == b.addr(),
    ensures
        p.eq_spec(&q) == a.eq_spec(&b),
        p.partial_cmp_spec(&q) == a.partial_cmp_spec(&b),
{
    A::TPtr::lemma_compare_by_addr(a, b);
}

/// Volatile pointers compare and order by the addresses they hold:
/// `p.partial_cmp(&q)` is `Some(Less)` exactly when `p`'s address is below
/// `q`'s, `Some(Equal)` exactly when the addresses are the same, and
/// `Some(Greater)` exactly when it is above; `p == q` exactly when the
/// addresses are the same.
pub proof fn lemma_volatile_ptr_order<A: VolatilePtrAccess<T>, T>(
    p: VolatilePtr<A, T>,
    q: VolatilePtr<A, T>,
)
    ensures
        VolatilePtr::<A, T>::obeys_partial_cmp_spec(),
        (p.partial_cmp_spec(&q) == Some(Ordering::Less)) == (p@ < q@),
        (p.partial_cmp_spec(&q) == Some(Ordering::Equal)) == (p@ == q@),
        (p.partial_cmp_spec(&q) == Some(Ordering::Greater)) == (p@ > q@),
        VolatilePtr::<A, T>::obeys_eq_spec(),
        p.eq_spec(&q) == (p@ == q@),
{
}

/// Raw pointer models compare and order by the addresses they hold:
/// `p.partial_cmp(&q)` is `Some(Less)`, `Some(Equal)` or `Some(Greater)`
/// exactly when `p`'s address is below, the same as, or above `q`'s; and
/// `p == q` exactly when the addresses are the same.
pub proof fn lemma_raw_ptr_order<P: RawPtr>(p: P, q: P)
    ensures
        P::obeys_partial_cmp_spec(),
        (p.partial_cmp_spec(&q) == Some(Ordering::Less)) == (p.addr() < q.addr()),
        (p.partial_cmp_spec(&q) == Some(Ordering::Equal)) == (p.addr() == q.addr()),
        (p.partial_cmp_spec(&q) == Some(Ordering::Greater)) == (p.addr() > q.addr()),
        P::obeys_eq_spec(),
        p.eq_spec(&q) == (p.addr() == q.addr()),
{
    P::lemma_compare_by_addr(p, q);
}

/// A wrapping byte offset of zero leaves the address unchanged:
/// `p.raw_byte_add(0)` points where `p` points.
pub proof fn lemma_raw_byte_add_zero(address: usize)
    ensures
        wrapping_byte_add(address, 0) == address,
{
}

/// Two wrapping byte offsets in a row move the pointer by their wrapping
/// sum: `p.raw_byte_add(x).raw_byte_add(y)` points where
/// `p.raw_byte_add(x.wrapping_add(y))` points.
pub proof fn lemma_raw_byte_add_composes(address: usize, x: usize, y: usize)
    ensures
        wrapping_byte_add(wrapping_byte_add(address, x), y) == wrapping_byte_add(
            address,
            wrapping_byte_add(x, y),
        ),
{
}

/// Where no wrap happens, the wrapping byte offset and the checked byte
/// offset agree: `p.raw_byte_add(n)` points where `p.byte_add(n)` points.
pub proof fn lemma_raw_byte_add_agrees_with_byte_add(address: usize, count: usize)
    requires
        address + count <= usize::MAX,
    ensures
        wrapping_byte_add(address, count) == address + count,
{
}

/// A wrapping byte offset is undone by the offset that completes it to the
/// size of the address space: `p.raw_byte_add(x).raw_byte_add(0 - x)` points
/// where `p` points (with `0 - x` computed with wrapping).
pub proof fn lemma_raw_byte_add_undone(address: usize, x: usize)
    requires
        0 < x,
    ensures
        wrapping_byte_add(wrapping_byte_add(address, x), (usize::MAX - x + 1) as usize) == address,
{
}

/// Two typed offsets in a row move the pointer by their sum:
/// `p.add(n).add(m)` points where `p.add(n + m)` points.
pub proof fn lemma_add_composes<T>(address: usize, n: usize, m: usize)
    ensures
        (address + n * size_of::<T>()) + m * size_of::<T>() == address + (n + m) * size_of::<T>(),
{
    assert((n + m) * size_of::<T>() == n * size_of::<T>() + m * size_of::<T>()) by (nonlinear_arith);
}

/// Setting and clearing the bits of a mask on `u8` registers:
/// after `set_bits(mask)` every bit of `mask` is set and every other bit is as
/// before; after `clear_bits(mask)` every bit of `mask` is clear and every
/// other bit is as before; each is idempotent; whichever of the two comes
/// last decides the bits of `mask`; and where `value` has none of the bits of
/// `mask`, clearing them undoes setting them.
pub proof fn lemma_u8_set_and_clear_bits(value: u8, mask: u8)
    ensures
        bits_set(value, mask) & mask == mask,
        bits_set(value, mask) & !mask == value & !mask,
        bits_cleared(value, mask) & mask == 0,
        bits_cleared(value, mask) & !mask == value & !mask,
        bits_set(bits_set(value, mask), mask) == bits_set(value, mask),
        bits_cleared(bits_cleared(value, mask), mask) == bits_cleared(value, mask),
        bits_cleared(bits_set(value, mask), mask) == bits_cleared(value, mask),
        bits_set(bits_cleared(value, mask), mask) == bits_set(value, mask),
        value & mask == 0 ==> bits_cleared(bits_set(value, mask), mask) == value,
{
    assert({
        &&& (value | mask) & mask == mask
        &&& (value | mask) & !mask == value & !mask
        &&& (value & !mask) & mask == 0
        &&& (value & !mask) & !mask == value & !mask
        &&& (value | mask) | mask == value | mask
        &&& (value & !mask) & !mask == value & !mask
        &&& (value | mask) & !mask == value & !mask
        &&& (value & !mask) | mask == value | mask
        &&& (value & mask == 0 ==> (value | mask) & !mask == value)
    }) by (bit_vector);
}

/// Setting and clearing the bits of a mask on `u16` registers:
/// after `set_bits(mask)` every bit of `mask` is set and every other bit is as
/// before; after `clear_bits(mask)` every bit of `mask` is clear and every
/// other bit is as before; each is idempotent; whichever of the two comes
/// last decides the bits of `mask`; and where `value` has none of the bits of
/// `mask`, clearing them undoes setting them.
pub proof fn lemma_u16_set_and_clear_bits(value: u16, mask: u16)
    ensures
        bits_set(value, mask) & mask == mask,
        bits_set(value, mask) & !mask == value & !mask,
        bits_cleared(value, mask) & mask == 0,
        bits_cleared(value, mask) & !mask == value & !mask,
        bits_set(bits_set(value, mask), mask) == bits_set(value, mask),
        bits_cleared(bits_cleared(value, mask), mask) == bits_cleared(value, mask),
        bits_cleared(bits_set(value, mask), mask) == bits_cleared(value, mask),
        bits_set(bits_cleared(value, mask), mask) == bits_set(value, mask),
        value & mask == 0 ==> bits_cleared(bits_set(value, mask), mask) == value,
{
    assert({
        &&& (value | mask) & mask == mask
        &&& (value | mask) & !mask == value & !mask
        &&& (value & !mask) & mask == 0
        &&& (value & !mask) & !mask == value & !mask
        &&& (value | mask) | mask == value | mask
        &&& (value & !mask) & !mask == value & !mask
        &&& (value | mask) & !mask == value & !mask
        &&& (value & !mask) | mask == value | mask
        &&& (value & mask == 0 ==> (value | mask) & !mask == value)
    }) by (bit_vector);
}

/// Setting and clearing the bits of a mask on `u32` registers:
/// after `set_bits(mask)` every bit of `mask` is set and every other bit is as
/// before; after `clear_bits(mask)` every bit of `mask` is clear and every
/// other bit is as before; each is idempotent; whichever of the two comes
/// last decides the bits of `mask`; and where `value` has none of the bits of
/// `mask`, clearing them undoes setting them.
pub proof fn lemma_u32_set_and_clear_bits(value: u32, mask: u32)
    ensures
        bits_set(value, mask) & mask == mask,
        bits_set(value, mask) & !mask == value & !mask,
        bits_cleared(value, mask) & mask == 0,
        bits_cleared(value, mask) & !mask == value & !mask,
        bits_set(bits_set(value, mask), mask) == bits_set(value, mask),
        bits_cleared(bits_cleared(value, mask), mask) == bits_cleared(value, mask),
        bits_cleared(bits_set(value, mask), mask) == bits_cleared(value, mask),
        bits_set(bits_cleared(value, mask), mask) == bits_set(value, mask),
        value & mask == 0 ==> bits_cleared(bits_set(value, mask), mask) == value,
{
    assert({
        &&& (value | mask) & mask == mask
        &&& (value | mask) & !mask == value & !mask
        &&& (value & !mask) & mask == 0
        &&& (value & !mask) & !mask == value & !mask
        &&& (value | mask) | mask == value | mask
        &&& (value & !mask) & !mask == value & !mask
        &&& (value | mask) & !mask == value & !mask
        &&& (value & !mask) | mask == value | mask
        &&& (value & mask == 0 ==> (value | mask) & !mask == value)
    }) by (bit_vector);
}

/// Setting and clearing the bits of a mask on `u64` registers:
/// after `set_bits(mask)` every bit of `mask` is set and every other bit is as
/// before; after `clear_bits(mask)` every bit of `mask` is clear and every
/// other bit is as before; each is idempotent; whichever of the two comes
/// last decides the bits of `mask`; and where `value` has none of the bits of
/// `mask`, clearing them undoes setting them.
pub proof fn lemma_u64_set_and_clear_bits(value: u64, mask: u64)
    ensures
        bits_set(value, mask) & mask == mask,
        bits_set(value, mask) & !mask == value & !mask,
        bits_cleared(value, mask) & mask == 0,
        bits_cleared(value, mask) & !mask == value & !mask,
        bits_set(bits_set(value, mask), mask) == bits_set(value, mask),
        bits_cleared(bits_cleared(value, mask), mask) == bits_cleared(value, mask),
        bits_cleared(bits_set(value, mask), mask) == bits_cleared(value, mask),
        bits_set(bits_cleared(value, mask), mask) == bits_set(value, mask),
        value & mask == 0 ==> bits_cleared(bits_set(value, mask), mask) == value,
{
    assert({
        &&& (value | mask) & mask == mask
        &&& (value | mask) & !mask == value & !mask
        &&& (value & !mask) & mask == 0
        &&& (value & !mask) & !mask == value & !mask
        &&& (value | mask) | mask == value | mask
        &&& (value & !mask) & !mask == value & !mask
        &&& (value | mask) & !mask == value & !mask
        &&& (value & !mask) | mask == value | mask
        &&& (value & mask == 0 ==> (value | mask) & !mask == value)
    }) by (bit_vector);
}

/// Setting and clearing the bits of a mask on `usize` registers:
/// after `set_bits(mask)` every bit of `mask` is set and every other bit is as
/// before; after `clear_bits(mask)` every bit of `mask` is clear and every
/// other bit is as before; each is idempotent; whichever of the two comes
/// last decides the bits of `mask`; and where `value` has none of the bits of
/// `mask`, clearing them undoes setting them.
pub proof fn lemma_usize_set_and_clear_bits(value: usize, mask: usize)
    ensures
        bits_set(value, mask) & mask == mask,
        bits_set(value, mask) & !mask == value & !mask,
        bits_cleared(value, mask) & mask == 0,
        bits_cleared(value, mask) & !mask == value & !mask,
        bits_set(bits_set(value, mask), mask) == bits_set(value, mask),
        bits_cleared(bits_cleared(value, mask), mask) == bits_cleared(value, mask),
        bits_cleared(bits_set(value, mask), mask) == bits_cleared(value, mask),
        bits_set(bits_cleared(value, mask), mask) == bits_set(value, mask),
        value & mask == 0 ==> bits_cleared(bits_set(value, mask), mask) == value,
{
    assert({
        &&& (value | mask) & mask == mask
        &&& (value | mask) & !mask == value & !mask
        &&& (value & !mask) & mask == 0
        &&& (value & !mask) & !mask == value & !mask
        &&& (value | mask) | mask == value | mask
        &&& (value & !mask) & !mask == value & !mask
        &&& (value | mask) & !mask == value & !mask
        &&& (value & !mask) | mask == value | mask
        &&& (value & mask == 0 ==> (value | mask) & !mask == value)
    }) by (bit_vector);
}

/// Setting and clearing the bits of a mask on `u128` registers:
/// after `set_bits(mask)` every bit of `mask` is set and every other bit is as
/// before; after `clear_bits(mask)` every bit of `mask` is clear and every
/// other bit is as before; each is idempotent; whichever of the two comes
/// last decides the bits of `mask`; and where `value` has none of the bits of
/// `mask`, clearing them undoes setting them.
pub proof fn lemma_u128_set_and_clear_bits(value: u128, mask: u128)
    ensures
        bits_set(value, mask) & mask == mask,
        bits_set(value, mask) & !mask == value & !mask,
        bits_cleared(value, mask) & mask == 0,
        bits_cleared(value, mask) & !mask == value & !mask,
        bits_set(bits_set(value, mask), mask) == bits_set(value, mask),
        bits_cleared(bits_cleared(value, mask), mask) == bits_cleared(value, mask),
        bits_cleared(bits_set(value, mask), mask) == bits_cleared(value, mask),
        bits_set(bits_cleared(value, mask), mask) == bits_set(value, mask),
        value & mask == 0 ==> bits_cleared(bits_set(value, mask), mask) == value,
{
    assert({
        &&& (value | mask) & mask == mask
        &&& (value | mask) & !mask == value & !mask
        &&& (value & !mask) & mask == 0
        &&& (value & !mask) & !mask == value & !mask
        &&& (value | mask) | mask == value | mask
        &&& (value & !mask) & !mask == value & !mask
        &&& (value | mask) & !mask == value & !mask
        &&& (value & !mask) | mask == value | mask
        &&& (value & mask == 0 ==> (value | mask) & !mask == value)
    }) by (bit_vector);
}

/// Setting and clearing the bits of a mask on `i8` registers:
/// after `set_bits(mask)` every bit of `mask` is set and every other bit is as
/// before; after `clear_bits(mask)` every bit of `mask` is clear and every
/// other bit is as before; each is idempotent; whichever of the two comes
/// last decides the bits of `mask`; and where `value` has none of the bits of
/// `mask`, clearing them undoes setting them.
pub proof fn lemma_i8_set_and_clear_bits(value: i8, mask: i8)
    ensures
        bits_set(value, mask) & mask == mask,
        bits_set(value, mask) & !mask == value & !mask,
        bits_cleared(value, mask) & mask == 0,
        bits_cleared(value, mask) & !mask == value & !mask,
        bits_set(bits_set(value, mask), mask) == bits_set(value, mask),
        bits_cleared(bits_cleared(value, mask), mask) == bits_cleared(value, mask),
        bits_cleared(bits_set(value, mask), mask) == bits_cleared(value, mask),
        bits_set(bits_cleared(value, mask), mask) == bits_set(value, mask),
        value & mask == 0 ==> bits_cleared(bits_set(value, mask), mask) == value,
{
    assert({
        &&& (value | mask) & mask == mask
        &&& (value | mask) & !mask == value & !mask
        &&& (value & !mask) & mask == 0
        &&& (value & !mask) & !mask == value & !mask
        &&& (value | mask) | mask == value | mask
        &&& (value & !mask) & !mask == value & !mask
        &&& (value | mask) & !mask == value & !mask
        &&& (value & !mask) | mask == value | mask
        &&& (value & mask == 0 ==> (value | mask) & !mask == value)
    }) by (bit_vector);
}

/// Setting and clearing the bits of a mask on `i16` registers:
/// after `set_bits(mask)` every bit of `mask` is set and every other bit is as
/// before; after `clear_bits(mask)` every bit of `mask` is clear and every
/// other bit is as before; each is idempotent; whichever of the two comes
/// last decides the bits of `mask`; and where `value` has none of the bits of
/// `mask`, clearing them undoes setting them.
pub proof fn lemma_i16_set_and_clear_bits(value: i16, mask: i16)
    ensures
        bits_set(value, mask) & mask == mask,
        bits_set(value, mask) & !mask == value & !mask,
        bits_cleared(value, mask) & mask == 0,
        bits_cleared(value, mask) & !mask == value & !mask,
        bits_set(bits_set(value, mask), mask) == bits_set(value, mask),
        bits_cleared(bits_cleared(value, mask), mask) == bits_cleared(value, mask),
        bits_cleared(bits_set(value, mask), mask) == bits_cleared(value, mask),
        bits_set(bits_cleared(value, mask), mask) == bits_set(value, mask),
        value & mask == 0 ==> bits_cleared(bits_set(value, mask), mask) == value,
{
    assert({
        &&& (value | mask) & mask == mask
        &&& (value | mask) & !mask == value & !mask
        &&& (value & !mask) & mask == 0
        &&& (value & !mask) & !mask == value & !mask
        &&& (value | mask) | mask == value | mask
        &&& (value & !mask) & !mask == value & !mask
        &&& (value | mask) & !mask == value & !mask
        &&& (value & !mask) | mask == value | mask
        &&& (value & mask == 0 ==> (value | mask) & !mask == value)
    }) by (bit_vector);
}

/// Setting and clearing the bits of a mask on `i32` registers:
/// after `set_bits(mask)` every bit of `mask` is set and every other bit is as
/// before; after `clear_bits(mask)` every bit of `mask` is clear and every
/// other bit is as before; each is idempotent; whichever of the two comes
/// last decides the bits of `mask`; and where `value` has none of the bits of
/// `mask`, clearing them undoes setting them.
pub proof fn lemma_i32_set_and_clear_bits(value: i32, mask: i32)
    ensures
        bits_set(value, mask) & mask == mask,
        bits_set(value, mask) & !mask == value & !mask,
        bits_cleared(value, mask) & mask == 0,
        bits_cleared(value, mask) & !mask == value & !mask,
        bits_set(bits_set(value, mask), mask) == bits_set(value, mask),
        bits_cleared(bits_cleared(value, mask), mask) == bits_cleared(value, mask),
        bits_cleared(bits_set(value, mask), mask) == bits_cleared(value, mask),
        bits_set(bits_cleared(value, mask), mask) == bits_set(value, mask),
        value & mask == 0 ==> bits_cleared(bits_set(value, mask), mask) == value,
{
    assert({
        &&& (value | mask) & mask == mask
        &&& (value | mask) & !mask == value & !mask
        &&& (value & !mask) & mask == 0
        &&& (value & !mask) & !mask == value & !mask
        &&& (value | mask) | mask == value | mask
        &&& (value & !mask) & !mask == value & !mask
        &&& (value | mask) & !mask == value & !mask
        &&& (value & !mask) | mask == value | mask
        &&& (value & mask == 0 ==> (value | mask) & !mask == value)
    }) by (bit_vector);
}

/// Setting and clearing the bits of a mask on `i64` registers:
/// after `set_bits(mask)` every bit of `mask` is set and every other bit is as
/// before; after `clear_bits(mask)` every bit of `mask` is clear and every
/// other bit is as before; each is idempotent; whichever of the two comes
/// last decides the bits of `mask`; and where `value` has none of the bits of
/// `mask`, clearing them undoes setting them.
pub proof fn lemma_i64_set_and_clear_bits(value: i64, mask: i64)
    ensures
        bits_set(value, mask) & mask == mask,
        bits_set(value, mask) & !mask == value & !mask,
        bits_cleared(value, mask) & mask == 0,
        bits_cleared(value, mask) & !mask == value & !mask,
        bits_set(bits_set(value, mask), mask) == bits_set(value, mask),
        bits_cleared(bits_cleared(value, mask), mask) == bits_cleared(value, mask),
        bits_cleared(bits_set(value, mask), mask) == bits_cleared(value, mask),
        bits_set(bits_cleared(value, mask), mask) == bits_set(value, mask),
        value & mask == 0 ==> bits_cleared(bits_set(value, mask), mask) == value,
{
    assert({
        &&& (value | mask) & mask == mask
        &&& (value | mask) & !mask == value & !mask
        &&& (value & !mask) & mask == 0
        &&& (value & !mask) & !mask == value & !mask
        &&& (value | mask) | mask == value | mask
        &&& (value & !mask) & !mask == value & !mask
        &&& (value | mask) & !mask == value & !mask
        &&& (value & !mask) | mask == value | mask
        &&& (value & mask == 0 ==> (value | mask) & !mask == value)
    }) by (bit_vector);
}

/// Setting and clearing the bits of a mask on `i128` registers:
/// after `set_bits(mask)` every bit of `mask` is set and every other bit is as
/// before; after `clear_bits(mask)` every bit of `mask` is clear and every
/// other bit is as before; each is idempotent; whichever of the two comes
/// last decides the bits of `mask`; and where `value` has none of the bits of
/// `mask`, clearing them undoes setting them.
pub proof fn lemma_i128_set_and_clear_bits(value: i128, mask: i128)
    ensures
        bits_set(value, mask) & mask == mask,
        bits_set(value, mask) & !mask == value & !mask,
        bits_cleared(value, mask) & mask == 0,
        bits_cleared(value, mask) & !mask == value & !mask,
        bits_set(bits_set(value, mask), mask) == bits_set(value, mask),
        bits_cleared(bits_cleared(value, mask), mask) == bits_cleared(value, mask),
        bits_cleared(bits_set(value, mask), mask) == bits_cleared(value, mask),
        bits_set(bits_cleared(value, mask), mask) == bits_set(value, mask),
        value & mask == 0 ==> bits_cleared(bits_set(value, mask), mask) == value,
{
    assert({
        &&& (value | mask) & mask == mask
        &&& (value | mask) & !mask == value & !mask
        &&& (value & !mask) & mask == 0
        &&& (value & !mask) & !mask == value & !mask
        &&& (value | mask) | mask == value | mask
        &&& (value & !mask) & !mask == value & !mask
        &&& (value | mask) & !mask == value & !mask
        &&& (value & !mask) | mask == value | mask
        &&& (value & mask == 0 ==> (value | mask) & !mask == value)
    }) by (bit_vector);
}

/// Setting and clearing the bits of a mask on `isize` registers:
/// after `set_bits(mask)` every bit of `mask` is set and every other bit is as
/// before; after `clear_bits(mask)` every bit of `mask` is clear and every
/// other bit is as before; each is idempotent; whichever of the two comes
/// last decides the bits of `mask`; and where `value` has none of the bits of
/// `mask`, clearing them undoes setting them.
pub proof fn lemma_isize_set_and_clear_bits(value: isize, mask: isize)
    ensures
        bits_set(value, mask) & mask == mask,
        bits_set(value, mask) & !mask == value & !mask,
        bits_cleared(value, mask) & mask == 0,
        bits_cleared(value, mask) & !mask == value & !mask,
        bits_set(bits_set(value, mask), mask) == bits_set(value, mask),
        bits_cleared(bits_cleared(value, mask), mask) == bits_cleared(value, mask),
        bits_cleared(bits_set(value, mask), mask) == bits_cleared(value, mask),
        bits_set(bits_cleared(value, mask), mask) == bits_set(value, mask),
        value & mask == 0 ==> bits_cleared(bits_set(value, mask), mask) == value,
{
    assert({
        &&& (value | mask) & mask == mask
        &&& (value | mask) & !mask == value & !mask
        &&& (value & !mask) & mask == 0
        &&& (value & !mask) & !mask == value & !mask
        &&& (value | mask) | mask == value | mask
        &&& (value & !mask) & !mask == value & !mask
        &&& (value | mask) & !mask == value & !mask
        &&& (value & !mask) | mask == value | mask
        &&& (value & mask == 0 ==> (value | mask) & !mask == value)
    }) by (bit_vector);
}

} // verus!
