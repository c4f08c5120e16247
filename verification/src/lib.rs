//! Typed volatile pointers with access rights (read-only, read-write,
//! write-only) fixed in the type, and the address arithmetic that register
//! maps are built from.
//!
//! A pointer is modelled by the address it holds. The memory accesses
//! themselves (volatile loads and stores) are not part of this library's
//! verified core. What is verified: the addresses a pointer yields, the
//! arithmetic that moves it, the layout of a register map, the values that
//! setting and clearing bits store, and when a spin-wait stops. What a
//! read-modify-write with a caller's own closure stores is the closure's
//! business, not the library's.

pub mod access;
pub mod ptr;
pub mod laws;
