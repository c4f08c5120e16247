use volatile_table::access::{CoerceTo, ConstPtr, MutPtr, RawPtr, RO, RW, VolatilePtrAccess, WO};
use volatile_table::ptr::{VolatilePtr, wait_until_reached};

const AO_BASE: usize = 0xC810_04C0;

#[test]
fn from_usize_keeps_the_address_for_every_access_level() {
    let rw = VolatilePtr::<RW, u32>::from_usize(AO_BASE);
    let ro = VolatilePtr::<RO, u32>::from_usize(AO_BASE);
    let wo = VolatilePtr::<WO, u32>::from_usize(AO_BASE);
    assert_eq!(rw.get_usize_address(), AO_BASE);
    assert_eq!(ro.get_usize_address(), AO_BASE);
    assert_eq!(wo.get_usize_address(), AO_BASE);
}

#[test]
fn raw_pointer_models_hold_their_address() {
    let m: MutPtr<u16> = MutPtr::from_addr(0x1000);
    let c: ConstPtr<u16> = ConstPtr::from_addr(0x2000);
    assert_eq!(m.to_addr(), 0x1000);
    assert_eq!(c.to_addr(), 0x2000);
    let m2 = <RW as VolatilePtrAccess<u8>>::from_usize(0x30);
    let c2 = <RO as VolatilePtrAccess<u8>>::from_usize(0x40);
    let w2 = <WO as VolatilePtrAccess<u8>>::from_usize(0x50);
    assert_eq!(m2.to_addr(), 0x30);
    assert_eq!(c2.to_addr(), 0x40);
    assert_eq!(w2.to_addr(), 0x50);
}

#[test]
fn from_ptr_and_get_address_round_trip() {
    let raw: MutPtr<u32> = MutPtr::from_addr(0xDEAD_BEE0);
    let p = VolatilePtr::<RW, u32>::from_ptr(raw);
    assert_eq!(p.get_usize_address(), 0xDEAD_BEE0);
    assert_eq!(p.get_address().to_addr(), 0xDEAD_BEE0);
    assert_eq!(p.as_raw_ptr().to_addr(), 0xDEAD_BEE0);
    let back = VolatilePtr::<RW, u32>::from_ptr(p.get_address());
    assert_eq!(back, p);

    let raw_ro: ConstPtr<u64> = ConstPtr::from_addr(8);
    let q = VolatilePtr::<RO, u64>::from_ptr(raw_ro);
    assert_eq!(q.get_address().to_addr(), 8);
}

#[test]
fn cast_keeps_the_address() {
    let rw = VolatilePtr::<RW, u32>::from_usize(0x40);
    let ro = VolatilePtr::<RO, u32>::from_usize(0x44);
    let wo = VolatilePtr::<WO, u32>::from_usize(0x48);
    let a: MutPtr<u8> = rw.cast::<u8>();
    let b: MutPtr<u64> = ro.cast::<u64>();
    let c: MutPtr<u16> = wo.cast::<u16>();
    assert_eq!(a.to_addr(), 0x40);
    assert_eq!(b.to_addr(), 0x44);
    assert_eq!(c.to_addr(), 0x48);
}

#[test]
fn add_scales_by_the_size_of_the_pointee() {
    let p = VolatilePtr::<RW, u32>::from_usize(AO_BASE);
    assert_eq!(p.add(0).get_usize_address(), AO_BASE);
    assert_eq!(p.add(1).get_usize_address(), AO_BASE + 4);
    assert_eq!(p.add(4).get_usize_address(), AO_BASE + 16);
    let q = VolatilePtr::<RO, u64>::from_usize(0x100);
    assert_eq!(q.add(3).get_usize_address(), 0x118);
    let b = VolatilePtr::<WO, u8>::from_usize(0x100);
    assert_eq!(b.add(3).get_usize_address(), 0x103);
    let z = VolatilePtr::<RW, ()>::from_usize(0x100);
    assert_eq!(z.add(1000).get_usize_address(), 0x100);
}

#[test]
fn byte_add_moves_by_bytes() {
    let p = VolatilePtr::<RW, u32>::from_usize(AO_BASE);
    assert_eq!(p.byte_add(0).get_usize_address(), AO_BASE);
    assert_eq!(p.byte_add(1).get_usize_address(), AO_BASE + 1);
    assert_eq!(p.byte_add(2 << 2).get_usize_address(), 0xC810_04C8);
}

#[test]
fn raw_byte_add_wraps_around_the_address_space() {
    let p = VolatilePtr::<RW, u32>::from_usize(usize::MAX - 1);
    assert_eq!(p.raw_byte_add(1).get_usize_address(), usize::MAX);
    assert_eq!(p.raw_byte_add(2).get_usize_address(), 0);
    assert_eq!(p.raw_byte_add(5).get_usize_address(), 3);
    let q = VolatilePtr::<RO, u8>::from_usize(0x10);
    assert_eq!(q.raw_byte_add(usize::MAX).get_usize_address(), 0xF);
}

#[test]
fn register_map_offsets_follow_the_datasheet() {
    // wo AO_WFIFO += 0 << 2; ro AO_RFIFO += 1 << 2; rw AO_CONTROL += 2 << 2;
    // ro AO_STATUS += 3 << 2; rw AO_MISC += 4 << 2;
    let base = VolatilePtr::<RW, u32>::from_usize(AO_BASE);
    let expected = [0xC810_04C0usize, 0xC810_04C4, 0xC810_04C8, 0xC810_04CC, 0xC810_04D0];
    for (i, e) in expected.iter().enumerate() {
        assert_eq!(base.raw_byte_add(i << 2).get_usize_address(), *e);
    }
}

#[test]
fn map_register_lays_registers_out_from_the_base() {
    let base = VolatilePtr::<RW, u32>::from_usize(AO_BASE);
    let wfifo: VolatilePtr<WO, u32> = base.map_register::<WO>(0 << 2);
    let rfifo: VolatilePtr<RO, u32> = base.map_register::<RO>(1 << 2);
    let control: VolatilePtr<RW, u32> = base.map_register::<RW>(2 << 2);
    let status: VolatilePtr<RO, u32> = base.map_register::<RO>(3 << 2);
    let misc: VolatilePtr<RW, u32> = base.map_register::<RW>(4 << 2);
    assert_eq!(wfifo.get_usize_address(), 0xC810_04C0);
    assert_eq!(rfifo.get_usize_address(), 0xC810_04C4);
    assert_eq!(control.get_usize_address(), 0xC810_04C8);
    assert_eq!(status.get_usize_address(), 0xC810_04CC);
    assert_eq!(misc.get_usize_address(), 0xC810_04D0);

    let ro_base = VolatilePtr::<RO, u8>::from_usize(usize::MAX);
    let wrapped: VolatilePtr<RO, u8> = ro_base.map_register::<RO>(2);
    assert_eq!(wrapped.get_usize_address(), 1);
}

#[test]
fn coerce_keeps_the_address() {
    let m: MutPtr<u32> = MutPtr::from_addr(0x77);
    let c: ConstPtr<u32> = m.coerce();
    let m2: MutPtr<u32> = m.coerce();
    let c2: ConstPtr<u32> = c.coerce();
    assert_eq!(c.to_addr(), 0x77);
    assert_eq!(m2.to_addr(), 0x77);
    assert_eq!(c2.to_addr(), 0x77);
}

#[test]
fn raw_byte_add_composes_and_can_be_undone() {
    let p = VolatilePtr::<RW, u8>::from_usize(0x1234);
    let two_steps = p.raw_byte_add(usize::MAX).raw_byte_add(7);
    let one_step = p.raw_byte_add(usize::MAX.wrapping_add(7));
    assert_eq!(two_steps, one_step);
    assert_eq!(two_steps.get_usize_address(), 0x123A);
    let x = 0x5000usize;
    let back = p.raw_byte_add(x).raw_byte_add(usize::MAX - x + 1);
    assert_eq!(back, p);
    assert_eq!(p.raw_byte_add(0), p);
    assert_eq!(p.raw_byte_add(10), p.byte_add(10));
}

#[test]
fn add_composes() {
    let p = VolatilePtr::<RW, u16>::from_usize(0x2000);
    assert_eq!(p.add(3).add(5), p.add(8));
    assert_eq!(p.add(8).get_usize_address(), 0x2010);
}

#[test]
fn set_bits_value_ors_the_mask_in() {
    assert_eq!(VolatilePtr::<RW, u32>::set_bits_value(0b1010, 0b0101), 0b1111);
    assert_eq!(VolatilePtr::<RW, u32>::set_bits_value(0b1010, 0b0010), 0b1010);
    assert_eq!(VolatilePtr::<RW, u8>::set_bits_value(0x80, 0x01), 0x81);
    assert_eq!(VolatilePtr::<RW, usize>::set_bits_value(0, usize::MAX), usize::MAX);
    assert_eq!(VolatilePtr::<RW, u64>::set_bits_value(1 << 40, 1), (1 << 40) | 1);
}

#[test]
fn clear_bits_value_masks_the_bits_out() {
    assert_eq!(VolatilePtr::<RW, u32>::clear_bits_value(0b1111, 0b0101), 0b1010);
    assert_eq!(VolatilePtr::<RW, u32>::clear_bits_value(0b1010, 0b0101), 0b1010);
    assert_eq!(VolatilePtr::<RW, u8>::clear_bits_value(0xFF, 0x0F), 0xF0);
    assert_eq!(VolatilePtr::<RW, usize>::clear_bits_value(usize::MAX, usize::MAX), 0);
    assert_eq!(VolatilePtr::<RW, u16>::clear_bits_value(0x1234, 0), 0x1234);
}

#[test]
fn set_and_clear_bits_laws_on_values() {
    let v: u32 = 0x0F0F_1234;
    let m: u32 = 0x00FF_0001;
    let set = VolatilePtr::<RW, u32>::set_bits_value(v, m);
    let clear = VolatilePtr::<RW, u32>::clear_bits_value(v, m);
    assert_eq!(set & m, m);
    assert_eq!(set & !m, v & !m);
    assert_eq!(clear & m, 0);
    assert_eq!(clear & !m, v & !m);
    assert_eq!(VolatilePtr::<RW, u32>::set_bits_value(set, m), set);
    assert_eq!(VolatilePtr::<RW, u32>::clear_bits_value(clear, m), clear);
    assert_eq!(VolatilePtr::<RW, u32>::clear_bits_value(set, m), clear);
    assert_eq!(VolatilePtr::<RW, u32>::set_bits_value(clear, m), set);
}

#[test]
fn wait_until_reached_ends_exactly_on_the_expected_value() {
    assert!(wait_until_reached(&3u32, &3u32));
    assert!(!wait_until_reached(&2u32, &3u32));
    const TX_FIFO_FULL: u32 = 0x200000;
    assert!(wait_until_reached(&(0x20_1234u32 & TX_FIFO_FULL), &TX_FIFO_FULL));
    assert!(!wait_until_reached(&(0x1234u32 & TX_FIFO_FULL), &TX_FIFO_FULL));
}

#[test]
fn raw_pointer_models_compare_and_order_by_address() {
    let a: MutPtr<u32> = MutPtr::from_addr(0x10);
    let b: MutPtr<u32> = MutPtr::from_addr(0x20);
    let a2: MutPtr<u32> = MutPtr::from_addr(0x10);
    assert!(a == a2);
    assert!(a != b);
    assert!(a < b);
    assert_eq!(a.cmp(&b), std::cmp::Ordering::Less);
    let c: ConstPtr<u8> = ConstPtr::from_addr(5);
    let d: ConstPtr<u8> = ConstPtr::from_addr(3);
    assert!(c > d);
    assert_eq!(c, ConstPtr::from_addr(5));
    let p = VolatilePtr::<RW, u32>::from_usize(0x40);
    assert_eq!(p.get_address(), p.as_raw_ptr());
    assert_eq!(p.cast::<u8>(), MutPtr::<u8>::from_addr(0x40));
}

#[test]
fn equal_addresses_give_equal_pointers() {
    let p = VolatilePtr::<RO, u16>::from_usize(0x300);
    let q = VolatilePtr::<RO, u16>::from_ptr(p.get_address());
    assert_eq!(q, p);
    assert_eq!(VolatilePtr::<RO, u16>::from_usize(0x300), p);
}

#[test]
fn bit_values_on_signed_and_wide_registers() {
    assert_eq!(VolatilePtr::<RW, i8>::set_bits_value(-128, 1), -127);
    assert_eq!(VolatilePtr::<RW, i32>::clear_bits_value(-1, 1), -2);
    assert_eq!(VolatilePtr::<RW, i64>::set_bits_value(0, -1), -1);
    assert_eq!(VolatilePtr::<RW, u128>::set_bits_value(1 << 100, 1), (1 << 100) | 1);
    assert_eq!(VolatilePtr::<RW, i128>::clear_bits_value(-1, i128::MIN), i128::MAX);
    assert_eq!(VolatilePtr::<RW, isize>::clear_bits_value(0b1111, 0b0101), 0b1010);
    assert_eq!(VolatilePtr::<RW, i16>::set_bits_value(0x0100, 0x0011), 0x0111);
}

#[test]
fn volatile_pointers_compare_and_order_by_address() {
    let a = VolatilePtr::<RW, u32>::from_usize(0x10);
    let b = VolatilePtr::<RW, u32>::from_usize(0x20);
    assert!(a != b);
    assert!(a < b);
    assert!(b > a);
    assert_eq!(a.cmp(&b), std::cmp::Ordering::Less);
    assert_eq!(a.partial_cmp(&a), Some(std::cmp::Ordering::Equal));
    let ra: MutPtr<u32> = MutPtr::from_addr(0x10);
    let rb: MutPtr<u32> = MutPtr::from_addr(0x20);
    let pa = VolatilePtr::<RW, u32>::from_ptr(ra);
    let pb = VolatilePtr::<RW, u32>::from_ptr(rb);
    assert_eq!(pa == pb, ra == rb);
    assert_eq!(pa.partial_cmp(&pb), ra.partial_cmp(&rb));
}

#[test]
fn clearing_undoes_setting_disjoint_bits() {
    let old: u32 = 0b1000_0001;
    let m: u32 = 0b0110_0000;
    let set = VolatilePtr::<RW, u32>::set_bits_value(old, m);
    assert_eq!(set, 0b1110_0001);
    assert_eq!(VolatilePtr::<RW, u32>::set_bits_value(set, m), set);
    assert_eq!(VolatilePtr::<RW, u32>::clear_bits_value(set, m), old);
}
