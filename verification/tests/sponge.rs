//! The numeric-write sponge: flush trigger, bit-complement reset, and the
//! fixed-width shortcut family.

use muse_hash::MuseHasher;

#[test]
fn numeric_write_baselines() {
    let mut h = MuseHasher::new(1, 2);
    h.write_u32(0xdeadbeef);
    assert_eq!(h.finish(), 0x7aa94031f536497f);

    let mut h = MuseHasher::new(1, 2);
    for k in 0u64..5 {
        h.write_u64(k);
    }
    assert_eq!(h.finish(), 0x6233f29653e43d63);

    let mut h = MuseHasher::new(7, 9);
    h.write_u8(0xab);
    h.write_u16(0xcdef);
    h.write_u32(0x12345678);
    h.write_u64(0x1122334455667788);
    h.write_u128((1u128 << 127) | 0x55);
    assert_eq!(h.finish(), 0xf2c8feeb51b3fab1);
}

#[test]
fn sponge_packs_values_at_increasing_bit_offsets() {
    let mut h = MuseHasher::new(1, 2);
    for k in 1u8..=16 {
        h.write_u8(k);
    }
    // Sixteen 8-bit writes fill the sponge exactly; no flush has happened.
    assert_eq!(h.sponge_len, 128);
    assert_eq!(h.sponge, 0x100f0e0d0c0b0a090807060504030201);
    assert_eq!(h.acc_lo, 1);
    assert_eq!(h.acc_hi, 2);
}

#[test]
fn sponge_flush_trigger_and_reset() {
    let mut h = MuseHasher::new(1, 2);
    h.write_u64(0x1111111111111111);
    h.write_u64(0x2222222222222222);
    // The sponge is full but not yet flushed.
    assert_eq!(h.sponge_len, 128);
    let full = h.sponge;
    let (acc_lo, acc_hi) = (h.acc_lo, h.acc_hi);
    // The next write no longer fits: the sponge is flushed into the
    // accumulator and reset to its own bit-complement, then the new value is
    // written at bit offset zero.
    h.write_u64(0x3333333333333333);
    assert_eq!(h.sponge, (full ^ u128::MAX) ^ 0x3333333333333333);
    assert_eq!(h.sponge, 0xdddddddddddddddddddddddddddddddd);
    assert_eq!(h.sponge_len, 64);
    assert!((h.acc_lo, h.acc_hi) != (acc_lo, acc_hi));
    assert_eq!(h.finish(), 0x8c50061f94daf779);
}

#[test]
fn sponge_flush_trigger_on_byte_writes() {
    let mut h = MuseHasher::new(1, 2);
    for k in 1u8..=16 {
        h.write_u8(k);
    }
    let full = h.sponge;
    h.write_u8(0xaa);
    assert_eq!(h.sponge, (full ^ u128::MAX) ^ 0xaa);
    assert_eq!(h.sponge_len, 8);
    assert_eq!(h.finish(), 0x5e6cc53869a04765);
}

#[test]
fn signed_writes_match_their_unsigned_bits() {
    let mut a = MuseHasher::new(5, 6);
    let mut b = MuseHasher::new(5, 6);
    a.write_i8(-1);
    b.write_u8(0xff);
    assert_eq!(a.finish(), b.finish());
    assert_eq!(a.finish(), 0x63a8279b6005c121);

    let mut a = MuseHasher::new(5, 6);
    let mut b = MuseHasher::new(5, 6);
    a.write_i16(-2);
    b.write_u16(0xfffe);
    assert_eq!(a.finish(), b.finish());

    let mut a = MuseHasher::new(5, 6);
    let mut b = MuseHasher::new(5, 6);
    a.write_i32(-3);
    b.write_u32(0xffff_fffd);
    assert_eq!(a.finish(), b.finish());

    let mut a = MuseHasher::new(5, 6);
    let mut b = MuseHasher::new(5, 6);
    a.write_i64(-4);
    b.write_u64(0xffff_ffff_ffff_fffc);
    assert_eq!(a.finish(), b.finish());

    let mut a = MuseHasher::new(5, 6);
    let mut b = MuseHasher::new(5, 6);
    a.write_i128(-5);
    b.write_u128(u128::MAX - 4);
    assert_eq!(a.finish(), b.finish());
}

#[test]
fn pointer_width_writes_use_the_64_bit_shortcut() {
    let mut a = MuseHasher::new(11, 12);
    let mut b = MuseHasher::new(11, 12);
    a.write_usize(123_456_789);
    b.write_u64(123_456_789);
    assert_eq!(a.finish(), b.finish());

    let mut a = MuseHasher::new(11, 12);
    let mut b = MuseHasher::new(11, 12);
    a.write_isize(-42);
    b.write_u64((-42i64) as u64);
    assert_eq!(a.finish(), b.finish());
}

#[test]
fn numeric_path_differs_from_byte_run_path() {
    // The sponge path and the byte-run path are distinct algorithms by
    // design: hashing the same eight bytes through each gives different
    // digests.
    let mut a = MuseHasher::new(1, 2);
    let mut b = MuseHasher::new(1, 2);
    a.write_u64(0x0706050403020100);
    b.write(&[0, 1, 2, 3, 4, 5, 6, 7]);
    assert_ne!(a.finish(), b.finish());
}
