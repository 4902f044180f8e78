//! Regression digests for the byte-run size classes, recorded as baselines,
//! plus determinism and repeated-finish checks.

use muse_hash::MuseHasher;

fn hash_bytes(seed_a: u64, seed_b: u64, data: &[u8]) -> u64 {
    let mut h = MuseHasher::new(seed_a, seed_b);
    h.write(data);
    h.finish()
}

fn pattern(len: usize, mul: u64, add: u64) -> Vec<u8> {
    let mut v: Vec<u8> = Vec::with_capacity(len);
    let mut i: u64 = 0;
    while v.len() < len {
        v.push((i.wrapping_mul(mul).wrapping_add(add) & 0xff) as u8);
        i += 1;
    }
    v
}

#[test]
fn finish_without_writes_baseline() {
    let h = MuseHasher::new(1, 2);
    assert_eq!(h.finish(), 0x37771409fafe742e);
}

#[test]
fn finish_twice_returns_same_value() {
    let mut h = MuseHasher::new(1, 2);
    assert_eq!(h.finish(), h.finish());
    h.write(b"some bytes");
    let first = h.finish();
    let second = h.finish();
    assert_eq!(first, second);
    h.write_u64(99);
    assert_eq!(h.finish(), h.finish());
}

#[test]
fn empty_input_baseline() {
    let mut h = MuseHasher::new(1, 2);
    h.write(&[]);
    assert_eq!(h.finish(), 0x7f22848924641f67);
}

#[test]
fn short_class_baselines() {
    assert_eq!(hash_bytes(1, 2, &[0x61]), 0x7fe0be9062a6a166);
    assert_eq!(hash_bytes(1, 2, &[0, 1, 2]), 0xf3db0cc533d0d850);
    assert_eq!(hash_bytes(1, 2, &[0, 1, 2, 3]), 0xd844637c25a3e08f);
    assert_eq!(hash_bytes(1, 2, &[0, 1, 2, 3, 4, 5, 6]), 0x947525be98ad4d68);
    assert_eq!(hash_bytes(1, 2, &[0, 1, 2, 3, 4, 5, 6, 7]), 0x4a6406fdf9f08829);
    let v13: Vec<u8> = (0u8..13).collect();
    assert_eq!(hash_bytes(1, 2, &v13), 0xef6f00c53342d22f);
    let v16: Vec<u8> = (0u8..16).collect();
    assert_eq!(hash_bytes(1, 2, &v16), 0xefecc177605c8d2a);
    let v17: Vec<u8> = (0u8..17).collect();
    assert_eq!(hash_bytes(1, 2, &v17), 0x70ccd0670425138e);
    let v32: Vec<u8> = (0u8..32).collect();
    assert_eq!(hash_bytes(1, 2, &v32), 0x6a9ebdd07adafab7);
    assert_eq!(hash_bytes(0x0123456789abcdef, 0xfedcba9876543210, &[0x61]), 0x546a77e7f9445986);
    assert_eq!(
        hash_bytes(0x0123456789abcdef, 0xfedcba9876543210, &v32),
        0xa90a3d206ac81999
    );
}

#[test]
fn medium_class_baselines() {
    assert_eq!(hash_bytes(1, 2, &pattern(33, 7, 3)), 0x0d7f155e494802a5);
    assert_eq!(hash_bytes(1, 2, &pattern(100, 7, 3)), 0xe354d2382cb94414);
    assert_eq!(hash_bytes(1, 2, &pattern(256, 7, 3)), 0xbfaf62ff49803320);
    assert_eq!(
        hash_bytes(0x0123456789abcdef, 0xfedcba9876543210, &pattern(100, 7, 3)),
        0x5aa150adb25953c9
    );
    assert_eq!(
        hash_bytes(0x0123456789abcdef, 0xfedcba9876543210, &pattern(256, 7, 3)),
        0x532eb5fb5e87c29d
    );
}

#[test]
fn long_class_baselines() {
    assert_eq!(hash_bytes(1, 2, &pattern(257, 7, 3)), 0xe580711948838adf);
    assert_eq!(hash_bytes(1, 2, &pattern(300, 11, 5)), 0x159a6c3c5164ef50);
    assert_eq!(hash_bytes(1, 2, &pattern(500, 13, 1)), 0x3259f73cdb8f47f0);
    assert_eq!(
        hash_bytes(0x0123456789abcdef, 0xfedcba9876543210, &pattern(257, 7, 3)),
        0x96fabaaf0e13f498
    );
    assert_eq!(
        hash_bytes(0x0123456789abcdef, 0xfedcba9876543210, &pattern(500, 13, 1)),
        0xfeed83b0f988987d
    );
}

#[test]
fn equal_seeds_equal_input_equal_digest() {
    let data = pattern(300, 11, 5);
    for _ in 0..8 {
        assert_eq!(
            hash_bytes(0x1111, 0x2222, &data),
            hash_bytes(0x1111, 0x2222, &data)
        );
    }
    let mut h1 = MuseHasher::new(7, 8);
    let mut h2 = MuseHasher::new(7, 8);
    h1.write(&data);
    h2.write(&data);
    assert_eq!(h1.finish(), h2.finish());
}
