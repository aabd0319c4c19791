use ppv_lite86::swar;
use ppv_lite86::{vec128_storage, vec256_storage, vec512_storage, IntoVec, Store};

#[test]
fn four_words_of_32_bits_round_trip() {
    let cases: [[u32; 4]; 4] = [
        [0, 0, 0, 0],
        [1, 2, 3, 4],
        [0xffff_ffff, 0, 0x8000_0000, 0x7fff_ffff],
        [0xdead_beef, 0x0123_4567, 0x89ab_cdef, 0xffff_ffff],
    ];
    for a in cases.iter() {
        let s: vec128_storage = a.into_vec();
        let b: [u32; 4] = s.into();
        assert_eq!(&b, a);
    }
}

#[test]
fn words_of_every_width_round_trip() {
    let a: [u64; 2] = [0x0123_4567_89ab_cdef, 0xfedc_ba98_7654_3210];
    let s: vec128_storage = a.into_vec();
    let b: [u64; 2] = s.into();
    assert_eq!(b, a);

    let a: [u128; 1] = [0x0011_2233_4455_6677_8899_aabb_ccdd_eeff];
    let s: vec128_storage = a.into_vec();
    let b: [u128; 1] = s.into();
    assert_eq!(b, a);

    let a: [u32; 8] = [1, 2, 3, 4, 5, 6, 7, 0xffff_fff8];
    let s: vec256_storage = a.into_vec();
    let b: [u32; 8] = s.into();
    assert_eq!(b, a);

    let a: [u64; 4] = [1, 0xffff_ffff_ffff_fffe, 3, 4];
    let s: vec256_storage = a.into_vec();
    let b: [u64; 4] = s.into();
    assert_eq!(b, a);

    let a: [u128; 2] = [u128::MAX, 7];
    let s: vec256_storage = a.into_vec();
    let b: [u128; 2] = s.into();
    assert_eq!(b, a);

    let a: [u32; 16] = [15, 14, 13, 12, 11, 10, 9, 8, 7, 6, 5, 4, 3, 2, 1, 0];
    let s: vec512_storage = a.into_vec();
    let b: [u32; 16] = s.into();
    assert_eq!(b, a);

    let a: [u64; 8] = [8, 7, 6, 5, 4, 3, 2, u64::MAX];
    let s: vec512_storage = a.into_vec();
    let b: [u64; 8] = s.into();
    assert_eq!(b, a);

    let a: [u128; 4] = [1, 2, 3, u128::MAX - 1];
    let s: vec512_storage = a.into_vec();
    let b: [u128; 4] = s.into();
    assert_eq!(b, a);
}

#[test]
fn two_words_of_64_bits_read_as_four_of_32() {
    let a: [u64; 2] = [0x0123_4567_89ab_cdef, 0xfedc_ba98_7654_3210];
    let s: vec128_storage = a.into_vec();
    let b: [u32; 4] = s.into();
    assert_eq!(b, [0x89ab_cdef, 0x0123_4567, 0x7654_3210, 0xfedc_ba98]);
    let mut bytes64 = [0u8; 16];
    bytes64[..8].copy_from_slice(&a[0].to_le_bytes());
    bytes64[8..].copy_from_slice(&a[1].to_le_bytes());
    let mut bytes32 = [0u8; 16];
    for i in 0..4 {
        bytes32[4 * i..4 * i + 4].copy_from_slice(&b[i].to_le_bytes());
    }
    assert_eq!(bytes32, bytes64);
    assert_eq!(swar::to_bytes(s.lane()), bytes64);
}

#[test]
fn four_words_of_32_bits_read_as_other_widths() {
    let a: [u32; 4] = [0x1111_1111, 0x2222_2222, 0x3333_3333, 0x4444_4444];
    let s: vec128_storage = a.into_vec();
    let b: [u64; 2] = s.into();
    assert_eq!(b, [0x2222_2222_1111_1111, 0x4444_4444_3333_3333]);
    let c: [u128; 1] = s.into();
    assert_eq!(c, [0x4444_4444_3333_3333_2222_2222_1111_1111]);
}

#[test]
fn wide_storage_keeps_the_order_of_lanes() {
    let a: [u128; 2] = [1, 2];
    let s: vec256_storage = a.into_vec();
    assert_eq!(s.lanes(), [1, 2]);
    let w: [u32; 8] = s.into();
    assert_eq!(w, [1, 0, 0, 0, 2, 0, 0, 0]);
    let a: [u64; 8] = [1, 2, 3, 4, 5, 6, 7, 8];
    let s: vec512_storage = a.into_vec();
    assert_eq!(
        s.lanes(),
        [
            (2u128 << 64) | 1,
            (4u128 << 64) | 3,
            (6u128 << 64) | 5,
            (8u128 << 64) | 7
        ]
    );
    assert_eq!(vec512_storage::from_lanes(s.lanes()).lanes(), s.lanes());
    assert_eq!(vec256_storage::from_lanes([9, 8]).lanes(), [9, 8]);
}

#[test]
fn storage_stores_itself() {
    let s = vec128_storage::from_lane(0x1234);
    let t: vec128_storage = Store::unpack(s);
    assert_eq!(t.lane(), 0x1234);
    let p: vec128_storage = t.pack();
    assert_eq!(p.lane(), 0x1234);
}

#[test]
fn wide_storage_is_made_of_units() {
    let a = vec128_storage::from_lane(1);
    let b = vec128_storage::from_lane(2);
    let c = vec128_storage::from_lane(3);
    let d = vec128_storage::from_lane(4);
    let s = vec256_storage::new128([a, b]);
    assert_eq!(s.lanes(), [1, 2]);
    let units = s.split128();
    assert_eq!([units[0].lane(), units[1].lane()], [1, 2]);
    let t = vec512_storage::new128([a, b, c, d]);
    assert_eq!(t.lanes(), [1, 2, 3, 4]);
    let units = t.split128();
    assert_eq!(
        [units[0].lane(), units[1].lane(), units[2].lane(), units[3].lane()],
        [1, 2, 3, 4]
    );
    let halves = t.split256();
    assert_eq!(halves[0].lanes(), [1, 2]);
    assert_eq!(halves[1].lanes(), [3, 4]);
    let u = vec512_storage::new256([halves[1], halves[0]]);
    assert_eq!(u.lanes(), [3, 4, 1, 2]);
    let w: [u32; 16] = u.into();
    assert_eq!(w, [3, 0, 0, 0, 4, 0, 0, 0, 1, 0, 0, 0, 2, 0, 0, 0]);
}
