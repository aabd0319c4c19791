use ppv_lite86::machine::x86::{SSE2, SSE41, SSSE3};
use ppv_lite86::soft::w128::u128x1_soft;
use ppv_lite86::soft::w32::u32x4_soft;
use ppv_lite86::soft::w64::u64x2_soft;
use ppv_lite86::soft::x2::x2;
use ppv_lite86::features::{NoNI, NoS3, NoS4};
use ppv_lite86::crypto_simd_new::{AndNot, RotateEachWord32, RotateEachWord64};
use ppv_lite86::{
    vec128_storage, vec256_storage, vec512_storage, BSwap, LaneWords4, Machine, MultiLane, Store,
    StoreBytes, Swap64, UnsafeFrom, VZip, Vec2, Vec4, Words4,
};

fn w32<V: Store<vec128_storage>>(v: V) -> [u32; 4] {
    v.pack().into()
}

fn w64<V: Store<vec128_storage>>(v: V) -> [u64; 2] {
    v.pack().into()
}

fn w128<V: Store<vec128_storage>>(v: V) -> u128 {
    v.pack().lane()
}

fn v32<M: Machine>(m: M, a: [u32; 4]) -> M::u32x4 {
    m.vec::<M::u32x4, [u32; 4], vec128_storage>(a)
}

fn v64<M: Machine>(m: M, a: [u64; 2]) -> M::u64x2 {
    m.vec::<M::u64x2, [u64; 2], vec128_storage>(a)
}

fn v128<M: Machine>(m: M, a: u128) -> M::u128x1 {
    m.vec::<M::u128x1, [u128; 1], vec128_storage>([a])
}

const A: [u32; 4] = [0x0123_4567, 0x89ab_cdef, 0xffff_ffff, 0x8000_0001];
const B: [u32; 4] = [0xfedc_ba98, 0x7654_3211, 0x0000_0002, 0x8000_0000];
const C: [u64; 2] = [0x0123_4567_89ab_cdef, 0xffff_ffff_ffff_ffff];
const D: [u64; 2] = [0xfedc_ba98_7654_3211, 0x0000_0000_0000_0002];

fn bit_ops<M: Machine>(m: M) {
    let (a, b) = (v32(m, A), v32(m, B));
    assert_eq!(w32(a & b), [A[0] & B[0], A[1] & B[1], A[2] & B[2], A[3] & B[3]]);
    assert_eq!(w32(a | b), [A[0] | B[0], A[1] | B[1], A[2] | B[2], A[3] | B[3]]);
    assert_eq!(w32(a ^ b), [A[0] ^ B[0], A[1] ^ B[1], A[2] ^ B[2], A[3] ^ B[3]]);
    assert_eq!(w32(!a), [!A[0], !A[1], !A[2], !A[3]]);
    assert_eq!(w32(a.andnot(b)), [A[0] & !B[0], A[1] & !B[1], A[2] & !B[2], A[3] & !B[3]]);
    assert_eq!(w32(a & b)[0], 0x0000_0000);
    assert_eq!(w32(a ^ b)[1], 0xffff_fffe);
    assert_eq!(w32(a.andnot(b))[2], 0xffff_fffd);
    let (c, d) = (v64(m, C), v64(m, D));
    assert_eq!(w64(c ^ d), [C[0] ^ D[0], C[1] ^ D[1]]);
    assert_eq!(w64(c.andnot(d)), [C[0] & !D[0], C[1] & !D[1]]);
    let (e, f) = (v128(m, 0xff00), v128(m, 0x0ff0));
    assert_eq!(w128(e & f), 0x0f00);
    assert_eq!(w128(e | f), 0xfff0);
    assert_eq!(w128(e ^ f), 0xf0f0);
    assert_eq!(w128(e.andnot(f)), 0xf000);
    assert_eq!(w128(!e), !0xff00u128);
}

#[test]
fn bit_ops_on_sse2() {
    bit_ops(SSE2);
}

#[test]
fn bit_ops_on_ssse3() {
    bit_ops(SSSE3);
}

#[test]
fn bit_ops_on_sse41() {
    bit_ops(SSE41);
}

fn arithmetic<M: Machine>(m: M) {
    let (a, b) = (v32(m, A), v32(m, B));
    assert_eq!(w32(a + b), [0xffff_ffff, 0x0000_0000, 0x0000_0001, 0x0000_0001]);
    let (c, d) = (v64(m, C), v64(m, D));
    assert_eq!(w64(c + d), [0, 1]);
    assert_eq!(w64(c + d), [C[0].wrapping_add(D[0]), C[1].wrapping_add(D[1])]);
    assert_eq!(w32(a.bswap()), [0x6745_2301, 0xefcd_ab89, 0xffff_ffff, 0x0100_0080]);
    assert_eq!(w64(c.bswap()), [0xefcd_ab89_6745_2301, 0xffff_ffff_ffff_ffff]);
    assert_eq!(w32(a.bswap().bswap()), A);
}

#[test]
fn arithmetic_on_sse2() {
    arithmetic(SSE2);
}

#[test]
fn arithmetic_on_ssse3() {
    arithmetic(SSSE3);
}

#[test]
fn arithmetic_on_sse41() {
    arithmetic(SSE41);
}

fn rot32(a: [u32; 4], n: u32) -> [u32; 4] {
    [a[0].rotate_right(n), a[1].rotate_right(n), a[2].rotate_right(n), a[3].rotate_right(n)]
}

fn rot64(a: [u64; 2], n: u32) -> [u64; 2] {
    [a[0].rotate_right(n), a[1].rotate_right(n)]
}

fn rotations<M: Machine>(m: M) {
    let a = v32(m, A);
    assert_eq!(w32(a.rotate_each_word_right7()), rot32(A, 7));
    assert_eq!(w32(a.rotate_each_word_right8()), rot32(A, 8));
    assert_eq!(w32(a.rotate_each_word_right11()), rot32(A, 11));
    assert_eq!(w32(a.rotate_each_word_right12()), rot32(A, 12));
    assert_eq!(w32(a.rotate_each_word_right16()), rot32(A, 16));
    assert_eq!(w32(a.rotate_each_word_right20()), rot32(A, 20));
    assert_eq!(w32(a.rotate_each_word_right24()), rot32(A, 24));
    assert_eq!(w32(a.rotate_each_word_right25()), rot32(A, 25));
    assert_eq!(w32(a.rotate_each_word_right8())[0], 0x6701_2345);
    assert_eq!(w32(a.rotate_each_word_right16())[1], 0xcdef_89ab);
    assert_eq!(w32(a.rotate_each_word_right16().rotate_each_word_right16()), A);
    assert_eq!(
        w32(a.rotate_each_word_right7().rotate_each_word_right25()),
        A
    );
    assert_eq!(
        w32(a.rotate_each_word_right8().rotate_each_word_right12()),
        w32(a.rotate_each_word_right20())
    );
    let c = v64(m, C);
    assert_eq!(w64(c.rotate_each_word_right7()), rot64(C, 7));
    assert_eq!(w64(c.rotate_each_word_right8()), rot64(C, 8));
    assert_eq!(w64(c.rotate_each_word_right11()), rot64(C, 11));
    assert_eq!(w64(c.rotate_each_word_right12()), rot64(C, 12));
    assert_eq!(w64(c.rotate_each_word_right16()), rot64(C, 16));
    assert_eq!(w64(c.rotate_each_word_right20()), rot64(C, 20));
    assert_eq!(w64(c.rotate_each_word_right24()), rot64(C, 24));
    assert_eq!(w64(c.rotate_each_word_right25()), rot64(C, 25));
    assert_eq!(w64(c.rotate_each_word_right32()), rot64(C, 32));
    assert_eq!(w64(c.rotate_each_word_right32())[0], 0x89ab_cdef_0123_4567);
    assert_eq!(w64(c.rotate_each_word_right32().rotate_each_word_right32()), C);
    let x = 0x0011_2233_4455_6677_8899_aabb_ccdd_eeffu128;
    let e = v128(m, x);
    assert_eq!(w128(e.rotate_each_word_right7()), x.rotate_right(7));
    assert_eq!(w128(e.rotate_each_word_right8()), x.rotate_right(8));
    assert_eq!(w128(e.rotate_each_word_right11()), x.rotate_right(11));
    assert_eq!(w128(e.rotate_each_word_right12()), x.rotate_right(12));
    assert_eq!(w128(e.rotate_each_word_right16()), x.rotate_right(16));
    assert_eq!(w128(e.rotate_each_word_right20()), x.rotate_right(20));
    assert_eq!(w128(e.rotate_each_word_right24()), x.rotate_right(24));
    assert_eq!(w128(e.rotate_each_word_right25()), x.rotate_right(25));
    assert_eq!(w128(e.rotate_each_word_right32()), x.rotate_right(32));
    assert_eq!(
        w128(e.rotate_each_word_right8()),
        0xff00_1122_3344_5566_7788_99aa_bbcc_ddee
    );
}

#[test]
fn rotations_on_sse2() {
    rotations(SSE2);
}

#[test]
fn rotations_on_ssse3() {
    rotations(SSSE3);
}

#[test]
fn rotations_on_sse41() {
    rotations(SSE41);
}

fn elements<M: Machine>(m: M) {
    let a = v32(m, A);
    for i in 0..4 {
        assert_eq!(a.extract(i), A[i as usize]);
    }
    assert_eq!(w32(a.insert(7, 0)), [7, A[1], A[2], A[3]]);
    assert_eq!(w32(a.insert(7, 3)), [A[0], A[1], A[2], 7]);
    assert_eq!(w32(a.insert(7, 2).insert(A[2], 2)), A);
    let c = v64(m, C);
    assert_eq!(c.extract(0), C[0]);
    assert_eq!(c.extract(1), C[1]);
    assert_eq!(w64(c.insert(9, 1)), [C[0], 9]);
    assert_eq!(w64(c.insert(9, 0)), [9, C[1]]);
}

#[test]
fn elements_on_sse2() {
    elements(SSE2);
}

#[test]
fn elements_on_ssse3() {
    elements(SSSE3);
}

#[test]
fn elements_on_sse41() {
    elements(SSE41);
}

fn shuffles<M: Machine>(m: M) {
    let a = v32(m, [0, 1, 2, 3]);
    assert_eq!(w32(a.shuffle1230()), [3, 0, 1, 2]);
    assert_eq!(w32(a.shuffle2301()), [2, 3, 0, 1]);
    assert_eq!(w32(a.shuffle3012()), [1, 2, 3, 0]);
    assert_eq!(w32(a.shuffle_lane_words1230()), [3, 0, 1, 2]);
    assert_eq!(w32(a.shuffle_lane_words2301()), [2, 3, 0, 1]);
    assert_eq!(w32(a.shuffle_lane_words3012()), [1, 2, 3, 0]);
    assert_eq!(w32(a.shuffle1230().shuffle3012()), [0, 1, 2, 3]);
    assert_eq!(w32(a.shuffle3012().shuffle1230()), [0, 1, 2, 3]);
    assert_eq!(w32(a.shuffle2301().shuffle2301()), [0, 1, 2, 3]);
    assert_eq!(w32(a.shuffle1230().shuffle1230()), w32(a.shuffle2301()));
    assert_eq!(
        w32(a.shuffle1230().shuffle1230().shuffle1230().shuffle1230()),
        [0, 1, 2, 3]
    );
}

#[test]
fn shuffles_on_sse2() {
    shuffles(SSE2);
}

#[test]
fn shuffles_on_ssse3() {
    shuffles(SSSE3);
}

#[test]
fn shuffles_on_sse41() {
    shuffles(SSE41);
}

fn three_shuffles<M: Machine>(m: M, a: [u32; 4]) -> [u32; 4] {
    w32(v32(m, a).shuffle1230().shuffle2301().shuffle3012())
}

#[test]
fn the_three_shuffles_in_a_row_move_every_word_by_two_places() {
    assert_eq!(three_shuffles(SSE2, [1, 2, 3, 4]), [3, 4, 1, 2]);
    assert_eq!(three_shuffles(SSSE3, [1, 2, 3, 4]), [3, 4, 1, 2]);
    assert_eq!(
        three_shuffles(SSE41, [1, 2, 3, 4]),
        w32(v32(SSE41, [1, 2, 3, 4]).shuffle2301())
    );
}

#[test]
fn the_three_shuffles_in_a_row_return_a_vector_of_equal_halves() {
    assert_eq!(three_shuffles(SSE2, [1, 2, 1, 2]), [1, 2, 1, 2]);
    assert_eq!(three_shuffles(SSSE3, [7, 7, 7, 7]), [7, 7, 7, 7]);
    assert_eq!(three_shuffles(SSE41, [0, 9, 0, 9]), [0, 9, 0, 9]);
}

fn swaps<M: Machine>(m: M) {
    let x = 0x0011_2233_4455_6677_8899_aabb_ccdd_eeffu128;
    let e = v128(m, x);
    assert_eq!(w128(v128(m, 0b0110_1001).swap1()), 0b1001_0110);
    assert_eq!(w128(v128(m, 0b0110_1001).swap2()), 0b1001_0110);
    assert_eq!(w128(v128(m, 0x1e).swap4()), 0xe1);
    assert_eq!(w128(e.swap8()), 0x1100_3322_5544_7766_9988_bbaa_ddcc_ffee);
    assert_eq!(w128(e.swap16()), 0x2233_0011_6677_4455_aabb_8899_eeff_ccdd);
    assert_eq!(w128(e.swap32()), 0x4455_6677_0011_2233_ccdd_eeff_8899_aabb);
    assert_eq!(w128(e.swap64()), 0x8899_aabb_ccdd_eeff_0011_2233_4455_6677);
    assert_eq!(w128(e.swap1().swap1()), x);
    assert_eq!(w128(e.swap2().swap2()), x);
    assert_eq!(w128(e.swap4().swap4()), x);
    assert_eq!(w128(e.swap8().swap8()), x);
    assert_eq!(w128(e.swap16().swap16()), x);
    assert_eq!(w128(e.swap32().swap32()), x);
    assert_eq!(w128(e.swap64().swap64()), x);
}

#[test]
fn swaps_on_sse2() {
    swaps(SSE2);
}

#[test]
fn swaps_on_ssse3() {
    swaps(SSSE3);
}

#[test]
fn swaps_on_sse41() {
    swaps(SSE41);
}

const BYTES: [u8; 16] = [0, 1, 2, 3, 4, 5, 6, 7, 8, 9, 10, 11, 12, 13, 14, 15];

fn byte_buffers<M: Machine>(m: M) {
    let a: M::u32x4 = m.read_le(&BYTES);
    assert_eq!(w32(a), [0x0302_0100, 0x0706_0504, 0x0b0a_0908, 0x0f0e_0d0c]);
    let b: M::u32x4 = m.read_be(&BYTES);
    assert_eq!(w32(b), [0x0001_0203, 0x0405_0607, 0x0809_0a0b, 0x0c0d_0e0f]);
    let mut out = [0xffu8; 16];
    a.write_le(&mut out);
    assert_eq!(out, BYTES);
    let mut out = [0xffu8; 16];
    b.write_be(&mut out);
    assert_eq!(out, BYTES);
    let mut out = [0xffu8; 16];
    a.write_be(&mut out);
    assert_eq!(out, [3, 2, 1, 0, 7, 6, 5, 4, 11, 10, 9, 8, 15, 14, 13, 12]);
    let v = v32(m, A);
    let mut le = [0u8; 16];
    let mut be = [0u8; 16];
    v.write_le(&mut le);
    v.write_be(&mut be);
    for i in 0..4 {
        assert_eq!(&le[4 * i..4 * i + 4], &A[i].to_le_bytes());
        assert_eq!(&be[4 * i..4 * i + 4], &A[i].to_be_bytes());
    }
    assert_eq!(w32(m.read_le::<M::u32x4>(&le)), A);
    assert_eq!(w32(m.read_be::<M::u32x4>(&be)), A);
}

#[test]
fn byte_buffers_on_sse2() {
    byte_buffers(SSE2);
}

#[test]
fn byte_buffers_on_ssse3() {
    byte_buffers(SSSE3);
}

#[test]
fn byte_buffers_on_sse41() {
    byte_buffers(SSE41);
}

#[test]
fn bytes_of_64_bit_words() {
    let a = u64x2_soft::<NoS3, NoS4, NoNI>::unsafe_read_le(&BYTES);
    assert_eq!(w64(a), [0x0706_0504_0302_0100, 0x0f0e_0d0c_0b0a_0908]);
    let b = u64x2_soft::<NoS3, NoS4, NoNI>::unsafe_read_be(&BYTES);
    assert_eq!(w64(b), [0x0001_0203_0405_0607, 0x0809_0a0b_0c0d_0e0f]);
    let mut out = [0u8; 16];
    b.write_be(&mut out);
    assert_eq!(out, BYTES);
    a.write_be(&mut out);
    assert_eq!(out, [7, 6, 5, 4, 3, 2, 1, 0, 15, 14, 13, 12, 11, 10, 9, 8]);
    a.write_le(&mut out);
    assert_eq!(out, BYTES);
}

#[test]
fn assignment_operators() {
    let mut a = v32(SSE2, A);
    a ^= v32(SSE2, B);
    assert_eq!(w32(a), [A[0] ^ B[0], A[1] ^ B[1], A[2] ^ B[2], A[3] ^ B[3]]);
    let mut a = v32(SSE2, A);
    a += v32(SSE2, B);
    assert_eq!(w32(a), [0xffff_ffff, 0, 1, 1]);
    let mut c = v64(SSSE3, C);
    c ^= v64(SSSE3, D);
    assert_eq!(w64(c), [C[0] ^ D[0], C[1] ^ D[1]]);
    c += v64(SSSE3, D);
    assert_eq!(w64(c), [(C[0] ^ D[0]).wrapping_add(D[0]), (C[1] ^ D[1]).wrapping_add(D[1])]);
    let mut e = v128(SSE41, 0xf0);
    e ^= v128(SSE41, 0xff);
    assert_eq!(w128(e), 0x0f);
    let mut p = x2([v32(SSE2, A), v32(SSE2, B)]);
    p ^= x2([v32(SSE2, B), v32(SSE2, B)]);
    assert_eq!(w32(p.0[0]), [A[0] ^ B[0], A[1] ^ B[1], A[2] ^ B[2], A[3] ^ B[3]]);
    assert_eq!(w32(p.0[1]), [0, 0, 0, 0]);
    p += x2([v32(SSE2, [1, 1, 1, 1]), v32(SSE2, [0xffff_ffff, 2, 3, 4])]);
    assert_eq!(w32(p.0[1]), [0xffff_ffff, 2, 3, 4]);
}

#[test]
fn vectors_from_words_without_a_machine() {
    let a = u32x4_soft::<NoS3, NoS4, NoNI>::unsafe_from([1, 2, 3, 4]);
    assert_eq!(w32(a), [1, 2, 3, 4]);
    let b = u64x2_soft::<NoS3, NoS4, NoNI>::unsafe_from([5, 6]);
    assert_eq!(w64(b), [5, 6]);
    let c = u128x1_soft::<NoS3, NoS4, NoNI>::unsafe_from([7]);
    assert_eq!(w128(c), 7);
    let d = a.clone();
    assert_eq!(w32(d), [1, 2, 3, 4]);
}

fn lanes256<V: Store<vec256_storage>>(v: V) -> [u128; 2] {
    v.pack().lanes()
}

fn lanes512<V: Store<vec512_storage>>(v: V) -> [u128; 4] {
    v.pack().lanes()
}

fn two_lanes<M: Machine>(m: M) {
    let a: M::u32x4x2 = m.vec::<M::u32x4x2, [u32; 8], vec256_storage>([1, 2, 3, 4, 5, 6, 7, 8]);
    let b: M::u32x4x2 = m.vec::<M::u32x4x2, [u32; 8], vec256_storage>([
        0xffff_ffff,
        0xffff_ffff,
        0,
        1,
        2,
        3,
        4,
        0xffff_fff8,
    ]);
    let words = |v: M::u32x4x2| -> [u32; 8] { v.pack().into() };
    assert_eq!(words(a + b), [0, 1, 3, 5, 7, 9, 11, 0]);
    assert_eq!(words(a ^ a), [0; 8]);
    assert_eq!(words(a & b), [1, 2, 0, 0, 0, 2, 4, 8]);
    assert_eq!(words(a | b)[7], 0xffff_fff8);
    assert_eq!(words(!(a ^ a)), [0xffff_ffff; 8]);
    assert_eq!(words(a.andnot(b)), [0, 0, 3, 4, 5, 4, 3, 0]);
    assert_eq!(words(a.rotate_each_word_right16())[0], 0x0001_0000);
    assert_eq!(words(a.rotate_each_word_right8())[7], 0x0800_0000);
    assert_eq!(words(a.bswap())[4], 0x0500_0000);
    let lanes: [M::u32x4; 2] = a.to_lanes();
    assert_eq!(w32(lanes[0]), [1, 2, 3, 4]);
    assert_eq!(w32(lanes[1]), [5, 6, 7, 8]);
    let back: M::u32x4x2 = MultiLane::from_lanes(lanes);
    assert_eq!(words(back), [1, 2, 3, 4, 5, 6, 7, 8]);
    let zipped: M::u32x4x2 = [lanes[1], lanes[0]].vzip();
    assert_eq!(words(zipped), [5, 6, 7, 8, 1, 2, 3, 4]);
    assert_eq!(w32(a.extract(1)), [5, 6, 7, 8]);
    assert_eq!(words(a.insert(lanes[0], 1)), [1, 2, 3, 4, 1, 2, 3, 4]);
    assert_eq!(lanes256(a), [swar_lane([1, 2, 3, 4]), swar_lane([5, 6, 7, 8])]);
    let s: vec256_storage = a.pack();
    let again: M::u32x4x2 = m.unpack(s);
    assert_eq!(words(again), [1, 2, 3, 4, 5, 6, 7, 8]);

    let c: M::u64x2x2 = m.vec::<M::u64x2x2, [u64; 4], vec256_storage>([0, 1, 2, 3]);
    let words = |v: M::u64x2x2| -> [u64; 4] { v.pack().into() };
    assert_eq!(words(c.shuffle1230()), [3, 0, 1, 2]);
    assert_eq!(words(c.shuffle2301()), [2, 3, 0, 1]);
    assert_eq!(words(c.shuffle3012()), [1, 2, 3, 0]);
    assert_eq!(words(c.shuffle1230().shuffle3012()), [0, 1, 2, 3]);
    assert_eq!(words(c.shuffle1230().shuffle2301().shuffle3012()), [2, 3, 0, 1]);
    assert_eq!(words(c + c), [0, 2, 4, 6]);
    assert_eq!(words(c.rotate_each_word_right32())[1], 0x0000_0001_0000_0000);
    let mut bytes = [0u8; 32];
    c.write_le(&mut bytes);
    for i in 0..4 {
        assert_eq!(&bytes[8 * i..8 * i + 8], &(i as u64).to_le_bytes());
    }
    assert_eq!(words(m.read_le::<M::u64x2x2>(&bytes)), [0, 1, 2, 3]);
    c.write_be(&mut bytes);
    for i in 0..4 {
        assert_eq!(&bytes[8 * i..8 * i + 8], &(i as u64).to_be_bytes());
    }
    assert_eq!(words(m.read_be::<M::u64x2x2>(&bytes)), [0, 1, 2, 3]);

    let e: M::u128x2 = m.vec::<M::u128x2, [u128; 2], vec256_storage>([0x1234, 0xa5]);
    assert_eq!(lanes256(e.swap8()), [0x3412, 0xa500]);
    assert_eq!(lanes256(e.swap4()), [0x2143, 0x5a]);
    assert_eq!(lanes256(e.swap64().swap64()), [0x1234, 0xa5]);
    assert_eq!(w128(e.extract(1)), 0xa5);
}

fn swar_lane(w: [u32; 4]) -> u128 {
    ppv_lite86::swar::join32(w)
}

#[test]
fn two_lanes_on_sse2() {
    two_lanes(SSE2);
}

#[test]
fn two_lanes_on_ssse3() {
    two_lanes(SSSE3);
}

#[test]
fn two_lanes_on_sse41() {
    two_lanes(SSE41);
}

fn four_lanes<M: Machine>(m: M) {
    let w: [u32; 16] = [0, 1, 2, 3, 4, 5, 6, 7, 8, 9, 10, 11, 12, 13, 14, 15];
    let a: M::u32x4x4 = m.vec::<M::u32x4x4, [u32; 16], vec512_storage>(w);
    let words = |v: M::u32x4x4| -> [u32; 16] { v.pack().into() };
    assert_eq!(words(a), w);
    assert_eq!(
        words(a.shuffle_lane_words1230()),
        [3, 0, 1, 2, 7, 4, 5, 6, 11, 8, 9, 10, 15, 12, 13, 14]
    );
    assert_eq!(
        words(a.shuffle_lane_words2301()),
        [2, 3, 0, 1, 6, 7, 4, 5, 10, 11, 8, 9, 14, 15, 12, 13]
    );
    assert_eq!(
        words(a.shuffle_lane_words3012()),
        [1, 2, 3, 0, 5, 6, 7, 4, 9, 10, 11, 8, 13, 14, 15, 12]
    );
    assert_eq!(words(a.shuffle_lane_words1230().shuffle_lane_words3012()), w);
    assert_eq!(words(a + a)[15], 30);
    assert_eq!(words(a ^ a), [0; 16]);
    assert_eq!(words(a.rotate_each_word_right24())[1], 0x0000_0100);
    let lanes: [M::u32x4; 4] = a.to_lanes();
    assert_eq!(w32(lanes[2]), [8, 9, 10, 11]);
    let back: M::u32x4x4 = [lanes[3], lanes[2], lanes[1], lanes[0]].vzip();
    assert_eq!(words(back), [12, 13, 14, 15, 8, 9, 10, 11, 4, 5, 6, 7, 0, 1, 2, 3]);
    assert_eq!(w32(a.extract(3)), [12, 13, 14, 15]);
    assert_eq!(words(a.insert(lanes[0], 3))[12..], [0, 1, 2, 3]);
    assert_eq!(lanes512(a)[1], swar_lane([4, 5, 6, 7]));

    let c: M::u64x2x4 = m.vec::<M::u64x2x4, [u64; 8], vec512_storage>([1, 2, 3, 4, 5, 6, 7, 8]);
    let words = |v: M::u64x2x4| -> [u64; 8] { v.pack().into() };
    assert_eq!(words(c + c), [2, 4, 6, 8, 10, 12, 14, 16]);
    assert_eq!(words(c.rotate_each_word_right32())[7], 0x0000_0008_0000_0000);
    assert_eq!(w64(c.extract(2)), [5, 6]);
    assert_eq!(words(c.bswap())[0], 0x0100_0000_0000_0000);

    let e: M::u128x4 = m.vec::<M::u128x4, [u128; 4], vec512_storage>([1, 2, 3, 4]);
    assert_eq!(lanes512(e.swap1()), [2, 1, 3, 8]);
    assert_eq!(lanes512(e.swap64()), [1 << 64, 2 << 64, 3 << 64, 4 << 64]);
    assert_eq!(w128(e.to_lanes()[3]), 4);
}

#[test]
fn four_lanes_on_sse2() {
    four_lanes(SSE2);
}

#[test]
fn four_lanes_on_ssse3() {
    four_lanes(SSSE3);
}

#[test]
fn four_lanes_on_sse41() {
    four_lanes(SSE41);
}

fn mix<M: Machine>(m: M, input: &[u8; 64]) -> [u8; 64] {
    let mut a: M::u32x4 = m.read_le(&input[0..16]);
    let mut b: M::u32x4 = m.read_be(&input[16..32]);
    let mut c: M::u32x4 = m.read_le(&input[32..48]);
    let mut d: M::u32x4 = m.read_be(&input[48..64]);
    for _ in 0..5 {
        a = a + b;
        d = (d ^ a).rotate_each_word_right16();
        c = c + d;
        b = (b ^ c).rotate_each_word_right12();
        a = a + b;
        d = (d ^ a).rotate_each_word_right8();
        c = c + d;
        b = (b ^ c).rotate_each_word_right7();
        b = b.shuffle3012();
        c = c.shuffle2301();
        d = d.shuffle1230().bswap();
        a = a.andnot(!b) | (c & d);
    }
    let mut out = [0u8; 64];
    a.write_le(&mut out[0..16]);
    b.write_be(&mut out[16..32]);
    c.write_le(&mut out[32..48]);
    d.write_be(&mut out[48..64]);
    out
}

#[test]
fn every_machine_computes_the_same() {
    let mut input = [0u8; 64];
    for i in 0..64 {
        input[i] = (i as u8).wrapping_mul(37).wrapping_add(11);
    }
    let on_sse2 = mix(SSE2, &input);
    let on_ssse3 = mix(SSSE3, &input);
    let on_sse41 = mix(SSE41, &input);
    assert_eq!(on_sse2, on_ssse3);
    assert_eq!(on_sse2, on_sse41);
    assert_ne!(on_sse2, input);
}
