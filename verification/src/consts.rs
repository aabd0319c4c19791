//! The constants of the BLAKE hash functions: the schedule that says which
//! message words a round takes and in which order, the words that seed the
//! state for each digest size, the round constants, and the padding block.
use vstd::prelude::*;

verus! {

/// The padding block: one byte 0x80 followed by 128 zero bytes. Any padding of
/// 1 to 129 bytes is a prefix of it.
pub const PADDING: &'static [u8; 129] = &[
    0x80,
    0, 0, 0, 0, 0, 0, 0, 0, 0, 0, 0, 0, 0, 0, 0, 0,
    0, 0, 0, 0, 0, 0, 0, 0, 0, 0, 0, 0, 0, 0, 0, 0,
    0, 0, 0, 0, 0, 0, 0, 0, 0, 0, 0, 0, 0, 0, 0, 0,
    0, 0, 0, 0, 0, 0, 0, 0, 0, 0, 0, 0, 0, 0, 0, 0,
    0, 0, 0, 0, 0, 0, 0, 0, 0, 0, 0, 0, 0, 0, 0, 0,
    0, 0, 0, 0, 0, 0, 0, 0, 0, 0, 0, 0, 0, 0, 0, 0,
    0, 0, 0, 0, 0, 0, 0, 0, 0, 0, 0, 0, 0, 0, 0, 0,
    0, 0, 0, 0, 0, 0, 0, 0, 0, 0, 0, 0, 0, 0, 0, 0,
];

/// The round schedule: round `r` takes the message words in the order that row
/// `r` modulo 16 gives. Rows 10 to 15 repeat rows 0 to 5.
pub const SIGMA: [[u8; 16]; 16] = [
    [0, 1, 2, 3, 4, 5, 6, 7, 8, 9, 10, 11, 12, 13, 14, 15],
    [14, 10, 4, 8, 9, 15, 13, 6, 1, 12, 0, 2, 11, 7, 5, 3],
    [11, 8, 12, 0, 5, 2, 15, 13, 10, 14, 3, 6, 7, 1, 9, 4],
    [7, 9, 3, 1, 13, 12, 11, 14, 2, 6, 5, 10, 4, 0, 15, 8],
    [9, 0, 5, 7, 2, 4, 10, 15, 14, 1, 11, 12, 6, 8, 3, 13],
    [2, 12, 6, 10, 0, 11, 8, 3, 4, 13, 7, 5, 15, 14, 1, 9],
    [12, 5, 1, 15, 14, 13, 4, 10, 0, 7, 6, 3, 9, 2, 8, 11],
    [13, 11, 7, 14, 12, 1, 3, 9, 5, 0, 15, 4, 8, 6, 2, 10],
    [6, 15, 14, 9, 11, 3, 0, 8, 12, 2, 13, 7, 1, 4, 10, 5],
    [10, 2, 8, 4, 7, 6, 1, 5, 15, 11, 9, 14, 3, 12, 13, 0],
    [0, 1, 2, 3, 4, 5, 6, 7, 8, 9, 10, 11, 12, 13, 14, 15],
    [14, 10, 4, 8, 9, 15, 13, 6, 1, 12, 0, 2, 11, 7, 5, 3],
    [11, 8, 12, 0, 5, 2, 15, 13, 10, 14, 3, 6, 7, 1, 9, 4],
    [7, 9, 3, 1, 13, 12, 11, 14, 2, 6, 5, 10, 4, 0, 15, 8],
    [9, 0, 5, 7, 2, 4, 10, 15, 14, 1, 11, 12, 6, 8, 3, 13],
    [2, 12, 6, 10, 0, 11, 8, 3, 4, 13, 7, 5, 15, 14, 1, 9],
];

/// The round constants of the 32-bit variants.
pub const BLAKE256_U: [u32; 16] = [
    0x243f_6a88, 0x85a3_08d3, 0x1319_8a2e, 0x0370_7344,
    0xa409_3822, 0x299f_31d0, 0x082e_fa98, 0xec4e_6c89,
    0x4528_21e6, 0x38d0_1377, 0xbe54_66cf, 0x34e9_0c6c,
    0xc0ac_29b7, 0xc97c_50dd, 0x3f84_d5b5, 0xb547_0917,
];

/// The round constants of the 64-bit variants.
pub const BLAKE512_U: [u64; 16] = [
    0x243f_6a88_85a3_08d3, 0x1319_8a2e_0370_7344, 0xa409_3822_299f_31d0, 0x082e_fa98_ec4e_6c89,
    0x4528_21e6_38d0_1377, 0xbe54_66cf_34e9_0c6c, 0xc0ac_29b7_c97c_50dd, 0x3f84_d5b5_b547_0917,
    0x9216_d5d9_8979_fb1b, 0xd131_0ba6_98df_b5ac, 0x2ffd_72db_d01a_dfb7, 0xb8e1_afed_6a26_7e96,
    0xba7c_9045_f12c_7f99, 0x24a1_9947_b391_6cf7, 0x0801_f2e2_858e_fc16, 0x6369_20d8_7157_4e69,
];

/// The two halves of the initial state for a digest of 224 bits.
pub const BLAKE224_IV: [[u32; 4]; 2] = [
    [0xc105_9ed8, 0x367c_d507, 0x3070_dd17, 0xf70e_5939],
    [0xffc0_0b31, 0x6858_1511, 0x64f9_8fa7, 0xbefa_4fa4],
];

/// The two halves of the initial state for a digest of 256 bits.
pub const BLAKE256_IV: [[u32; 4]; 2] = [
    [0x6a09_e667, 0xbb67_ae85, 0x3c6e_f372, 0xa54f_f53a],
    [0x510e_527f, 0x9b05_688c, 0x1f83_d9ab, 0x5be0_cd19],
];

/// The two halves of the initial state for a digest of 384 bits.
pub const BLAKE384_IV: [[u64; 4]; 2] = [
    [0xcbbb_9d5d_c105_9ed8, 0x629a_292a_367c_d507, 0x9159_015a_3070_dd17, 0x152f_ecd8_f70e_5939],
    [0x6733_2667_ffc0_0b31, 0x8eb4_4a87_6858_1511, 0xdb0c_2e0d_64f9_8fa7, 0x47b5_481d_befa_4fa4],
];

/// The two halves of the initial state for a digest of 512 bits.
pub const BLAKE512_IV: [[u64; 4]; 2] = [
    [0x6a09_e667_f3bc_c908, 0xbb67_ae85_84ca_a73b, 0x3c6e_f372_fe94_f82b, 0xa54f_f53a_5f1d_36f1],
    [0x510e_527f_ade6_82d1, 0x9b05_688c_2b3e_6c1f, 0x1f83_d9ab_fb41_bd6b, 0x5be0_cd19_137e_2179],
];

/// Whether `row` holds each of the indices 0 to 15 exactly once.
pub open spec fn is_permutation(row: Seq<u8>) -> bool {
    &&& row.len() == 16
    &&& forall|i: int| 0 <= i < 16 ==> #[trigger] row[i] < 16
    &&& forall|i: int, j: int| 0 <= i < j < 16 ==> #[trigger] row[i] != #[trigger] row[j]
    &&& forall|v: u8| v < 16 ==> #[trigger] row.contains(v)
}

/// Every row of the round schedule is a permutation of the indices 0 to 15.
pub proof fn lemma_sigma_rows_are_permutations()
    ensures
        forall|r: int| 0 <= r < 16 ==> is_permutation(#[trigger] SIGMA[r]@),
{
    assert(is_permutation(SIGMA[0]@)) by {
        let row = SIGMA[0]@;
        assert(row[0] == 0);
        assert(row[1] == 1);
        assert(row[2] == 2);
        assert(row[3] == 3);
        assert(row[4] == 4);
        assert(row[5] == 5);
        assert(row[6] == 6);
        assert(row[7] == 7);
        assert(row[8] == 8);
        assert(row[9] == 9);
        assert(row[10] == 10);
        assert(row[11] == 11);
        assert(row[12] == 12);
        assert(row[13] == 13);
        assert(row[14] == 14);
        assert(row[15] == 15);
    }
    assert(is_permutation(SIGMA[1]@)) by {
        let row = SIGMA[1]@;
        assert(row[10] == 0);
        assert(row[8] == 1);
        assert(row[11] == 2);
        assert(row[15] == 3);
        assert(row[2] == 4);
        assert(row[14] == 5);
        assert(row[7] == 6);
        assert(row[13] == 7);
        assert(row[3] == 8);
        assert(row[4] == 9);
        assert(row[1] == 10);
        assert(row[12] == 11);
        assert(row[9] == 12);
        assert(row[6] == 13);
        assert(row[0] == 14);
        assert(row[5] == 15);
    }
    assert(is_permutation(SIGMA[2]@)) by {
        let row = SIGMA[2]@;
        assert(row[3] == 0);
        assert(row[13] == 1);
        assert(row[5] == 2);
        assert(row[10] == 3);
        assert(row[15] == 4);
        assert(row[4] == 5);
        assert(row[11] == 6);
        assert(row[12] == 7);
        assert(row[1] == 8);
        assert(row[14] == 9);
        assert(row[8] == 10);
        assert(row[0] == 11);
        assert(row[2] == 12);
        assert(row[7] == 13);
        assert(row[9] == 14);
        assert(row[6] == 15);
    }
    assert(is_permutation(SIGMA[3]@)) by {
        let row = SIGMA[3]@;
        assert(row[13] == 0);
        assert(row[3] == 1);
        assert(row[8] == 2);
        assert(row[2] == 3);
        assert(row[12] == 4);
        assert(row[10] == 5);
        assert(row[9] == 6);
        assert(row[0] == 7);
        assert(row[15] == 8);
        assert(row[1] == 9);
        assert(row[11] == 10);
        assert(row[6] == 11);
        assert(row[5] == 12);
        assert(row[4] == 13);
        assert(row[7] == 14);
        assert(row[14] == 15);
    }
    assert(is_permutation(SIGMA[4]@)) by {
        let row = SIGMA[4]@;
        assert(row[1] == 0);
        assert(row[9] == 1);
        assert(row[4] == 2);
        assert(row[14] == 3);
        assert(row[5] == 4);
        assert(row[2] == 5);
        assert(row[12] == 6);
        assert(row[3] == 7);
        assert(row[13] == 8);
        assert(row[0] == 9);
        assert(row[6] == 10);
        assert(row[10] == 11);
        assert(row[11] == 12);
        assert(row[15] == 13);
        assert(row[8] == 14);
        assert(row[7] == 15);
    }
    assert(is_permutation(SIGMA[5]@)) by {
        let row = SIGMA[5]@;
        assert(row[4] == 0);
        assert(row[14] == 1);
        assert(row[0] == 2);
        assert(row[7] == 3);
        assert(row[8] == 4);
        assert(row[11] == 5);
        assert(row[2] == 6);
        assert(row[10] == 7);
        assert(row[6] == 8);
        assert(row[15] == 9);
        assert(row[3] == 10);
        assert(row[5] == 11);
        assert(row[1] == 12);
        assert(row[9] == 13);
        assert(row[13] == 14);
        assert(row[12] == 15);
    }
    assert(is_permutation(SIGMA[6]@)) by {
        let row = SIGMA[6]@;
        assert(row[8] == 0);
        assert(row[2] == 1);
        assert(row[13] == 2);
        assert(row[11] == 3);
        assert(row[6] == 4);
        assert(row[1] == 5);
        assert(row[10] == 6);
        assert(row[9] == 7);
        assert(row[14] == 8);
        assert(row[12] == 9);
        assert(row[7] == 10);
        assert(row[15] == 11);
        assert(row[0] == 12);
        assert(row[5] == 13);
        assert(row[4] == 14);
        assert(row[3] == 15);
    }
    assert(is_permutation(SIGMA[7]@)) by {
        let row = SIGMA[7]@;
        assert(row[9] == 0);
        assert(row[5] == 1);
        assert(row[14] == 2);
        assert(row[6] == 3);
        assert(row[11] == 4);
        assert(row[8] == 5);
        assert(row[13] == 6);
        assert(row[2] == 7);
        assert(row[12] == 8);
        assert(row[7] == 9);
        assert(row[15] == 10);
        assert(row[1] == 11);
        assert(row[4] == 12);
        assert(row[0] == 13);
        assert(row[3] == 14);
        assert(row[10] == 15);
    }
    assert(is_permutation(SIGMA[8]@)) by {
        let row = SIGMA[8]@;
        assert(row[6] == 0);
        assert(row[12] == 1);
        assert(row[9] == 2);
        assert(row[5] == 3);
        assert(row[13] == 4);
        assert(row[15] == 5);
        assert(row[0] == 6);
        assert(row[11] == 7);
        assert(row[7] == 8);
        assert(row[3] == 9);
        assert(row[14] == 10);
        assert(row[4] == 11);
        assert(row[8] == 12);
        assert(row[10] == 13);
        assert(row[2] == 14);
        assert(row[1] == 15);
    }
    assert(is_permutation(SIGMA[9]@)) by {
        let row = SIGMA[9]@;
        assert(row[15] == 0);
        assert(row[6] == 1);
        assert(row[1] == 2);
        assert(row[12] == 3);
        assert(row[3] == 4);
        assert(row[7] == 5);
        assert(row[5] == 6);
        assert(row[4] == 7);
        assert(row[2] == 8);
        assert(row[10] == 9);
        assert(row[0] == 10);
        assert(row[9] == 11);
        assert(row[13] == 12);
        assert(row[14] == 13);
        assert(row[11] == 14);
        assert(row[8] == 15);
    }
    assert(is_permutation(SIGMA[10]@)) by {
        let row = SIGMA[10]@;
        assert(row[0] == 0);
        assert(row[1] == 1);
        assert(row[2] == 2);
        assert(row[3] == 3);
        assert(row[4] == 4);
        assert(row[5] == 5);
        assert(row[6] == 6);
        assert(row[7] == 7);
        assert(row[8] == 8);
        assert(row[9] == 9);
        assert(row[10] == 10);
        assert(row[11] == 11);
        assert(row[12] == 12);
        assert(row[13] == 13);
        assert(row[14] == 14);
        assert(row[15] == 15);
    }
    assert(is_permutation(SIGMA[11]@)) by {
        let row = SIGMA[11]@;
        assert(row[10] == 0);
        assert(row[8] == 1);
        assert(row[11] == 2);
        assert(row[15] == 3);
        assert(row[2] == 4);
        assert(row[14] == 5);
        assert(row[7] == 6);
        assert(row[13] == 7);
        assert(row[3] == 8);
        assert(row[4] == 9);
        assert(row[1] == 10);
        assert(row[12] == 11);
        assert(row[9] == 12);
        assert(row[6] == 13);
        assert(row[0] == 14);
        assert(row[5] == 15);
    }
    assert(is_permutation(SIGMA[12]@)) by {
        let row = SIGMA[12]@;
        assert(row[3] == 0);
        assert(row[13] == 1);
        assert(row[5] == 2);
        assert(row[10] == 3);
        assert(row[15] == 4);
        assert(row[4] == 5);
        assert(row[11] == 6);
        assert(row[12] == 7);
        assert(row[1] == 8);
        assert(row[14] == 9);
        assert(row[8] == 10);
        assert(row[0] == 11);
        assert(row[2] == 12);
        assert(row[7] == 13);
        assert(row[9] == 14);
        assert(row[6] == 15);
    }
    assert(is_permutation(SIGMA[13]@)) by {
        let row = SIGMA[13]@;
        assert(row[13] == 0);
        assert(row[3] == 1);
        assert(row[8] == 2);
        assert(row[2] == 3);
        assert(row[12] == 4);
        assert(row[10] == 5);
        assert(row[9] == 6);
        assert(row[0] == 7);
        assert(row[15] == 8);
        assert(row[1] == 9);
        assert(row[11] == 10);
        assert(row[6] == 11);
        assert(row[5] == 12);
        assert(row[4] == 13);
        assert(row[7] == 14);
        assert(row[14] == 15);
    }
    assert(is_permutation(SIGMA[14]@)) by {
        let row = SIGMA[14]@;
        assert(row[1] == 0);
        assert(row[9] == 1);
        assert(row[4] == 2);
        assert(row[14] == 3);
        assert(row[5] == 4);
        assert(row[2] == 5);
        assert(row[12] == 6);
        assert(row[3] == 7);
        assert(row[13] == 8);
        assert(row[0] == 9);
        assert(row[6] == 10);
        assert(row[10] == 11);
        assert(row[11] == 12);
        assert(row[15] == 13);
        assert(row[8] == 14);
        assert(row[7] == 15);
    }
    assert(is_permutation(SIGMA[15]@)) by {
        let row = SIGMA[15]@;
        assert(row[4] == 0);
        assert(row[14] == 1);
        assert(row[0] == 2);
        assert(row[7] == 3);
        assert(row[8] == 4);
        assert(row[11] == 5);
        assert(row[2] == 6);
        assert(row[10] == 7);
        assert(row[6] == 8);
        assert(row[15] == 9);
        assert(row[3] == 10);
        assert(row[5] == 11);
        assert(row[1] == 12);
        assert(row[9] == 13);
        assert(row[13] == 14);
        assert(row[12] == 15);
    }
}

/// Rows 10 to 15 of the round schedule are rows 0 to 5.
pub proof fn lemma_sigma_repeats()
    ensures
        forall|r: int| 10 <= r < 16 ==> #[trigger] SIGMA[r] == SIGMA[r - 10],
{
    assert(SIGMA[10] =~= SIGMA[0]);
    assert(SIGMA[11] =~= SIGMA[1]);
    assert(SIGMA[12] =~= SIGMA[2]);
    assert(SIGMA[13] =~= SIGMA[3]);
    assert(SIGMA[14] =~= SIGMA[4]);
    assert(SIGMA[15] =~= SIGMA[5]);
}

/// The padding block has 129 bytes: 0x80 and then only zeros.
pub proof fn lemma_padding_shape()
    ensures
        PADDING@.len() == 129,
        PADDING[0] == 0x80,
        forall|i: int| 1 <= i < 129 ==> #[trigger] PADDING[i] == 0,
{
}

/// The first words of the two halves of the initial state for a digest of
/// 256 bits.
pub proof fn lemma_blake256_iv_first_words()
    ensures
        BLAKE256_IV[0][0] == 0x6a09_e667,
        BLAKE256_IV[1][0] == 0x510e_527f,
{
}

} // verus!
