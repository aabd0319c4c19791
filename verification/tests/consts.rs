use ppv_lite86::consts::{
    BLAKE224_IV, BLAKE256_IV, BLAKE256_U, BLAKE384_IV, BLAKE512_IV, BLAKE512_U, PADDING, SIGMA,
};

#[test]
fn sigma_rows_are_permutations() {
    for row in SIGMA.iter() {
        let mut seen = [false; 16];
        for &i in row.iter() {
            assert!(i < 16);
            assert!(!seen[i as usize]);
            seen[i as usize] = true;
        }
        assert!(seen.iter().all(|&s| s));
    }
}

#[test]
fn sigma_rows_10_to_15_repeat_rows_0_to_5() {
    for r in 10..16 {
        assert_eq!(SIGMA[r], SIGMA[r - 10]);
    }
}

#[test]
fn sigma_first_rows_have_published_values() {
    assert_eq!(SIGMA[0], [0, 1, 2, 3, 4, 5, 6, 7, 8, 9, 10, 11, 12, 13, 14, 15]);
    assert_eq!(SIGMA[1], [14, 10, 4, 8, 9, 15, 13, 6, 1, 12, 0, 2, 11, 7, 5, 3]);
    assert_eq!(SIGMA[9], [10, 2, 8, 4, 7, 6, 1, 5, 15, 11, 9, 14, 3, 12, 13, 0]);
    assert_eq!(SIGMA[15], [2, 12, 6, 10, 0, 11, 8, 3, 4, 13, 7, 5, 15, 14, 1, 9]);
}

#[test]
fn padding_is_0x80_then_zeros() {
    assert_eq!(PADDING.len(), 129);
    assert_eq!(PADDING[0], 0x80);
    assert!(PADDING[1..129].iter().all(|&b| b == 0));
}

#[test]
fn blake256_iv_has_known_first_words() {
    assert_eq!(BLAKE256_IV[0][0], 0x6a09e667);
    assert_eq!(BLAKE256_IV[1][0], 0x510e527f);
}

#[test]
fn initial_values_have_published_values() {
    assert_eq!(BLAKE224_IV[0], [0xc1059ed8, 0x367cd507, 0x3070dd17, 0xf70e5939]);
    assert_eq!(BLAKE224_IV[1], [0xffc00b31, 0x68581511, 0x64f98fa7, 0xbefa4fa4]);
    assert_eq!(BLAKE256_IV[0], [0x6a09e667, 0xbb67ae85, 0x3c6ef372, 0xa54ff53a]);
    assert_eq!(BLAKE256_IV[1], [0x510e527f, 0x9b05688c, 0x1f83d9ab, 0x5be0cd19]);
    assert_eq!(
        BLAKE384_IV[0],
        [0xcbbb9d5dc1059ed8, 0x629a292a367cd507, 0x9159015a3070dd17, 0x152fecd8f70e5939]
    );
    assert_eq!(
        BLAKE384_IV[1],
        [0x67332667ffc00b31, 0x8eb44a8768581511, 0xdb0c2e0d64f98fa7, 0x47b5481dbefa4fa4]
    );
    assert_eq!(
        BLAKE512_IV[0],
        [0x6a09e667f3bcc908, 0xbb67ae8584caa73b, 0x3c6ef372fe94f82b, 0xa54ff53a5f1d36f1]
    );
    assert_eq!(
        BLAKE512_IV[1],
        [0x510e527fade682d1, 0x9b05688c2b3e6c1f, 0x1f83d9abfb41bd6b, 0x5be0cd19137e2179]
    );
}

#[test]
fn round_constants_are_the_digits_of_pi() {
    assert_eq!(BLAKE256_U[0], 0x243f6a88);
    assert_eq!(BLAKE256_U[15], 0xb5470917);
    assert_eq!(BLAKE512_U[0], 0x243f6a8885a308d3);
    assert_eq!(BLAKE512_U[15], 0x636920d871574e69);
    for i in 0..8 {
        assert_eq!(BLAKE512_U[i] >> 32, BLAKE256_U[2 * i] as u64);
        assert_eq!(BLAKE512_U[i] & 0xffff_ffff, BLAKE256_U[2 * i + 1] as u64);
    }
}
