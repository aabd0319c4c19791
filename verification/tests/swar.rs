use ppv_lite86::swar;

const L: u128 = 0x0f0e_0d0c_0b0a_0908_0706_0504_0302_0100;

#[test]
fn a_lane_splits_into_words_and_bytes() {
    assert_eq!(swar::split32(L), [0x0302_0100, 0x0706_0504, 0x0b0a_0908, 0x0f0e_0d0c]);
    assert_eq!(swar::split64(L), [0x0706_0504_0302_0100, 0x0f0e_0d0c_0b0a_0908]);
    assert_eq!(swar::to_bytes(L), [0, 1, 2, 3, 4, 5, 6, 7, 8, 9, 10, 11, 12, 13, 14, 15]);
    assert_eq!(swar::to_bytes(L), L.to_le_bytes());
}

#[test]
fn words_and_bytes_join_into_a_lane() {
    assert_eq!(swar::join32(swar::split32(L)), L);
    assert_eq!(swar::join64(swar::split64(L)), L);
    assert_eq!(swar::join32([1, 2, 3, 4]), (4u128 << 96) | (3u128 << 64) | (2u128 << 32) | 1);
    assert_eq!(swar::join64([1, 2]), (2u128 << 64) | 1);
    let mut buf = [0xeeu8; 20];
    buf[2..18].copy_from_slice(&L.to_le_bytes());
    assert_eq!(swar::from_bytes_at(&buf, 2), L);
}

#[test]
fn put_bytes_writes_its_sixteen_bytes_only() {
    let mut buf = [0xeeu8; 20];
    swar::put_bytes_at(L, &mut buf, 3);
    assert_eq!(&buf[..3], &[0xee, 0xee, 0xee]);
    assert_eq!(&buf[3..19], &L.to_le_bytes());
    assert_eq!(buf[19], 0xee);
}

#[test]
fn words_add_with_wraparound() {
    let a = swar::join32([0xffff_ffff, 1, 0x8000_0000, 7]);
    let b = swar::join32([1, 2, 0x8000_0000, 0xffff_fff9]);
    assert_eq!(swar::split32(swar::add_words32(a, b)), [0, 3, 0, 0]);
    let a = swar::join64([u64::MAX, 5]);
    let b = swar::join64([2, 6]);
    assert_eq!(swar::split64(swar::add_words64(a, b)), [1, 11]);
}

#[test]
fn words_rotate_right() {
    assert_eq!(swar::rotate32(0x0000_0001, 1), 0x8000_0000);
    assert_eq!(swar::rotate32(0x1234_5678, 8), 0x7812_3456);
    assert_eq!(swar::rotate64(0x0123_4567_89ab_cdef, 32), 0x89ab_cdef_0123_4567);
    for n in 1..32 {
        assert_eq!(swar::rotate32(0xdead_beef, n), 0xdead_beefu32.rotate_right(n));
        let r = swar::split32(swar::rotate_words32(L, n));
        let w = swar::split32(L);
        for i in 0..4 {
            assert_eq!(r[i], w[i].rotate_right(n));
        }
    }
    for n in 1..64 {
        assert_eq!(
            swar::rotate64(0xdead_beef_0bad_f00d, n),
            0xdead_beef_0bad_f00du64.rotate_right(n)
        );
        let r = swar::split64(swar::rotate_words64(L, n));
        let w = swar::split64(L);
        assert_eq!(r, [w[0].rotate_right(n), w[1].rotate_right(n)]);
    }
    for n in 1..128 {
        assert_eq!(swar::rotate_words128(L, n), L.rotate_right(n));
    }
}

#[test]
fn rotations_add_up() {
    let w = 0x1234_5678u32;
    for a in 1..32 {
        for b in 1..32 {
            let c = (a + b) % 32;
            let twice = swar::rotate32(swar::rotate32(w, a), b);
            let once = if c == 0 { w } else { swar::rotate32(w, c) };
            assert_eq!(twice, once);
        }
    }
}

#[test]
fn neighbouring_ranges_change_places() {
    assert_eq!(swar::swap_ranges(0b01, 1), 0b10);
    assert_eq!(swar::swap_ranges(0b0110, 2), 0b1001);
    assert_eq!(swar::swap_ranges(0xa5, 4), 0x5a);
    assert_eq!(swar::swap_ranges(0x1234, 8), 0x3412);
    assert_eq!(swar::swap_ranges(0x1234_5678, 16), 0x5678_1234);
    assert_eq!(swar::swap_ranges(0x1111_1111_2222_2222, 32), 0x2222_2222_1111_1111);
    assert_eq!(swar::swap_ranges(L, 64), (L << 64) | (L >> 64));
    for n in [1u32, 2, 4, 8, 16, 32, 64] {
        assert_eq!(swar::swap_ranges(swar::swap_ranges(L, n), n), L);
        assert_eq!(swar::upper_halves_mask(n) & (swar::upper_halves_mask(n) >> n), 0);
        assert_eq!(swar::upper_halves_mask(n) | (swar::upper_halves_mask(n) >> n), u128::MAX);
    }
}

#[test]
fn bytes_of_each_word_reverse() {
    let w = swar::split32(L);
    assert_eq!(
        swar::split32(swar::swap_bytes32(L)),
        [w[0].swap_bytes(), w[1].swap_bytes(), w[2].swap_bytes(), w[3].swap_bytes()]
    );
    assert_eq!(swar::split32(swar::swap_bytes32(L))[0], 0x0001_0203);
    let d = swar::split64(L);
    assert_eq!(swar::split64(swar::swap_bytes64(L)), [d[0].swap_bytes(), d[1].swap_bytes()]);
    assert_eq!(swar::split64(swar::swap_bytes64(L))[1], 0x0809_0a0b_0c0d_0e0f);
}

#[test]
fn words_of_a_lane_turn_round() {
    let l = swar::join32([0, 1, 2, 3]);
    assert_eq!(swar::split32(swar::shuffle32(l, 1)), [3, 0, 1, 2]);
    assert_eq!(swar::split32(swar::shuffle32(l, 2)), [2, 3, 0, 1]);
    assert_eq!(swar::split32(swar::shuffle32(l, 3)), [1, 2, 3, 0]);
}

#[test]
fn rotating_by_nothing_or_by_a_whole_word_changes_nothing() {
    assert_eq!(swar::rotate32(0xdead_beef, 0), 0xdead_beef);
    assert_eq!(swar::rotate32(0xdead_beef, 32), 0xdead_beef);
    assert_eq!(swar::rotate32(0xdead_beef, 33), 0xdead_beefu32.rotate_right(1));
    assert_eq!(swar::rotate64(0xdead_beef_0bad_f00d, 0), 0xdead_beef_0bad_f00d);
    assert_eq!(swar::rotate64(0xdead_beef_0bad_f00d, 64), 0xdead_beef_0bad_f00d);
    assert_eq!(swar::rotate_words32(L, 0), L);
    assert_eq!(swar::rotate_words32(L, 32), L);
    assert_eq!(swar::rotate_words64(L, 0), L);
    assert_eq!(swar::rotate_words64(L, 64), L);
    assert_eq!(swar::rotate_words128(L, 0), L);
    assert_eq!(swar::rotate_words128(L, 128), L);
    assert_eq!(swar::shuffle32(L, 0), L);
}
