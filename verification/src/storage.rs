//! Vector storage: bit patterns of one, two or four lanes without a word
//! width of their own.
use crate::crypto_simd_new_types::IntoVec;
use crate::algebra::vec_le_bytes;
use crate::lane::{
    bytes, from_words32, from_words64, lanes_of_words32, lanes_of_words64, le_bytes32, le_bytes64,
    lemma_bytes_of_words32, lemma_bytes_of_words64, lemma_words32_of_from_words64,
    lemma_words32_of_from_words32, lemma_words64_of_from_words64, words32, words64,
};
use crate::store::Store;
use crate::swar;
use vstd::prelude::*;
use vstd::std_specs::convert::FromSpec;
verus! {

/// 128 bits of storage for any vector of one lane.
#[allow(non_camel_case_types)]
#[derive(Copy, Clone)]
pub struct vec128_storage {
    lane: u128,
}

/// 256 bits of storage for any vector of two lanes.
#[allow(non_camel_case_types)]
#[derive(Copy, Clone)]
pub struct vec256_storage {
    lanes: [u128; 2],
}

/// 512 bits of storage for any vector of four lanes.
#[allow(non_camel_case_types)]
#[derive(Copy, Clone)]
pub struct vec512_storage {
    lanes: [u128; 4],
}

impl View for vec128_storage {
    type V = Seq<u128>;

    /// The one lane.
    closed spec fn view(&self) -> Seq<u128> {
        seq![self.lane]
    }
}

impl View for vec256_storage {
    type V = Seq<u128>;

    /// The two lanes, lane 0 first.
    closed spec fn view(&self) -> Seq<u128> {
        self.lanes@
    }
}

impl View for vec512_storage {
    type V = Seq<u128>;

    /// The four lanes, lane 0 first.
    closed spec fn view(&self) -> Seq<u128> {
        self.lanes@
    }
}

impl vec128_storage {
    /// A value has one lane, and the lane is all there is to it.
    pub proof fn lemma_view(self, other: Self)
        ensures
            self@.len() == 1,
            self@ == other@ ==> self == other,
    {
        assert(self@[0] == self.lane);
        assert(other@[0] == other.lane);
    }

    /// The storage value that holds `lane`.
    pub fn from_lane(lane: u128) -> (s: Self)
        ensures
            s@ == seq![lane],
    {
        vec128_storage { lane }
    }

    /// The lane of the storage value.
    pub fn lane(self) -> (l: u128)
        ensures
            self@ == seq![l],
    {
        self.lane
    }
}

impl vec256_storage {
    /// A value has two lanes, and the lanes are all there is to it.
    pub proof fn lemma_view(self, other: Self)
        ensures
            self@.len() == 2,
            self@ == other@ ==> self == other,
    {
        if self@ == other@ {
            assert(self.lanes =~= other.lanes);
        }
    }

    /// The storage value that holds `lanes`.
    pub fn from_lanes(lanes: [u128; 2]) -> (s: Self)
        ensures
            s@ == lanes@,
    {
        vec256_storage { lanes }
    }

    /// The lanes of the storage value.
    pub fn lanes(self) -> (l: [u128; 2])
        ensures
            l@ == self@,
    {
        self.lanes
    }

    /// The storage value made of two units of 128 bits, unit 0 first.
    pub fn new128(xs: [vec128_storage; 2]) -> (s: Self)
        ensures
            s@ == xs[0]@ + xs[1]@,
    {
        let s = vec256_storage { lanes: [xs[0].lane, xs[1].lane] };
        assert(s@ =~= xs[0]@ + xs[1]@);
        s
    }

    /// The two units of 128 bits that the storage value is made of, unit 0
    /// first.
    pub fn split128(self) -> (xs: [vec128_storage; 2])
        ensures
            self@ == xs[0]@ + xs[1]@,
    {
        let xs = [vec128_storage { lane: self.lanes[0] }, vec128_storage { lane: self.lanes[1] }];
        assert(self@ =~= xs[0]@ + xs[1]@);
        xs
    }
}

impl vec512_storage {
    /// A value has four lanes, and the lanes are all there is to it.
    pub proof fn lemma_view(self, other: Self)
        ensures
            self@.len() == 4,
            self@ == other@ ==> self == other,
    {
        if self@ == other@ {
            assert(self.lanes =~= other.lanes);
        }
    }

    /// The storage value that holds `lanes`.
    pub fn from_lanes(lanes: [u128; 4]) -> (s: Self)
        ensures
            s@ == lanes@,
    {
        vec512_storage { lanes }
    }

    /// The lanes of the storage value.
    pub fn lanes(self) -> (l: [u128; 4])
        ensures
            l@ == self@,
    {
        self.lanes
    }

    /// The storage value made of four units of 128 bits, unit 0 first.
    pub fn new128(xs: [vec128_storage; 4]) -> (s: Self)
        ensures
            s@ == xs[0]@ + xs[1]@ + xs[2]@ + xs[3]@,
    {
        let s = vec512_storage { lanes: [xs[0].lane, xs[1].lane, xs[2].lane, xs[3].lane] };
        assert(s@ =~= xs[0]@ + xs[1]@ + xs[2]@ + xs[3]@);
        s
    }

    /// The four units of 128 bits that the storage value is made of, unit 0
    /// first.
    pub fn split128(self) -> (xs: [vec128_storage; 4])
        ensures
            self@ == xs[0]@ + xs[1]@ + xs[2]@ + xs[3]@,
    {
        let xs = [
            vec128_storage { lane: self.lanes[0] },
            vec128_storage { lane: self.lanes[1] },
            vec128_storage { lane: self.lanes[2] },
            vec128_storage { lane: self.lanes[3] },
        ];
        assert(self@ =~= xs[0]@ + xs[1]@ + xs[2]@ + xs[3]@);
        xs
    }

    /// The storage value made of two units of 256 bits, unit 0 first.
    pub fn new256(xs: [vec256_storage; 2]) -> (s: Self)
        ensures
            s@ == xs[0]@ + xs[1]@,
    {
        let s = vec512_storage {
            lanes: [xs[0].lanes[0], xs[0].lanes[1], xs[1].lanes[0], xs[1].lanes[1]],
        };
        assert(s@ =~= xs[0]@ + xs[1]@);
        s
    }

    /// The two units of 256 bits that the storage value is made of, unit 0
    /// first.
    pub fn split256(self) -> (xs: [vec256_storage; 2])
        ensures
            self@ == xs[0]@ + xs[1]@,
    {
        let xs = [
            vec256_storage { lanes: [self.lanes[0], self.lanes[1]] },
            vec256_storage { lanes: [self.lanes[2], self.lanes[3]] },
        ];
        assert(self@ =~= xs[0]@ + xs[1]@);
        xs
    }
}

impl Store<vec128_storage> for vec128_storage {
    fn unpack(p: vec128_storage) -> (r: Self) {
        p
    }

    fn pack(self) -> (p: vec128_storage) {
        self
    }
}




impl IntoVec<vec128_storage> for [u32; 4] {
    /// The lanes whose words are the array, the first words in lane 0.
    open spec fn lanes(self) -> Seq<u128> {
        lanes_of_words32(self@)
    }

    fn into_vec(self) -> (r: vec128_storage) {
        let r = vec128_storage::from_lane(swar::join32([self[0], self[1], self[2], self[3]]));
        proof {
            assert(self@.subrange(0, 4) =~= seq![self[0], self[1], self[2], self[3]]);
            assert(r@ =~= self.lanes());
        }
        r
    }
}

impl From<vec128_storage> for [u32; 4] {
    /// The words of the storage value, read at this width.
    fn from(v: vec128_storage) -> (r: Self) {
        let w0 = swar::split32(v.lane());
        let r: [u32; 4] = [w0[0], w0[1], w0[2], w0[3]];
        proof {
            v.lemma_view(v);
        }
        r
    }
}

impl vstd::std_specs::convert::FromSpecImpl<vec128_storage> for [u32; 4] {
    open spec fn obeys_from_spec() -> bool {
        true
    }

    open spec fn from_spec(v: vec128_storage) -> Self {
        [words32(v@[0])[0], words32(v@[0])[1], words32(v@[0])[2], words32(v@[0])[3]]
    }
}

impl IntoVec<vec128_storage> for [u64; 2] {
    /// The lanes whose words are the array, the first words in lane 0.
    open spec fn lanes(self) -> Seq<u128> {
        lanes_of_words64(self@)
    }

    fn into_vec(self) -> (r: vec128_storage) {
        let r = vec128_storage::from_lane(swar::join64([self[0], self[1]]));
        proof {
            assert(self@.subrange(0, 2) =~= seq![self[0], self[1]]);
            assert(r@ =~= self.lanes());
        }
        r
    }
}

impl From<vec128_storage> for [u64; 2] {
    /// The words of the storage value, read at this width.
    fn from(v: vec128_storage) -> (r: Self) {
        let w0 = swar::split64(v.lane());
        let r: [u64; 2] = [w0[0], w0[1]];
        proof {
            v.lemma_view(v);
        }
        r
    }
}

impl vstd::std_specs::convert::FromSpecImpl<vec128_storage> for [u64; 2] {
    open spec fn obeys_from_spec() -> bool {
        true
    }

    open spec fn from_spec(v: vec128_storage) -> Self {
        [words64(v@[0])[0], words64(v@[0])[1]]
    }
}

impl IntoVec<vec128_storage> for [u128; 1] {
    /// The lanes whose words are the array, the first words in lane 0.
    open spec fn lanes(self) -> Seq<u128> {
        self@
    }

    fn into_vec(self) -> (r: vec128_storage) {
        let r = vec128_storage::from_lane(self[0]);
        proof {
            assert(r@ =~= self.lanes());
        }
        r
    }
}

impl From<vec128_storage> for [u128; 1] {
    /// The words of the storage value, read at this width.
    fn from(v: vec128_storage) -> (r: Self) {
        let r: [u128; 1] = [v.lane()];
        proof {
            v.lemma_view(v);
        }
        r
    }
}

impl vstd::std_specs::convert::FromSpecImpl<vec128_storage> for [u128; 1] {
    open spec fn obeys_from_spec() -> bool {
        true
    }

    open spec fn from_spec(v: vec128_storage) -> Self {
        [v@[0]]
    }
}

impl IntoVec<vec256_storage> for [u32; 8] {
    /// The lanes whose words are the array, the first words in lane 0.
    open spec fn lanes(self) -> Seq<u128> {
        lanes_of_words32(self@)
    }

    fn into_vec(self) -> (r: vec256_storage) {
        let r = vec256_storage::from_lanes([swar::join32([self[0], self[1], self[2], self[3]]), swar::join32([self[4], self[5], self[6], self[7]])]);
        proof {
            assert(self@.subrange(0, 4) =~= seq![self[0], self[1], self[2], self[3]]);
            assert(self@.subrange(4, 8) =~= seq![self[4], self[5], self[6], self[7]]);
            assert(r@ =~= self.lanes());
        }
        r
    }
}

impl From<vec256_storage> for [u32; 8] {
    /// The words of the storage value, read at this width.
    fn from(v: vec256_storage) -> (r: Self) {
        let l = v.lanes();
        let w0 = swar::split32(l[0]);
        let w1 = swar::split32(l[1]);
        let r: [u32; 8] = [w0[0], w0[1], w0[2], w0[3], w1[0], w1[1], w1[2], w1[3]];
        proof {
            v.lemma_view(v);
        }
        r
    }
}

impl vstd::std_specs::convert::FromSpecImpl<vec256_storage> for [u32; 8] {
    open spec fn obeys_from_spec() -> bool {
        true
    }

    open spec fn from_spec(v: vec256_storage) -> Self {
        [words32(v@[0])[0], words32(v@[0])[1], words32(v@[0])[2], words32(v@[0])[3], words32(v@[1])[0], words32(v@[1])[1], words32(v@[1])[2], words32(v@[1])[3]]
    }
}

impl IntoVec<vec256_storage> for [u64; 4] {
    /// The lanes whose words are the array, the first words in lane 0.
    open spec fn lanes(self) -> Seq<u128> {
        lanes_of_words64(self@)
    }

    fn into_vec(self) -> (r: vec256_storage) {
        let r = vec256_storage::from_lanes([swar::join64([self[0], self[1]]), swar::join64([self[2], self[3]])]);
        proof {
            assert(self@.subrange(0, 2) =~= seq![self[0], self[1]]);
            assert(self@.subrange(2, 4) =~= seq![self[2], self[3]]);
            assert(r@ =~= self.lanes());
        }
        r
    }
}

impl From<vec256_storage> for [u64; 4] {
    /// The words of the storage value, read at this width.
    fn from(v: vec256_storage) -> (r: Self) {
        let l = v.lanes();
        let w0 = swar::split64(l[0]);
        let w1 = swar::split64(l[1]);
        let r: [u64; 4] = [w0[0], w0[1], w1[0], w1[1]];
        proof {
            v.lemma_view(v);
        }
        r
    }
}

impl vstd::std_specs::convert::FromSpecImpl<vec256_storage> for [u64; 4] {
    open spec fn obeys_from_spec() -> bool {
        true
    }

    open spec fn from_spec(v: vec256_storage) -> Self {
        [words64(v@[0])[0], words64(v@[0])[1], words64(v@[1])[0], words64(v@[1])[1]]
    }
}

impl IntoVec<vec256_storage> for [u128; 2] {
    /// The lanes whose words are the array, the first words in lane 0.
    open spec fn lanes(self) -> Seq<u128> {
        self@
    }

    fn into_vec(self) -> (r: vec256_storage) {
        let r = vec256_storage::from_lanes([self[0], self[1]]);
        proof {
            assert(r@ =~= self.lanes());
        }
        r
    }
}

impl From<vec256_storage> for [u128; 2] {
    /// The words of the storage value, read at this width.
    fn from(v: vec256_storage) -> (r: Self) {
        let r: [u128; 2] = v.lanes();
        proof {
            v.lemma_view(v);
        }
        r
    }
}

impl vstd::std_specs::convert::FromSpecImpl<vec256_storage> for [u128; 2] {
    open spec fn obeys_from_spec() -> bool {
        true
    }

    open spec fn from_spec(v: vec256_storage) -> Self {
        [v@[0], v@[1]]
    }
}

impl IntoVec<vec512_storage> for [u32; 16] {
    /// The lanes whose words are the array, the first words in lane 0.
    open spec fn lanes(self) -> Seq<u128> {
        lanes_of_words32(self@)
    }

    fn into_vec(self) -> (r: vec512_storage) {
        let r = vec512_storage::from_lanes([swar::join32([self[0], self[1], self[2], self[3]]), swar::join32([self[4], self[5], self[6], self[7]]), swar::join32([self[8], self[9], self[10], self[11]]), swar::join32([self[12], self[13], self[14], self[15]])]);
        proof {
            assert(self@.subrange(0, 4) =~= seq![self[0], self[1], self[2], self[3]]);
            assert(self@.subrange(4, 8) =~= seq![self[4], self[5], self[6], self[7]]);
            assert(self@.subrange(8, 12) =~= seq![self[8], self[9], self[10], self[11]]);
            assert(self@.subrange(12, 16) =~= seq![self[12], self[13], self[14], self[15]]);
            assert(r@ =~= self.lanes());
        }
        r
    }
}

impl From<vec512_storage> for [u32; 16] {
    /// The words of the storage value, read at this width.
    fn from(v: vec512_storage) -> (r: Self) {
        let l = v.lanes();
        let w0 = swar::split32(l[0]);
        let w1 = swar::split32(l[1]);
        let w2 = swar::split32(l[2]);
        let w3 = swar::split32(l[3]);
        let r: [u32; 16] = [w0[0], w0[1], w0[2], w0[3], w1[0], w1[1], w1[2], w1[3], w2[0], w2[1], w2[2], w2[3], w3[0], w3[1], w3[2], w3[3]];
        proof {
            v.lemma_view(v);
        }
        r
    }
}

impl vstd::std_specs::convert::FromSpecImpl<vec512_storage> for [u32; 16] {
    open spec fn obeys_from_spec() -> bool {
        true
    }

    open spec fn from_spec(v: vec512_storage) -> Self {
        [words32(v@[0])[0], words32(v@[0])[1], words32(v@[0])[2], words32(v@[0])[3], words32(v@[1])[0], words32(v@[1])[1], words32(v@[1])[2], words32(v@[1])[3], words32(v@[2])[0], words32(v@[2])[1], words32(v@[2])[2], words32(v@[2])[3], words32(v@[3])[0], words32(v@[3])[1], words32(v@[3])[2], words32(v@[3])[3]]
    }
}

impl IntoVec<vec512_storage> for [u64; 8] {
    /// The lanes whose words are the array, the first words in lane 0.
    open spec fn lanes(self) -> Seq<u128> {
        lanes_of_words64(self@)
    }

    fn into_vec(self) -> (r: vec512_storage) {
        let r = vec512_storage::from_lanes([swar::join64([self[0], self[1]]), swar::join64([self[2], self[3]]), swar::join64([self[4], self[5]]), swar::join64([self[6], self[7]])]);
        proof {
            assert(self@.subrange(0, 2) =~= seq![self[0], self[1]]);
            assert(self@.subrange(2, 4) =~= seq![self[2], self[3]]);
            assert(self@.subrange(4, 6) =~= seq![self[4], self[5]]);
            assert(self@.subrange(6, 8) =~= seq![self[6], self[7]]);
            assert(r@ =~= self.lanes());
        }
        r
    }
}

impl From<vec512_storage> for [u64; 8] {
    /// The words of the storage value, read at this width.
    fn from(v: vec512_storage) -> (r: Self) {
        let l = v.lanes();
        let w0 = swar::split64(l[0]);
        let w1 = swar::split64(l[1]);
        let w2 = swar::split64(l[2]);
        let w3 = swar::split64(l[3]);
        let r: [u64; 8] = [w0[0], w0[1], w1[0], w1[1], w2[0], w2[1], w3[0], w3[1]];
        proof {
            v.lemma_view(v);
        }
        r
    }
}

impl vstd::std_specs::convert::FromSpecImpl<vec512_storage> for [u64; 8] {
    open spec fn obeys_from_spec() -> bool {
        true
    }

    open spec fn from_spec(v: vec512_storage) -> Self {
        [words64(v@[0])[0], words64(v@[0])[1], words64(v@[1])[0], words64(v@[1])[1], words64(v@[2])[0], words64(v@[2])[1], words64(v@[3])[0], words64(v@[3])[1]]
    }
}

impl IntoVec<vec512_storage> for [u128; 4] {
    /// The lanes whose words are the array, the first words in lane 0.
    open spec fn lanes(self) -> Seq<u128> {
        self@
    }

    fn into_vec(self) -> (r: vec512_storage) {
        let r = vec512_storage::from_lanes([self[0], self[1], self[2], self[3]]);
        proof {
            assert(r@ =~= self.lanes());
        }
        r
    }
}

impl From<vec512_storage> for [u128; 4] {
    /// The words of the storage value, read at this width.
    fn from(v: vec512_storage) -> (r: Self) {
        let r: [u128; 4] = v.lanes();
        proof {
            v.lemma_view(v);
        }
        r
    }
}

impl vstd::std_specs::convert::FromSpecImpl<vec512_storage> for [u128; 4] {
    open spec fn obeys_from_spec() -> bool {
        true
    }

    open spec fn from_spec(v: vec512_storage) -> Self {
        [v@[0], v@[1], v@[2], v@[3]]
    }
}

/// 4 words of 32 bits put into storage and read back at the same width
/// are the same words.
pub proof fn lemma_round_trip_u32x4(a: [u32; 4], s: vec128_storage)
    requires
        s@ == a.lanes(),
    ensures
        <[u32; 4] as FromSpec<vec128_storage>>::from_spec(s) == a,
{
    let r = <[u32; 4] as FromSpec<vec128_storage>>::from_spec(s);
    let part0 = a@.subrange(0, 4);
    assert(s@[0] == from_words32(part0));
    lemma_words32_of_from_words32(part0);
    assert(r[0] == part0[0]);
    assert(r[1] == part0[1]);
    assert(r[2] == part0[2]);
    assert(r[3] == part0[3]);
    assert(r =~= a);
}

/// 2 words of 64 bits put into storage and read back at the same width
/// are the same words.
pub proof fn lemma_round_trip_u64x2(a: [u64; 2], s: vec128_storage)
    requires
        s@ == a.lanes(),
    ensures
        <[u64; 2] as FromSpec<vec128_storage>>::from_spec(s) == a,
{
    let r = <[u64; 2] as FromSpec<vec128_storage>>::from_spec(s);
    let part0 = a@.subrange(0, 2);
    assert(s@[0] == from_words64(part0));
    lemma_words64_of_from_words64(part0);
    assert(r[0] == part0[0]);
    assert(r[1] == part0[1]);
    assert(r =~= a);
}

/// 1 words of 128 bits put into storage and read back at the same width
/// are the same words.
pub proof fn lemma_round_trip_u128x1(a: [u128; 1], s: vec128_storage)
    requires
        s@ == a.lanes(),
    ensures
        <[u128; 1] as FromSpec<vec128_storage>>::from_spec(s) == a,
{
    let r = <[u128; 1] as FromSpec<vec128_storage>>::from_spec(s);
    assert(r =~= a);
}

/// 8 words of 32 bits put into storage and read back at the same width
/// are the same words.
pub proof fn lemma_round_trip_u32x8(a: [u32; 8], s: vec256_storage)
    requires
        s@ == a.lanes(),
    ensures
        <[u32; 8] as FromSpec<vec256_storage>>::from_spec(s) == a,
{
    let r = <[u32; 8] as FromSpec<vec256_storage>>::from_spec(s);
    let part0 = a@.subrange(0, 4);
    assert(s@[0] == from_words32(part0));
    lemma_words32_of_from_words32(part0);
    assert(r[0] == part0[0]);
    assert(r[1] == part0[1]);
    assert(r[2] == part0[2]);
    assert(r[3] == part0[3]);
    let part1 = a@.subrange(4, 8);
    assert(s@[1] == from_words32(part1));
    lemma_words32_of_from_words32(part1);
    assert(r[4] == part1[0]);
    assert(r[5] == part1[1]);
    assert(r[6] == part1[2]);
    assert(r[7] == part1[3]);
    assert(r =~= a);
}

/// 4 words of 64 bits put into storage and read back at the same width
/// are the same words.
pub proof fn lemma_round_trip_u64x4(a: [u64; 4], s: vec256_storage)
    requires
        s@ == a.lanes(),
    ensures
        <[u64; 4] as FromSpec<vec256_storage>>::from_spec(s) == a,
{
    let r = <[u64; 4] as FromSpec<vec256_storage>>::from_spec(s);
    let part0 = a@.subrange(0, 2);
    assert(s@[0] == from_words64(part0));
    lemma_words64_of_from_words64(part0);
    assert(r[0] == part0[0]);
    assert(r[1] == part0[1]);
    let part1 = a@.subrange(2, 4);
    assert(s@[1] == from_words64(part1));
    lemma_words64_of_from_words64(part1);
    assert(r[2] == part1[0]);
    assert(r[3] == part1[1]);
    assert(r =~= a);
}

/// 2 words of 128 bits put into storage and read back at the same width
/// are the same words.
pub proof fn lemma_round_trip_u128x2(a: [u128; 2], s: vec256_storage)
    requires
        s@ == a.lanes(),
    ensures
        <[u128; 2] as FromSpec<vec256_storage>>::from_spec(s) == a,
{
    let r = <[u128; 2] as FromSpec<vec256_storage>>::from_spec(s);
    assert(r =~= a);
}

/// 16 words of 32 bits put into storage and read back at the same width
/// are the same words.
pub proof fn lemma_round_trip_u32x16(a: [u32; 16], s: vec512_storage)
    requires
        s@ == a.lanes(),
    ensures
        <[u32; 16] as FromSpec<vec512_storage>>::from_spec(s) == a,
{
    let r = <[u32; 16] as FromSpec<vec512_storage>>::from_spec(s);
    let part0 = a@.subrange(0, 4);
    assert(s@[0] == from_words32(part0));
    lemma_words32_of_from_words32(part0);
    assert(r[0] == part0[0]);
    assert(r[1] == part0[1]);
    assert(r[2] == part0[2]);
    assert(r[3] == part0[3]);
    let part1 = a@.subrange(4, 8);
    assert(s@[1] == from_words32(part1));
    lemma_words32_of_from_words32(part1);
    assert(r[4] == part1[0]);
    assert(r[5] == part1[1]);
    assert(r[6] == part1[2]);
    assert(r[7] == part1[3]);
    let part2 = a@.subrange(8, 12);
    assert(s@[2] == from_words32(part2));
    lemma_words32_of_from_words32(part2);
    assert(r[8] == part2[0]);
    assert(r[9] == part2[1]);
    assert(r[10] == part2[2]);
    assert(r[11] == part2[3]);
    let part3 = a@.subrange(12, 16);
    assert(s@[3] == from_words32(part3));
    lemma_words32_of_from_words32(part3);
    assert(r[12] == part3[0]);
    assert(r[13] == part3[1]);
    assert(r[14] == part3[2]);
    assert(r[15] == part3[3]);
    assert(r =~= a);
}

/// 8 words of 64 bits put into storage and read back at the same width
/// are the same words.
pub proof fn lemma_round_trip_u64x8(a: [u64; 8], s: vec512_storage)
    requires
        s@ == a.lanes(),
    ensures
        <[u64; 8] as FromSpec<vec512_storage>>::from_spec(s) == a,
{
    let r = <[u64; 8] as FromSpec<vec512_storage>>::from_spec(s);
    let part0 = a@.subrange(0, 2);
    assert(s@[0] == from_words64(part0));
    lemma_words64_of_from_words64(part0);
    assert(r[0] == part0[0]);
    assert(r[1] == part0[1]);
    let part1 = a@.subrange(2, 4);
    assert(s@[1] == from_words64(part1));
    lemma_words64_of_from_words64(part1);
    assert(r[2] == part1[0]);
    assert(r[3] == part1[1]);
    let part2 = a@.subrange(4, 6);
    assert(s@[2] == from_words64(part2));
    lemma_words64_of_from_words64(part2);
    assert(r[4] == part2[0]);
    assert(r[5] == part2[1]);
    let part3 = a@.subrange(6, 8);
    assert(s@[3] == from_words64(part3));
    lemma_words64_of_from_words64(part3);
    assert(r[6] == part3[0]);
    assert(r[7] == part3[1]);
    assert(r =~= a);
}

/// 4 words of 128 bits put into storage and read back at the same width
/// are the same words.
pub proof fn lemma_round_trip_u128x4(a: [u128; 4], s: vec512_storage)
    requires
        s@ == a.lanes(),
    ensures
        <[u128; 4] as FromSpec<vec512_storage>>::from_spec(s) == a,
{
    let r = <[u128; 4] as FromSpec<vec512_storage>>::from_spec(s);
    assert(r =~= a);
}

/// Two 64-bit words put into storage and read as four 32-bit words: each
/// 64-bit word gives its low half and then its high half. The bytes of the
/// storage are the little-endian bytes of the 64-bit words and, all the same,
/// those of the 32-bit words: no bit is converted.
pub proof fn lemma_u64x2_as_u32x4(a: [u64; 2], s: vec128_storage)
    requires
        s@ == a.lanes(),
    ensures
        ({
            let r = <[u32; 4] as FromSpec<vec128_storage>>::from_spec(s);
            &&& r@ == seq![a[0] as u32, (a[0] >> 32) as u32, a[1] as u32, (a[1] >> 32) as u32]
            &&& vec_le_bytes(s@) == le_bytes64(a[0]) + le_bytes64(a[1])
            &&& vec_le_bytes(s@) == le_bytes32(r[0]) + le_bytes32(r[1]) + le_bytes32(r[2])
                + le_bytes32(r[3])
        }),
{
    let r = <[u32; 4] as FromSpec<vec128_storage>>::from_spec(s);
    let l = s@[0];
    assert(a@.subrange(0, 2) =~= a@);
    assert(l == from_words64(a@));
    lemma_words32_of_from_words64(a@);
    lemma_words64_of_from_words64(a@);
    assert(r@ =~= words32(l));
    lemma_bytes_of_words32(l);
    lemma_bytes_of_words64(l);
    assert(vec_le_bytes(s@) =~= bytes(l));
}

} // verus!
