//! What any two backends agree on. Every operation of the algebra is stated
//! on the bit pattern and the shape of a vector, so vectors of two backends
//! that hold the same bit pattern give the same bit pattern under the same
//! operation. For the methods of the algebra's own traits that is their
//! contract as it stands; here it is shown of the shapes that two machines
//! give their vector types, of the operators of the standard library, and of
//! the elements that a vector is taken apart into.
use crate::crypto_simd_new::{AndNot, ArithOps, BitOps0};
use crate::crypto_simd_new_types::{
    u128x1, u128x2, u128x4, u32x4, u32x4x2, u32x4x4, u64x2, u64x2x2, u64x2x4, Vec2, Vec4,
};
use crate::machine::Machine;
use crate::shape::Shape;
use vstd::prelude::*;
use vstd::std_specs::ops::{AddSpec, BitAndSpec, BitOrSpec, BitXorSpec, NotSpec};

verus! {

/// Whether two vector types have the same number of lanes and the same word
/// width.
pub open spec fn same_shape<A: Shape, B: Shape>() -> bool {
    A::word_bits() == B::word_bits() && A::lane_count() == B::lane_count()
}

/// The vector types that two machines have for one name have the same shape,
/// whatever the capabilities of the machines.
pub proof fn lemma_machines_agree_on_shapes<M: Machine, N: Machine>()
    ensures
        same_shape::<M::u32x4, N::u32x4>(),
        same_shape::<M::u64x2, N::u64x2>(),
        same_shape::<M::u128x1, N::u128x1>(),
        same_shape::<M::u32x4x2, N::u32x4x2>(),
        same_shape::<M::u64x2x2, N::u64x2x2>(),
        same_shape::<M::u128x2, N::u128x2>(),
        same_shape::<M::u32x4x4, N::u32x4x4>(),
        same_shape::<M::u64x2x4, N::u64x2x4>(),
        same_shape::<M::u128x4, N::u128x4>(),
{
    arbitrary::<M::u32x4>().lemma_u32x4();
    arbitrary::<N::u32x4>().lemma_u32x4();
    arbitrary::<M::u64x2>().lemma_u64x2();
    arbitrary::<N::u64x2>().lemma_u64x2();
    arbitrary::<M::u128x1>().lemma_u128x1();
    arbitrary::<N::u128x1>().lemma_u128x1();
    arbitrary::<M::u32x4x2>().lemma_u32x4x2();
    arbitrary::<N::u32x4x2>().lemma_u32x4x2();
    arbitrary::<M::u64x2x2>().lemma_u64x2x2();
    arbitrary::<N::u64x2x2>().lemma_u64x2x2();
    arbitrary::<M::u128x2>().lemma_u128x2();
    arbitrary::<N::u128x2>().lemma_u128x2();
    arbitrary::<M::u32x4x4>().lemma_u32x4x4();
    arbitrary::<N::u32x4x4>().lemma_u32x4x4();
    arbitrary::<M::u64x2x4>().lemma_u64x2x4();
    arbitrary::<N::u64x2x4>().lemma_u64x2x4();
    arbitrary::<M::u128x4>().lemma_u128x4();
    arbitrary::<N::u128x4>().lemma_u128x4();
}

/// On two backends the bitwise operators give the same bit pattern from the
/// same bit patterns.
pub proof fn lemma_bit_ops_agree<A: BitOps0, B: BitOps0>(a1: A, a2: A, b1: B, b2: B)
    requires
        a1@ == b1@,
        a2@ == b2@,
    ensures
        a1.bitand_spec(a2)@ == b1.bitand_spec(b2)@,
        a1.bitor_spec(a2)@ == b1.bitor_spec(b2)@,
        a1.bitxor_spec(a2)@ == b1.bitxor_spec(b2)@,
        a1.not_spec()@ == b1.not_spec()@,
        a1.andnot_spec(a2)@ == b1.andnot_spec(b2)@,
{
    A::lemma_bit_ops(a1, a2);
    B::lemma_bit_ops(b1, b2);
}

/// On two backends with words of the same width `+` gives the same bit
/// pattern from the same bit patterns.
pub proof fn lemma_add_agrees<A: ArithOps, B: ArithOps>(a1: A, a2: A, b1: B, b2: B)
    requires
        A::word_bits() == B::word_bits(),
        a1@ == b1@,
        a2@ == b2@,
    ensures
        a1.add_spec(a2)@ == b1.add_spec(b2)@,
{
    A::lemma_arith_ops(a1, a2);
    B::lemma_arith_ops(b1, b2);
}

/// On two backends a vector of four 32-bit words with the same bit pattern
/// has the same words.
pub proof fn lemma_words_agree_u32x4<A: u32x4, B: u32x4>(a: A, b: B)
    requires
        a@ == b@,
    ensures
        a.elements() == b.elements(),
{
    a.lemma_u32x4();
    b.lemma_u32x4();
}

/// On two backends a vector of two 64-bit words with the same bit pattern has
/// the same words.
pub proof fn lemma_words_agree_u64x2<A: u64x2, B: u64x2>(a: A, b: B)
    requires
        a@ == b@,
    ensures
        a.elements() == b.elements(),
{
    a.lemma_u64x2();
    b.lemma_u64x2();
}

/// On two backends a vector of two lanes of four 32-bit words with the same bit
/// pattern is made of lanes with the same bit patterns.
pub proof fn lemma_lanes_agree_u32x4x2<V: u32x4, W: u32x4, A: u32x4x2<V>, B: u32x4x2<W>>(
    a: A,
    b: B,
    i: int,
)
    requires
        a@ == b@,
        0 <= i < 2,
    ensures
        Vec2::<V>::elements(a)[i]@ == Vec2::<W>::elements(b)[i]@,
{
    a.lemma_u32x4x2();
    b.lemma_u32x4x2();
    Vec2::<V>::lemma_elements(a);
    Vec2::<W>::lemma_elements(b);
    let x = Vec2::<V>::elements(a);
    let y = Vec2::<W>::elements(b);
    x[0].lemma_shape();
    x[0].lemma_u32x4();
    y[0].lemma_shape();
    y[0].lemma_u32x4();
    x[1].lemma_shape();
    x[1].lemma_u32x4();
    y[1].lemma_shape();
    y[1].lemma_u32x4();
    assert(x[i]@ =~= seq![a@[i]]);
    assert(y[i]@ =~= seq![b@[i]]);
}

/// On two backends a vector of two lanes of two 64-bit words with the same bit
/// pattern is made of lanes with the same bit patterns.
pub proof fn lemma_lanes_agree_u64x2x2<V: u64x2, W: u64x2, A: u64x2x2<V>, B: u64x2x2<W>>(
    a: A,
    b: B,
    i: int,
)
    requires
        a@ == b@,
        0 <= i < 2,
    ensures
        Vec2::<V>::elements(a)[i]@ == Vec2::<W>::elements(b)[i]@,
{
    a.lemma_u64x2x2();
    b.lemma_u64x2x2();
    Vec2::<V>::lemma_elements(a);
    Vec2::<W>::lemma_elements(b);
    let x = Vec2::<V>::elements(a);
    let y = Vec2::<W>::elements(b);
    x[0].lemma_shape();
    x[0].lemma_u64x2();
    y[0].lemma_shape();
    y[0].lemma_u64x2();
    x[1].lemma_shape();
    x[1].lemma_u64x2();
    y[1].lemma_shape();
    y[1].lemma_u64x2();
    assert(x[i]@ =~= seq![a@[i]]);
    assert(y[i]@ =~= seq![b@[i]]);
}

/// On two backends a vector of two lanes of one 128-bit word with the same bit
/// pattern is made of lanes with the same bit patterns.
pub proof fn lemma_lanes_agree_u128x2<V: u128x1, W: u128x1, A: u128x2<V>, B: u128x2<W>>(
    a: A,
    b: B,
    i: int,
)
    requires
        a@ == b@,
        0 <= i < 2,
    ensures
        Vec2::<V>::elements(a)[i]@ == Vec2::<W>::elements(b)[i]@,
{
    a.lemma_u128x2();
    b.lemma_u128x2();
    Vec2::<V>::lemma_elements(a);
    Vec2::<W>::lemma_elements(b);
    let x = Vec2::<V>::elements(a);
    let y = Vec2::<W>::elements(b);
    x[0].lemma_shape();
    x[0].lemma_u128x1();
    y[0].lemma_shape();
    y[0].lemma_u128x1();
    x[1].lemma_shape();
    x[1].lemma_u128x1();
    y[1].lemma_shape();
    y[1].lemma_u128x1();
    assert(x[i]@ =~= seq![a@[i]]);
    assert(y[i]@ =~= seq![b@[i]]);
}

/// On two backends a vector of four lanes of four 32-bit words with the same bit
/// pattern is made of lanes with the same bit patterns.
pub proof fn lemma_lanes_agree_u32x4x4<V: u32x4, W: u32x4, A: u32x4x4<V>, B: u32x4x4<W>>(
    a: A,
    b: B,
    i: int,
)
    requires
        a@ == b@,
        0 <= i < 4,
    ensures
        Vec4::<V>::elements(a)[i]@ == Vec4::<W>::elements(b)[i]@,
{
    a.lemma_u32x4x4();
    b.lemma_u32x4x4();
    Vec4::<V>::lemma_elements(a);
    Vec4::<W>::lemma_elements(b);
    let x = Vec4::<V>::elements(a);
    let y = Vec4::<W>::elements(b);
    x[0].lemma_shape();
    x[0].lemma_u32x4();
    y[0].lemma_shape();
    y[0].lemma_u32x4();
    x[1].lemma_shape();
    x[1].lemma_u32x4();
    y[1].lemma_shape();
    y[1].lemma_u32x4();
    x[2].lemma_shape();
    x[2].lemma_u32x4();
    y[2].lemma_shape();
    y[2].lemma_u32x4();
    x[3].lemma_shape();
    x[3].lemma_u32x4();
    y[3].lemma_shape();
    y[3].lemma_u32x4();
    assert(x[i]@ =~= seq![a@[i]]);
    assert(y[i]@ =~= seq![b@[i]]);
}

/// On two backends a vector of four lanes of two 64-bit words with the same bit
/// pattern is made of lanes with the same bit patterns.
pub proof fn lemma_lanes_agree_u64x2x4<V: u64x2, W: u64x2, A: u64x2x4<V>, B: u64x2x4<W>>(
    a: A,
    b: B,
    i: int,
)
    requires
        a@ == b@,
        0 <= i < 4,
    ensures
        Vec4::<V>::elements(a)[i]@ == Vec4::<W>::elements(b)[i]@,
{
    a.lemma_u64x2x4();
    b.lemma_u64x2x4();
    Vec4::<V>::lemma_elements(a);
    Vec4::<W>::lemma_elements(b);
    let x = Vec4::<V>::elements(a);
    let y = Vec4::<W>::elements(b);
    x[0].lemma_shape();
    x[0].lemma_u64x2();
    y[0].lemma_shape();
    y[0].lemma_u64x2();
    x[1].lemma_shape();
    x[1].lemma_u64x2();
    y[1].lemma_shape();
    y[1].lemma_u64x2();
    x[2].lemma_shape();
    x[2].lemma_u64x2();
    y[2].lemma_shape();
    y[2].lemma_u64x2();
    x[3].lemma_shape();
    x[3].lemma_u64x2();
    y[3].lemma_shape();
    y[3].lemma_u64x2();
    assert(x[i]@ =~= seq![a@[i]]);
    assert(y[i]@ =~= seq![b@[i]]);
}

/// On two backends a vector of four lanes of one 128-bit word with the same bit
/// pattern is made of lanes with the same bit patterns.
pub proof fn lemma_lanes_agree_u128x4<V: u128x1, W: u128x1, A: u128x4<V>, B: u128x4<W>>(
    a: A,
    b: B,
    i: int,
)
    requires
        a@ == b@,
        0 <= i < 4,
    ensures
        Vec4::<V>::elements(a)[i]@ == Vec4::<W>::elements(b)[i]@,
{
    a.lemma_u128x4();
    b.lemma_u128x4();
    Vec4::<V>::lemma_elements(a);
    Vec4::<W>::lemma_elements(b);
    let x = Vec4::<V>::elements(a);
    let y = Vec4::<W>::elements(b);
    x[0].lemma_shape();
    x[0].lemma_u128x1();
    y[0].lemma_shape();
    y[0].lemma_u128x1();
    x[1].lemma_shape();
    x[1].lemma_u128x1();
    y[1].lemma_shape();
    y[1].lemma_u128x1();
    x[2].lemma_shape();
    x[2].lemma_u128x1();
    y[2].lemma_shape();
    y[2].lemma_u128x1();
    x[3].lemma_shape();
    x[3].lemma_u128x1();
    y[3].lemma_shape();
    y[3].lemma_u128x1();
    assert(x[i]@ =~= seq![a@[i]]);
    assert(y[i]@ =~= seq![b@[i]]);
}

} // verus!
