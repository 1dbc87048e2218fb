//! What holds of equality and order of device numbers.
use super::{
    lemma_pack_unpack, lemma_unpack_pack, pack64, pair_order, Dev, Dev32, Dev64, DevSplit,
};
use std::cmp::Ordering;
use vstd::prelude::*;
use vstd::std_specs::cmp::{PartialEqSpec, PartialOrdSpec};

verus! {

/// The order is a total order on pairs: two pairs are equal in it only if
/// they are the same pair, it turns round when its arguments are exchanged, and
/// it is transitive.
pub proof fn lemma_pair_order_total(a: (u32, u32), b: (u32, u32), c: (u32, u32))
    ensures
        pair_order(a, b) == Ordering::Equal <==> a == b,
        pair_order(a, b) == Ordering::Less <==> pair_order(b, a) == Ordering::Greater,
        pair_order(a, b) == Ordering::Less && pair_order(b, c) == Ordering::Less ==> pair_order(a, c)
            == Ordering::Less,
{
}

/// Device numbers are ordered as their pairs are, so the order agrees with
/// equality across all encodings.
pub proof fn lemma_order_agrees_with_equality(a: Dev, b: Dev)
    ensures
        a.partial_cmp_spec(&b) == Some(Ordering::Equal) <==> a.eq_spec(&b),
        a.eq_spec(&b) <==> a.pair() == b.pair(),
{
}

/// A device number is equal to every other encoding of the same pair, and to
/// its own 64-bit form.
pub proof fn lemma_encodings_agree(a: Dev32, b: DevSplit, c: Dev64)
    requires
        a.pair() == b.pair(),
        b.pair() == c.pair(),
    ensures
        a.eq_spec(&b),
        b.eq_spec(&c),
        c.eq_spec(&a),
        Dev::B32(a).eq_spec(&Dev::Split(b)),
        Dev::Split(b).eq_spec(&Dev::B64(c)),
        Dev::B64(c).eq_spec(&Dev::B32(a)),
        c.eq_spec(&pack64(a.pair().0, a.pair().1)),
        c.bits() == pack64(a.pair().0, a.pair().1),
{
    lemma_unpack_pack(a.pair().0, a.pair().1);
    lemma_pack_unpack(c.bits());
}

} // verus!
