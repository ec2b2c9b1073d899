//! Laws the facade's operations obey, stated over the same spec
//! functions its contracts use.
//!
//! [`Serial::write`](crate::facade::Serial::write) appends each
//! successful payload to the write log in one step, under the exclusive
//! write lock, so any run of writes reaches the device as a concatenation
//! of whole payloads. The lemma here states what that concatenation
//! guarantees: the total length is the sum of the payload lengths, and
//! every payload stands contiguous and unchanged at its offset — no two
//! payloads interleave at the byte level.

use vstd::prelude::*;

verus! {

/// The bytes the device receives when the given payloads are written one
/// after another: their concatenation.
pub open spec fn concat_payloads(payloads: Seq<Seq<u8>>) -> Seq<u8>
    decreases payloads.len(),
{
    if payloads.len() == 0 {
        Seq::empty()
    } else {
        concat_payloads(payloads.drop_last()) + payloads.last()
    }
}

/// The sum of the payloads' lengths.
pub open spec fn total_len(payloads: Seq<Seq<u8>>) -> nat
    decreases payloads.len(),
{
    if payloads.len() == 0 {
        0
    } else {
        total_len(payloads.drop_last()) + payloads.last().len()
    }
}

/// Where payload `i` begins in the concatenation: the lengths of the
/// payloads before it.
pub open spec fn offset_of(payloads: Seq<Seq<u8>>, i: int) -> nat {
    total_len(payloads.take(i))
}

/// Each payload lies inside the concatenation.
proof fn lemma_offset_bound(payloads: Seq<Seq<u8>>, i: int)
    requires
        0 <= i < payloads.len(),
    ensures
        offset_of(payloads, i) + payloads[i].len() <= total_len(payloads),
    decreases payloads.len(),
{
    if i == payloads.len() - 1 {
        assert(payloads.take(i) =~= payloads.drop_last());
    } else {
        lemma_offset_bound(payloads.drop_last(), i);
        assert(payloads.drop_last().take(i) =~= payloads.take(i));
        assert(payloads.drop_last()[i] =~= payloads[i]);
    }
}

/// Serialized writes do not interleave: the concatenation of the
/// payloads is exactly as long as their lengths sum to, and every payload
/// stands contiguous and unchanged at its offset.
pub proof fn lemma_writes_serialize(payloads: Seq<Seq<u8>>)
    ensures
        concat_payloads(payloads).len() == total_len(payloads),
        forall|i: int|
            0 <= i < payloads.len() ==> concat_payloads(payloads).subrange(
                offset_of(payloads, i) as int,
                (offset_of(payloads, i) + payloads[i].len()) as int,
            ) == payloads[i],
    decreases payloads.len(),
{
    if payloads.len() == 0 {
    } else {
        let pre = payloads.drop_last();
        lemma_writes_serialize(pre);
        assert forall|i: int|
            0 <= i < payloads.len() implies concat_payloads(payloads).subrange(
            offset_of(payloads, i) as int,
            (offset_of(payloads, i) + payloads[i].len()) as int,
        ) == payloads[i] by {
            if i == payloads.len() - 1 {
                assert(payloads.take(i) =~= pre);
                assert(concat_payloads(payloads).subrange(
                    offset_of(payloads, i) as int,
                    (offset_of(payloads, i) + payloads[i].len()) as int,
                ) =~= payloads[i]);
            } else {
                lemma_offset_bound(pre, i);
                assert(pre.take(i) =~= payloads.take(i));
                assert(pre[i] == payloads[i]);
                assert(concat_payloads(payloads).subrange(
                    offset_of(payloads, i) as int,
                    (offset_of(payloads, i) + payloads[i].len()) as int,
                ) =~= concat_payloads(pre).subrange(
                    offset_of(pre, i) as int,
                    (offset_of(pre, i) + pre[i].len()) as int,
                ));
            }
        }
    }
}

} // verus!
