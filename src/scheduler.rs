//! The block scheduler's data path: deinterleaving the fresh receive half
//! into a block of (left, right) levels, and reinterleaving a processed
//! block into the free transmit half.
//!
//! On the wire each frame is two consecutive words, right channel first.
use vstd::prelude::*;
use crate::{BLOCK_LENGTH, DMA_BUFFER_LENGTH, HALF_DMA_BUFFER_LENGTH};
use crate::codec::{
    decode_level, decoded_level, encode_level, encoded_word, lemma_decode_encode_round_trip,
};
use crate::engine::in_half;

verus! {

/// The block of (left, right) levels read from the half of `rx` that starts
/// at `fresh`: frame `i` has its right word at `fresh + 2i` and its left
/// word at `fresh + 2i + 1`.
pub open spec fn deinterleaved(rx: Seq<u32>, fresh: int) -> Seq<(int, int)> {
    Seq::new(
        BLOCK_LENGTH as nat,
        |i: int| (decoded_level(rx[fresh + 2 * i + 1]), decoded_level(rx[fresh + 2 * i])),
    )
}

/// `tx` with the half that starts at `free` overwritten by the encoded
/// frames of `block`, right word first; the other half is kept.
pub open spec fn reinterleaved(tx: Seq<u32>, block: Seq<(int, int)>, free: int) -> Seq<u32> {
    Seq::new(
        tx.len(),
        |k: int|
            if in_half(free, k) {
                let i = (k - free) / 2;
                if (k - free) % 2 == 0 {
                    encoded_word(block[i].1) as u32
                } else {
                    encoded_word(block[i].0) as u32
                }
            } else {
                tx[k]
            },
    )
}

/// The levels of a block of decoded frames.
pub open spec fn levels_of(block: Seq<(i32, i32)>) -> Seq<(int, int)> {
    Seq::new(block.len(), |i: int| (block[i].0 as int, block[i].1 as int))
}

/// The levels of a block of frames to encode.
pub open spec fn widened(block: Seq<(i64, i64)>) -> Seq<(int, int)> {
    Seq::new(block.len(), |i: int| (block[i].0 as int, block[i].1 as int))
}

/// Reads the fresh receive half that starts at `fresh` into a block of
/// (left, right) levels.
pub fn deinterleave(rx: &[u32; DMA_BUFFER_LENGTH], fresh: usize) -> (block: [(i32, i32); BLOCK_LENGTH])
    requires
        fresh + HALF_DMA_BUFFER_LENGTH <= DMA_BUFFER_LENGTH,
    ensures
        levels_of(block@) == deinterleaved(rx@, fresh as int),
{
    let mut block = [(0i32, 0i32); BLOCK_LENGTH];
    let mut i: usize = 0;
    while i < BLOCK_LENGTH
        invariant
            0 <= i <= BLOCK_LENGTH,
            fresh + HALF_DMA_BUFFER_LENGTH <= DMA_BUFFER_LENGTH,
            block@.len() == BLOCK_LENGTH,
            forall|j: int|
                0 <= j < i ==> #[trigger] levels_of(block@)[j] == deinterleaved(rx@, fresh as int)[j],
        decreases BLOCK_LENGTH - i,
    {
        let rx0: usize = fresh + 2 * i;
        let right = decode_level(rx[rx0]);
        let left = decode_level(rx[rx0 + 1]);
        let ghost prev = block@;
        block[i] = (left, right);
        proof {
            assert forall|j: int| 0 <= j <= i implies #[trigger] levels_of(block@)[j]
                == deinterleaved(rx@, fresh as int)[j] by {
                if j < i {
                    assert(levels_of(prev)[j] == deinterleaved(rx@, fresh as int)[j]);
                }
            }
        }
        i += 1;
    }
    assert(levels_of(block@) =~= deinterleaved(rx@, fresh as int));
    block
}

/// Writes a processed block into the free transmit half that starts at
/// `free`, each frame as its right word then its left word; the rest of
/// `tx` is left as it was.
pub fn reinterleave(
    block: &[(i64, i64); BLOCK_LENGTH],
    tx: &mut [u32; DMA_BUFFER_LENGTH],
    free: usize,
)
    requires
        free + HALF_DMA_BUFFER_LENGTH <= DMA_BUFFER_LENGTH,
    ensures
        final(tx)@ == reinterleaved(old(tx)@, widened(block@), free as int),
{
    let ghost target = reinterleaved(old(tx)@, widened(block@), free as int);
    let mut i: usize = 0;
    while i < BLOCK_LENGTH
        invariant
            0 <= i <= BLOCK_LENGTH,
            free + HALF_DMA_BUFFER_LENGTH <= DMA_BUFFER_LENGTH,
            block@.len() == BLOCK_LENGTH,
            tx@.len() == DMA_BUFFER_LENGTH,
            target == reinterleaved(old(tx)@, widened(block@), free as int),
            forall|k: int|
                0 <= k < DMA_BUFFER_LENGTH ==> #[trigger] tx@[k] == if free <= k < free + 2 * i {
                    target[k]
                } else {
                    old(tx)@[k]
                },
        decreases BLOCK_LENGTH - i,
    {
        let tx0: usize = free + 2 * i;
        let (left, right) = block[i];
        let right_word = encode_level(right);
        let left_word = encode_level(left);
        tx[tx0] = right_word;
        tx[tx0 + 1] = left_word;
        proof {
            assert((tx0 - free) / 2 == i as int);
            assert((tx0 + 1 - free) / 2 == i as int);
        }
        i += 1;
    }
    assert(tx@ =~= target);
}

/// Channel order is kept: the block read from a fresh half holds frame `i`
/// as (left, right) from the words at `2i + 1` and `2i`, and writing that
/// block back unmodified puts, at each position of the free half, the
/// re-encoded word at the same position of the fresh half, which decodes to
/// the same level: the sample survives the trip unchanged.
pub proof fn lemma_channel_order(rx: Seq<u32>, tx: Seq<u32>, fresh: int, free: int)
    requires
        rx.len() == DMA_BUFFER_LENGTH,
        tx.len() == DMA_BUFFER_LENGTH,
        0 <= fresh && fresh + HALF_DMA_BUFFER_LENGTH <= DMA_BUFFER_LENGTH,
        0 <= free && free + HALF_DMA_BUFFER_LENGTH <= DMA_BUFFER_LENGTH,
    ensures
        forall|i: int|
            0 <= i < BLOCK_LENGTH ==> #[trigger] deinterleaved(rx, fresh)[i] == (
                decoded_level(rx[fresh + 2 * i + 1]),
                decoded_level(rx[fresh + 2 * i]),
            ),
        forall|k: int|
            in_half(free, k) ==> #[trigger] reinterleaved(tx, deinterleaved(rx, fresh), free)[k]
                == encoded_word(decoded_level(rx[fresh + (k - free)])) as u32,
        forall|k: int|
            in_half(free, k) ==> decoded_level(
                #[trigger] reinterleaved(tx, deinterleaved(rx, fresh), free)[k],
            ) == decoded_level(rx[fresh + (k - free)]),
        forall|k: int|
            0 <= k < DMA_BUFFER_LENGTH && !in_half(free, k) ==> #[trigger] reinterleaved(
                tx,
                deinterleaved(rx, fresh),
                free,
            )[k] == tx[k],
{
    assert forall|k: int| in_half(free, k) implies #[trigger] reinterleaved(
        tx,
        deinterleaved(rx, fresh),
        free,
    )[k] == encoded_word(decoded_level(rx[fresh + (k - free)])) as u32 by {
        let j = k - free;
        let i = j / 2;
        assert(0 <= i < BLOCK_LENGTH);
        if j % 2 == 0 {
            assert(fresh + 2 * i == fresh + j);
        } else {
            assert(fresh + 2 * i + 1 == fresh + j);
        }
    }
    assert forall|k: int| in_half(free, k) implies decoded_level(
        #[trigger] reinterleaved(tx, deinterleaved(rx, fresh), free)[k],
    ) == decoded_level(rx[fresh + (k - free)]) by {
        let l = decoded_level(rx[fresh + (k - free)]);
        lemma_decode_encode_round_trip(l);
        assert(-0x80_0000 <= l < 0x80_0000);
    }
}

} // verus!
