//! Explicit little-endian encoding of the accumulated 32-bit sample
//! words, decoupled from any in-memory layout: each word contributes
//! its four bytes, least significant first, in buffer order.

use vstd::bytes::spec_u32_to_le_bytes;
use vstd::bytes::u32_to_le_bytes;
use vstd::prelude::*;

verus! {

/// The little-endian byte image of a word sequence: four bytes per
/// word, least significant first, in order.
pub open spec fn le_bytes_of_words(ws: Seq<u32>) -> Seq<u8>
    decreases ws.len(),
{
    if ws.len() == 0 {
        Seq::empty()
    } else {
        le_bytes_of_words(ws.drop_last()) + spec_u32_to_le_bytes(ws.last())
    }
}

/// Law: the byte image is four bytes per word.
pub proof fn lemma_le_bytes_len(ws: Seq<u32>)
    ensures
        le_bytes_of_words(ws).len() == 4 * ws.len(),
    decreases ws.len(),
{
    if ws.len() > 0 {
        lemma_le_bytes_len(ws.drop_last());
        vstd::bytes::lemma_auto_spec_u32_to_from_le_bytes();
    }
}

/// Encodes the accumulated sample words as raw little-endian bytes,
/// four per word, in order.
pub fn words_to_le_bytes(words: &Vec<u32>) -> (r: Vec<u8>)
    ensures
        r@ == le_bytes_of_words(words@),
        r@.len() == 4 * words@.len(),
{
    let n = words.len();
    let mut r: Vec<u8> = Vec::new();
    let mut i: usize = 0;
    while i < n
        invariant
            i <= n,
            n == words@.len(),
            r@ =~= le_bytes_of_words(words@.take(i as int)),
            r@.len() == 4 * i,
        decreases n - i,
    {
        let mut quad = u32_to_le_bytes(words[i]);
        proof {
            vstd::bytes::lemma_auto_spec_u32_to_from_le_bytes();
        }
        let b0 = quad[0];
        let b1 = quad[1];
        let b2 = quad[2];
        let b3 = quad[3];
        r.push(b0);
        r.push(b1);
        r.push(b2);
        r.push(b3);
        proof {
            assert(words@.take(i + 1).drop_last() =~= words@.take(i as int));
            assert(r@ =~= le_bytes_of_words(words@.take(i as int)) + spec_u32_to_le_bytes(
                words@[i as int],
            ));
        }
        i += 1;
    }
    proof {
        assert(words@.take(n as int) =~= words@);
    }
    r
}

} // verus!
