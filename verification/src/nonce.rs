//! Per-message nonce construction: the 24-byte base nonce with the message
//! counter folded into its trailing 8 bytes by exclusive-or.
//!
//! Exclusive-or (rather than addition) keeps the construction its own
//! inverse and makes collision-freedom easy to state: two counters give the
//! same nonce only if they are equal.

use vstd::prelude::*;

verus! {

/// Byte `i` (0-based, most significant first) of the big-endian encoding
/// of `c`.
pub open spec fn be_byte_of(c: u64, i: int) -> u8 {
    (c >> (((7 - i) * 8) as u64)) as u8
}

/// The nonce of message `counter` in a session with base nonce `base`: the
/// base nonce with the big-endian counter bytes combined into the last 8
/// positions by exclusive-or.
pub open spec fn nonce_of(base: Seq<u8>, counter: u64) -> Seq<u8> {
    Seq::new(24, |i: int| if i < 16 {
        base[i]
    } else {
        base[i] ^ be_byte_of(counter, i - 16)
    })
}

/// Derive the nonce for one message from the session's base nonce and the
/// message counter.
pub fn next_nonce(base_nonce: &[u8; 24], counter: u64) -> (r: [u8; 24])
    ensures
        r@ == nonce_of(base_nonce@, counter),
{
    let mut nonce: [u8; 24] = *base_nonce;
    let mut i: usize = 0;
    while i < 8
        invariant
            i <= 8,
            forall|j: int| 0 <= j < 16 + i ==> nonce@[j] == nonce_of(base_nonce@, counter)[j],
            forall|j: int| 16 + i <= j < 24 ==> nonce@[j] == base_nonce@[j],
        decreases 8 - i,
    {
        let sh: u64 = ((7 - i) as u64) * 8;
        let b: u8 = ((counter >> sh) & 0xff) as u8;
        proof {
            assert(((counter >> sh) & 0xff) as u8 == (counter >> sh) as u8) by (bit_vector);
            assert(sh == ((7 - i as int) * 8) as u64);
            assert(b == be_byte_of(counter, i as int));
        }
        nonce[16 + i] = nonce[16 + i] ^ b;
        i = i + 1;
    }
    proof {
        assert(nonce@ =~= nonce_of(base_nonce@, counter));
    }
    nonce
}

/// Nonce injectivity: for one base nonce, distinct message counters always
/// give distinct nonces, so a session that never reuses a counter never
/// reuses a nonce.
pub proof fn lemma_next_nonce_injective(base: Seq<u8>, c1: u64, c2: u64)
    requires
        base.len() == 24,
        c1 != c2,
    ensures
        nonce_of(base, c1) != nonce_of(base, c2),
{
    if nonce_of(base, c1) == nonce_of(base, c2) {
        assert forall|j: int| 0 <= j < 8 implies be_byte_of(c1, j) == be_byte_of(c2, j) by {
            assert(nonce_of(base, c1)[16 + j] == nonce_of(base, c2)[16 + j]);
            let x = base[16 + j];
            let b1 = be_byte_of(c1, j);
            let b2 = be_byte_of(c2, j);
            assert(x ^ b1 == x ^ b2 ==> b1 == b2) by (bit_vector);
        }
        assert(be_byte_of(c1, 0) == (c1 >> 56u64) as u8);
        assert(be_byte_of(c1, 1) == (c1 >> 48u64) as u8);
        assert(be_byte_of(c1, 2) == (c1 >> 40u64) as u8);
        assert(be_byte_of(c1, 3) == (c1 >> 32u64) as u8);
        assert(be_byte_of(c1, 4) == (c1 >> 24u64) as u8);
        assert(be_byte_of(c1, 5) == (c1 >> 16u64) as u8);
        assert(be_byte_of(c1, 6) == (c1 >> 8u64) as u8);
        assert(be_byte_of(c1, 7) == (c1 >> 0u64) as u8);
        assert(be_byte_of(c2, 0) == (c2 >> 56u64) as u8);
        assert(be_byte_of(c2, 1) == (c2 >> 48u64) as u8);
        assert(be_byte_of(c2, 2) == (c2 >> 40u64) as u8);
        assert(be_byte_of(c2, 3) == (c2 >> 32u64) as u8);
        assert(be_byte_of(c2, 4) == (c2 >> 24u64) as u8);
        assert(be_byte_of(c2, 5) == (c2 >> 16u64) as u8);
        assert(be_byte_of(c2, 6) == (c2 >> 8u64) as u8);
        assert(be_byte_of(c2, 7) == (c2 >> 0u64) as u8);
        assert((c1 >> 56u64) as u8 == (c2 >> 56u64) as u8
            && (c1 >> 48u64) as u8 == (c2 >> 48u64) as u8
            && (c1 >> 40u64) as u8 == (c2 >> 40u64) as u8
            && (c1 >> 32u64) as u8 == (c2 >> 32u64) as u8
            && (c1 >> 24u64) as u8 == (c2 >> 24u64) as u8
            && (c1 >> 16u64) as u8 == (c2 >> 16u64) as u8
            && (c1 >> 8u64) as u8 == (c2 >> 8u64) as u8
            && (c1 >> 0u64) as u8 == (c2 >> 0u64) as u8
            ==> c1 == c2) by (bit_vector);
        assert(false);
    }
}

} // verus!
