use vstd::prelude::*;
use vstd::arithmetic::div_mod::{lemma_mod_breakdown, lemma_small_mod};

verus! {

/// The unsigned integer that `b` encodes in little-endian byte order.
pub open spec fn le_value(b: Seq<u8>) -> nat
    decreases b.len(),
{
    if b.len() == 0 {
        0
    } else {
        b[0] as nat + 256 * le_value(b.drop_first())
    }
}

/// The `len` low-order bytes of `n`, least significant first.
pub open spec fn le_bytes(n: nat, len: nat) -> Seq<u8>
    decreases len,
{
    if len == 0 {
        Seq::empty()
    } else {
        seq![(n % 256) as u8] + le_bytes(n / 256, (len - 1) as nat)
    }
}

/// The order of the prime-order subgroup of Curve25519, 2^252 + 27742317777372353535851937790883648493.
pub open spec fn group_order() -> nat {
    7237005577332262213973186563042994240857116359379907606001950938285454250989nat
}

/// The canonical 32-byte encoding of the scalar that `b` reduces to modulo the group order.
pub open spec fn reduced_scalar(b: Seq<u8>) -> Seq<u8> {
    le_bytes(le_value(b) % group_order(), 32)
}

/// Bytes that already encode a scalar below the group order.
pub open spec fn is_canonical_scalar(b: Seq<u8>) -> bool {
    b.len() == 32 && le_value(b) < group_order()
}

/// Encoding the value of a byte string again gives back the same bytes.
pub proof fn lemma_le_bytes_of_value(b: Seq<u8>)
    ensures
        le_bytes(le_value(b), b.len()) == b,
    decreases b.len(),
{
    if b.len() > 0 {
        let t = b.drop_first();
        lemma_le_bytes_of_value(t);
        let v = le_value(t);
        let d = b[0] as nat;
        assert((d + 256 * v) % 256 == d && (d + 256 * v) / 256 == v) by (nonlinear_arith)
            requires
                d < 256,
        ;
        assert(le_bytes(le_value(b), b.len()) =~= b);
    }
}

/// Reducing a canonical scalar leaves it unchanged.
pub proof fn lemma_reduce_canonical(b: Seq<u8>)
    requires
        is_canonical_scalar(b),
    ensures
        reduced_scalar(b) == b,
{
    lemma_small_mod(le_value(b), group_order());
    lemma_le_bytes_of_value(b);
}

/// The reduced encoding is 32 bytes long and canonical.
pub proof fn lemma_reduced_is_canonical(b: Seq<u8>)
    ensures
        is_canonical_scalar(reduced_scalar(b)),
{
    let n = le_value(b) % group_order();
    lemma_value_of_le_bytes(n, 32);
    lemma_le_bytes_len(n, 32);
    assert(n < group_order());
    assert(group_order() < pow256(32)) by {
        reveal_with_fuel(pow256, 33);
    }
    lemma_small_mod(n, pow256(32));
}

/// 256 to the power `k`.
pub open spec fn pow256(k: nat) -> nat
    decreases k,
{
    if k == 0 {
        1
    } else {
        256 * pow256((k - 1) as nat)
    }
}

/// `le_bytes` produces exactly `len` bytes.
pub proof fn lemma_le_bytes_len(n: nat, len: nat)
    ensures
        le_bytes(n, len).len() == len,
    decreases len,
{
    if len > 0 {
        lemma_le_bytes_len(n / 256, (len - 1) as nat);
    }
}

/// The value of the `len`-byte encoding of `n` is `n` modulo 256^len.
pub proof fn lemma_value_of_le_bytes(n: nat, len: nat)
    ensures
        le_value(le_bytes(n, len)) == n % pow256(len),
    decreases len,
{
    if len > 0 {
        let rest = le_bytes(n / 256, (len - 1) as nat);
        lemma_value_of_le_bytes(n / 256, (len - 1) as nat);
        let s = le_bytes(n, len);
        assert(s.drop_first() =~= rest);
        let p = pow256((len - 1) as nat);
        assert(p > 0) by {
            lemma_pow256_pos((len - 1) as nat);
        }
        lemma_mod_breakdown(n as int, 256, p as int);
    }
}

proof fn lemma_pow256_pos(k: nat)
    ensures
        pow256(k) > 0,
    decreases k,
{
    if k > 0 {
        lemma_pow256_pos((k - 1) as nat);
    }
}

} // verus!
