//! Big-endian byte strings read as natural numbers.

use vstd::prelude::*;

verus! {

/// 256 raised to the power `n`.
pub open spec fn pow256(n: nat) -> nat
    decreases n,
{
    if n == 0 {
        1
    } else {
        256 * pow256((n - 1) as nat)
    }
}

/// The number that `bytes` denotes in base 256, most significant byte first.
pub open spec fn be_value(bytes: Seq<u8>) -> nat
    decreases bytes.len(),
{
    if bytes.len() == 0 {
        0
    } else {
        be_value(bytes.drop_last()) * 256 + bytes.last() as nat
    }
}

/// The `len` low-order base-256 digits of `n`, most significant byte first.
pub open spec fn be_bytes(n: nat, len: nat) -> Seq<u8>
    decreases len,
{
    if len == 0 {
        Seq::empty()
    } else {
        be_bytes(n / 256, (len - 1) as nat).push((n % 256) as u8)
    }
}

/// Two to the power 128, the weight of the upper half of a 32-byte number.
pub open spec fn two_pow_128() -> nat {
    0x1_0000_0000_0000_0000_0000_0000_0000_0000nat
}

pub proof fn lemma_pow256_positive(n: nat)
    ensures
        pow256(n) > 0,
    decreases n,
{
    if n > 0 {
        lemma_pow256_positive((n - 1) as nat);
    }
}

pub proof fn lemma_pow256_monotonic(a: nat, b: nat)
    requires
        a <= b,
    ensures
        pow256(a) <= pow256(b),
    decreases b,
{
    if a < b {
        lemma_pow256_monotonic(a, (b - 1) as nat);
        lemma_pow256_positive((b - 1) as nat);
    }
}

pub proof fn lemma_pow256_16()
    ensures
        pow256(16) == two_pow_128(),
{
    assert(pow256(0) == 1);
    assert(pow256(1) == 0x100);
    assert(pow256(2) == 0x1_0000);
    assert(pow256(3) == 0x100_0000);
    assert(pow256(4) == 0x1_0000_0000);
    assert(pow256(5) == 0x100_0000_0000);
    assert(pow256(6) == 0x1_0000_0000_0000);
    assert(pow256(7) == 0x100_0000_0000_0000);
    assert(pow256(8) == 0x1_0000_0000_0000_0000);
    assert(pow256(9) == 0x100_0000_0000_0000_0000);
    assert(pow256(10) == 0x1_0000_0000_0000_0000_0000);
    assert(pow256(11) == 0x100_0000_0000_0000_0000_0000);
    assert(pow256(12) == 0x1_0000_0000_0000_0000_0000_0000);
    assert(pow256(13) == 0x100_0000_0000_0000_0000_0000_0000);
    assert(pow256(14) == 0x1_0000_0000_0000_0000_0000_0000_0000);
    assert(pow256(15) == 0x100_0000_0000_0000_0000_0000_0000_0000);
}

/// A byte string of length `n` denotes a number below `256^n`.
pub proof fn lemma_be_value_bound(bytes: Seq<u8>)
    ensures
        be_value(bytes) < pow256(bytes.len()),
    decreases bytes.len(),
{
    if bytes.len() > 0 {
        lemma_be_value_bound(bytes.drop_last());
    }
}

/// Reading `a` followed by `b` shifts `a` left by the length of `b`.
pub proof fn lemma_be_value_concat(a: Seq<u8>, b: Seq<u8>)
    ensures
        be_value(a + b) == be_value(a) * pow256(b.len()) + be_value(b),
    decreases b.len(),
{
    if b.len() == 0 {
        assert(a + b =~= a);
        assert(be_value(a) * 1 == be_value(a));
    } else {
        let front = b.drop_last();
        assert((a + b).drop_last() =~= a + front);
        assert((a + b).last() == b.last());
        lemma_be_value_concat(a, front);
        let p = pow256(front.len());
        assert(pow256(b.len()) == 256 * p);
        assert(be_value(a + b) == be_value(a + front) * 256 + b.last() as nat);
        assert(be_value(b) == be_value(front) * 256 + b.last() as nat);
        assert((be_value(a) * p + be_value(front)) * 256 == be_value(a) * (256 * p) + be_value(
            front,
        ) * 256) by (nonlinear_arith);
    }
}

pub proof fn lemma_be_bytes_len(n: nat, len: nat)
    ensures
        be_bytes(n, len).len() == len,
    decreases len,
{
    if len > 0 {
        lemma_be_bytes_len(n / 256, (len - 1) as nat);
    }
}

/// Writing a number that fits in `len` digits and reading it back returns it.
pub proof fn lemma_be_value_of_be_bytes(n: nat, len: nat)
    requires
        n < pow256(len),
    ensures
        be_value(be_bytes(n, len)) == n,
    decreases len,
{
    if len > 0 {
        let rest = be_bytes(n / 256, (len - 1) as nat);
        let whole = be_bytes(n, len);
        assert(n / 256 < pow256((len - 1) as nat));
        lemma_be_value_of_be_bytes(n / 256, (len - 1) as nat);
        lemma_be_bytes_len(n / 256, (len - 1) as nat);
        assert(whole.drop_last() =~= rest);
        assert(whole.last() == (n % 256) as u8);
    }
}

/// Reading a byte string and writing the number back on the same length returns it.
pub proof fn lemma_be_bytes_of_be_value(bytes: Seq<u8>)
    ensures
        be_bytes(be_value(bytes), bytes.len()) == bytes,
    decreases bytes.len(),
{
    if bytes.len() > 0 {
        let front = bytes.drop_last();
        lemma_be_bytes_of_be_value(front);
        let n = be_value(bytes);
        assert(n / 256 == be_value(front));
        assert(n % 256 == bytes.last() as nat);
        assert(be_bytes(n, bytes.len()) =~= bytes);
    } else {
        assert(be_bytes(be_value(bytes), bytes.len()) =~= bytes);
    }
}

/// A 32-byte number is its upper half times `2^128` plus its lower half.
pub proof fn lemma_be_value_halves(bytes: Seq<u8>)
    requires
        bytes.len() == 32,
    ensures
        be_value(bytes) == be_value(bytes.subrange(0, 16)) * two_pow_128() + be_value(
            bytes.subrange(16, 32),
        ),
        be_value(bytes.subrange(0, 16)) < two_pow_128(),
        be_value(bytes.subrange(16, 32)) < two_pow_128(),
{
    let hi = bytes.subrange(0, 16);
    let lo = bytes.subrange(16, 32);
    assert(bytes =~= hi + lo);
    lemma_be_value_concat(hi, lo);
    lemma_pow256_16();
    lemma_be_value_bound(hi);
    lemma_be_value_bound(lo);
}

/// Reads the 16 bytes of `bytes` that start at `start` as one number.
pub fn read_u128(bytes: &[u8], start: usize) -> (v: u128)
    requires
        start + 16 <= bytes@.len(),
    ensures
        v as nat == be_value(bytes@.subrange(start as int, start + 16)),
{
    let total: usize = bytes.len();
    let mut acc: u128 = 0;
    let mut k: usize = 0;
    while k < 16
        invariant
            k <= 16,
            total == bytes@.len(),
            start + 16 <= total,
            acc as nat == be_value(bytes@.subrange(start as int, start + k)),
        decreases 16 - k,
    {
        let b: u8 = bytes[start + k];
        proof {
            let before = bytes@.subrange(start as int, start + k);
            let after = bytes@.subrange(start as int, start + k + 1);
            assert(after.drop_last() =~= before);
            assert(after.last() == b);
            lemma_be_value_bound(after);
            lemma_pow256_monotonic((k + 1) as nat, 16);
            lemma_pow256_16();
        }
        acc = acc * 256 + b as u128;
        k = k + 1;
    }
    acc
}

/// Writes `n` as 16 bytes, most significant byte first.
pub fn write_u128(n: u128) -> (out: Vec<u8>)
    ensures
        out@ == be_bytes(n as nat, 16),
        out@.len() == 16,
        be_value(out@) == n as nat,
{
    let out = write_digits(n, 16);
    proof {
        lemma_be_bytes_len(n as nat, 16);
        lemma_pow256_16();
        lemma_be_value_of_be_bytes(n as nat, 16);
    }
    out
}

fn write_digits(n: u128, len: usize) -> (out: Vec<u8>)
    ensures
        out@ == be_bytes(n as nat, len as nat),
    decreases len,
{
    if len == 0 {
        Vec::new()
    } else {
        let mut out = write_digits(n / 256, len - 1);
        out.push((n % 256) as u8);
        out
    }
}

/// Whether two byte strings hold the same bytes.
pub fn bytes_equal(a: &[u8], b: &[u8]) -> (same: bool)
    ensures
        same == (a@ == b@),
{
    if a.len() != b.len() {
        return false;
    }
    let mut i: usize = 0;
    while i < a.len()
        invariant
            i <= a@.len(),
            a@.len() == b@.len(),
            forall|j: int| 0 <= j < i ==> a@[j] == b@[j],
        decreases a@.len() - i,
    {
        if a[i] != b[i] {
            return false;
        }
        i = i + 1;
    }
    assert(a@ =~= b@);
    true
}

} // verus!
