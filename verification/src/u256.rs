//! 256-bit unsigned literals as they reach the value parser.

use vstd::prelude::*;

verus! {

/// The number that the bytes of `bytes` from index `from` on denote, least
/// significant byte first.
pub open spec fn le_value(bytes: Seq<u8>, from: int) -> nat
    decreases bytes.len() - from,
{
    if 0 <= from < bytes.len() {
        bytes[from] as nat + 256 * le_value(bytes, from + 1)
    } else {
        0
    }
}

/// Bytes that are all zero from `from` on denote zero.
proof fn lemma_le_value_zero(bytes: Seq<u8>, from: int)
    requires
        0 <= from,
        forall|k: int| from <= k < bytes.len() ==> bytes[k] == 0,
    ensures
        le_value(bytes, from) == 0,
    decreases bytes.len() - from,
{
    if from < bytes.len() {
        lemma_le_value_zero(bytes, from + 1);
    }
}

/// A non-zero byte at or after `from` makes the number denoted from `from` on
/// positive.
proof fn lemma_le_value_positive(bytes: Seq<u8>, from: int, at: int)
    requires
        0 <= from <= at < bytes.len(),
        bytes[at] != 0,
    ensures
        le_value(bytes, from) >= 1,
    decreases at - from,
{
    if from < at {
        lemma_le_value_positive(bytes, from + 1, at);
    }
}

/// The number that the first eight bytes of `bytes` denote.
spec fn low_eight(bytes: Seq<u8>) -> nat {
    (bytes[0] as nat + 0x100 * bytes[1] as nat + 0x1_0000 * bytes[2] as nat + 0x100_0000
        * bytes[3] as nat + 0x1_0000_0000 * bytes[4] as nat + 0x100_0000_0000 * bytes[5] as nat
        + 0x1_0000_0000_0000 * bytes[6] as nat + 0x100_0000_0000_0000 * bytes[7] as nat) as nat
}

/// The number denoted by at least eight bytes, split into its low eight bytes
/// and the rest.
proof fn lemma_le_value_low_eight(bytes: Seq<u8>)
    requires
        bytes.len() >= 8,
    ensures
        le_value(bytes, 0) == low_eight(bytes) + 0x1_0000_0000_0000_0000 * le_value(bytes, 8),
        low_eight(bytes) <= u64::MAX,
{
    let h8 = le_value(bytes, 8) as int;
    let h7 = le_value(bytes, 7) as int;
    let h6 = le_value(bytes, 6) as int;
    let h5 = le_value(bytes, 5) as int;
    let h4 = le_value(bytes, 4) as int;
    let h3 = le_value(bytes, 3) as int;
    let h2 = le_value(bytes, 2) as int;
    let h1 = le_value(bytes, 1) as int;
    let h0 = le_value(bytes, 0) as int;
    assert(h7 == bytes[7] as int + 256 * h8);
    assert(h6 == bytes[6] as int + 256 * h7);
    assert(h5 == bytes[5] as int + 256 * h6);
    assert(h4 == bytes[4] as int + 256 * h5);
    assert(h3 == bytes[3] as int + 256 * h4);
    assert(h2 == bytes[2] as int + 256 * h3);
    assert(h1 == bytes[1] as int + 256 * h2);
    assert(h0 == bytes[0] as int + 256 * h1);
}

/// A 256-bit unsigned number, held as its 32 little-endian bytes.
#[derive(Clone, Copy, Debug, PartialEq, Eq, Hash)]
pub struct U256 {
    pub le_bytes: [u8; 32],
}

impl U256 {
    /// The number that the bytes denote.
    pub open spec fn value(self) -> nat {
        le_value(self.le_bytes@, 0)
    }

    /// The number as a `u64`, where it is at most `u64::MAX`.
    pub open spec fn spec_as_u64(self) -> Option<u64> {
        if self.value() <= u64::MAX {
            Some(self.value() as u64)
        } else {
            None
        }
    }

    pub fn from_le_bytes(le_bytes: [u8; 32]) -> (n: U256)
        ensures
            n.le_bytes == le_bytes,
    {
        U256 { le_bytes }
    }

    pub fn to_le_bytes(&self) -> (bytes: [u8; 32])
        ensures
            bytes == self.le_bytes,
    {
        self.le_bytes
    }

    /// The number with the value of `v`.
    pub fn from_u64(v: u64) -> (n: U256)
        ensures
            n.value() == v,
    {
        let mut le_bytes: [u8; 32] = [0u8; 32];
        let mut rest: u64 = v;
        let mut k: usize = 0;
        proof {
            assert(scale(0) * rest == rest) by (nonlinear_arith)
                requires
                    scale(0) == 1,
            ;
        }
        while k < 8
            invariant
                0 <= k <= 8,
                forall|j: int| k <= j < 32 ==> le_bytes@[j] == 0,
                v as nat == le_value_below(le_bytes@, k as int) + scale(k as int) * rest,
            decreases 8 - k,
        {
            let low: u8 = (rest % 256) as u8;
            let ghost before = le_bytes@;
            le_bytes[k] = low;
            proof {
                lemma_le_value_below_update(before, k as int, k as int, low);
                assert(le_bytes@ == before.update(k as int, low));
                lemma_scale_unfold(k as int);
                assert(scale(k as int) * rest == scale(k as int) * (low as nat) + (scale(k as int)
                    * 256) * (rest / 256)) by (nonlinear_arith)
                    requires
                        rest == low + 256 * (rest / 256),
                ;
            }
            rest = rest / 256;
            k = k + 1;
        }
        let n = U256 { le_bytes };
        proof {
            lemma_scale_bound(rest, v);
            lemma_le_value_zero(le_bytes@, 8);
            lemma_le_value_split(le_bytes@, 8);
            assert(scale(8) * rest == 0) by (nonlinear_arith)
                requires
                    rest == 0,
            ;
            assert(scale(8) * le_value(le_bytes@, 8) == 0) by (nonlinear_arith)
                requires
                    le_value(le_bytes@, 8) == 0,
            ;
        }
        n
    }

    /// The number as a `u64`, where it is at most `u64::MAX`.
    pub fn as_u64(&self) -> (r: Option<u64>)
        ensures
            r == self.spec_as_u64(),
    {
        let b: [u8; 32] = self.le_bytes;
        let mut k: usize = 8;
        while k < 32
            invariant
                8 <= k <= 32,
                b == self.le_bytes,
                forall|j: int| 8 <= j < k ==> b@[j] == 0,
            decreases 32 - k,
        {
            if b[k] != 0 {
                proof {
                    lemma_le_value_positive(b@, 8, k as int);
                    lemma_le_value_low_eight(b@);
                }
                return None;
            }
            k = k + 1;
        }
        proof {
            lemma_le_value_zero(b@, 8);
            lemma_le_value_low_eight(b@);
        }
        let v7: u64 = b[7] as u64;
        let v6: u64 = v7 * 256 + b[6] as u64;
        let v5: u64 = v6 * 256 + b[5] as u64;
        let v4: u64 = v5 * 256 + b[4] as u64;
        let v3: u64 = v4 * 256 + b[3] as u64;
        let v2: u64 = v3 * 256 + b[2] as u64;
        let v1: u64 = v2 * 256 + b[1] as u64;
        let v0: u64 = v1 * 256 + b[0] as u64;
        Some(v0)
    }
}

/// The weight of byte `k`: 256 to the power `k`.
spec fn scale(k: int) -> nat
    decreases k,
{
    if k <= 0 {
        1
    } else {
        256 * scale(k - 1)
    }
}

/// The number that the first `upto` bytes of `bytes` denote.
spec fn le_value_below(bytes: Seq<u8>, upto: int) -> nat
    decreases upto,
{
    if upto <= 0 {
        0
    } else {
        le_value_below(bytes, upto - 1) + scale(upto - 1) * (bytes[upto - 1] as nat)
    }
}

proof fn lemma_scale_unfold(k: int)
    requires
        0 <= k,
    ensures
        scale(k + 1) == scale(k) * 256,
{
    assert(scale(k + 1) == 256 * scale(k));
    assert(256 * scale(k) == scale(k) * 256) by (nonlinear_arith);
}

proof fn lemma_scale_bound(rest: u64, v: u64)
    requires
        v as nat >= scale(8) * rest,
    ensures
        rest == 0,
{
    assert(scale(8) == 0x1_0000_0000_0000_0000) by {
        reveal_with_fuel(scale, 10);
    }
    assert(rest == 0) by (nonlinear_arith)
        requires
            v as nat >= 0x1_0000_0000_0000_0000 * rest,
            v <= 0xffff_ffff_ffff_ffff,
    ;
}

proof fn lemma_le_value_below_update(bytes: Seq<u8>, upto: int, at: int, byte: u8)
    requires
        0 <= upto <= at < bytes.len(),
    ensures
        le_value_below(bytes.update(at, byte), upto) == le_value_below(bytes, upto),
    decreases upto,
{
    if upto > 0 {
        lemma_le_value_below_update(bytes, upto - 1, at, byte);
    }
}

/// The number denoted by all the bytes is the part below `upto` plus the
/// weighted part from `upto` on.
proof fn lemma_le_value_split(bytes: Seq<u8>, upto: int)
    requires
        0 <= upto <= bytes.len(),
    ensures
        le_value(bytes, 0) == le_value_below(bytes, upto) + scale(upto) * le_value(bytes, upto),
    decreases upto,
{
    if upto > 0 {
        lemma_le_value_split(bytes, upto - 1);
        let lower = le_value_below(bytes, upto - 1);
        let s = scale(upto - 1);
        let b = bytes[upto - 1] as nat;
        let r = le_value(bytes, upto);
        assert(le_value(bytes, upto - 1) == b + 256 * r);
        assert(scale(upto) == 256 * s);
        assert(s * (b + 256 * r) == s * b + (256 * s) * r) by (nonlinear_arith);
    } else {
        assert(scale(0) * le_value(bytes, 0) == le_value(bytes, 0)) by (nonlinear_arith)
            requires
                scale(0) == 1,
        ;
    }
}

} // verus!
