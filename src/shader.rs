//! Shader binaries as the words that a shader module is created from.
use vstd::prelude::*;

verus! {

/// Byte `i` of `b`, or zero past its end.
pub open spec fn byte_or_zero(b: Seq<u8>, i: int) -> int {
    if 0 <= i < b.len() {
        b[i] as int
    } else {
        0
    }
}

/// Word `k` of `b` read little-endian, the missing bytes of a last partial word taken as zero.
pub open spec fn word_at(b: Seq<u8>, k: int) -> int {
    byte_or_zero(b, 4 * k) + 0x100 * byte_or_zero(b, 4 * k + 1) + 0x10000 * byte_or_zero(
        b,
        4 * k + 2,
    ) + 0x1000000 * byte_or_zero(b, 4 * k + 3)
}

/// Number of words that hold `n` bytes.
pub open spec fn word_count(n: int) -> int {
    (n + 3) / 4
}

/// Packs a shader binary into 32-bit words, little-endian, zero-filling a last partial word.
pub fn shader_words(bytes: &Vec<u8>) -> (r: Vec<u32>)
    ensures
        r@.len() == word_count(bytes@.len() as int),
        forall|k: int| 0 <= k < r@.len() ==> #[trigger] r@[k] == word_at(bytes@, k),
{
    let n: usize = bytes.len();
    let count: usize = if n % 4 == 0 {
        n / 4
    } else {
        n / 4 + 1
    };
    let mut out: Vec<u32> = Vec::with_capacity(count);
    let mut k: usize = 0;
    while k < count
        invariant
            n == bytes@.len(),
            count == word_count(n as int),
            k <= count,
            out@.len() == k,
            forall|j: int| 0 <= j < k ==> #[trigger] out@[j] == word_at(bytes@, j),
        decreases count - k,
    {
        let base: usize = 4 * k;
        let b0: u32 = if base < n { bytes[base] as u32 } else { 0 };
        let b1: u32 = if base + 1 < n { bytes[base + 1] as u32 } else { 0 };
        let b2: u32 = if base + 2 < n { bytes[base + 2] as u32 } else { 0 };
        let b3: u32 = if base + 3 < n { bytes[base + 3] as u32 } else { 0 };
        let w: u32 = b0 + 0x100 * b1 + 0x10000 * b2 + 0x1000000 * b3;
        out.push(w);
        k = k + 1;
    }
    out
}

} // verus!
