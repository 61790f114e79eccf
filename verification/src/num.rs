//! Narrowing of bencode integers to the 32-bit host numeric range.
//!
//! Bencode integers are 64-bit; the host numeric value keeps only the low 32
//! bits, interpreted as a signed value (two's-complement truncation). This
//! narrowing is deliberate and preserved: values inside the 32-bit signed
//! range pass through unchanged, values outside it wrap.

use vstd::arithmetic::div_mod::lemma_fundamental_div_mod;
use vstd::prelude::*;

verus! {

/// The narrowing rule: the low 32 bits of `n`, read as a signed value.
pub open spec fn wrap_i32(n: i64) -> i32 {
    n as i32
}

/// Narrow a 64-bit integer to the 32-bit host range by truncation.
pub fn narrow_int(n: i64) -> (r: i32)
    ensures
        r == wrap_i32(n),
{
    #[verifier::truncate] (n as i32)
}

/// The narrowing rule in arithmetic terms: the result is congruent to the
/// input modulo 2^32, and an input already inside the 32-bit signed range is
/// returned unchanged.
pub proof fn lemma_wrap_i32(n: i64)
    ensures
        i32::MIN <= n <= i32::MAX ==> wrap_i32(n) == n,
        exists|k: int| n == wrap_i32(n) + #[trigger] (k * 0x1_0000_0000),
{
    assert((n as int - (n as i32) as int) % 0x1_0000_0000 == 0) by (bit_vector);
    let diff = n as int - wrap_i32(n) as int;
    lemma_fundamental_div_mod(diff, 0x1_0000_0000);
    let k = diff / 0x1_0000_0000;
    assert(n == wrap_i32(n) + k * 0x1_0000_0000);
}

} // verus!
