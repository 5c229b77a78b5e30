use vstd::prelude::*;

verus! {

/// Sign extension of a value whose sign bit is bit `bit - 1`: when that bit
/// is set, every bit from `bit` upwards is set as well.
pub open spec fn sign_extend(value: u16, bit: u16) -> u16 {
    if (value >> ((bit - 1) as u16)) & 1 == 1 {
        value | (0xFFFFu16 << bit)
    } else {
        value
    }
}

/// Extends the `bit`-wide two's-complement field held in `value` to 16 bits.
pub fn sext(value: u16, bit: u16) -> (r: u16)
    requires
        1 <= bit < 16,
    ensures
        r == sign_extend(value, bit),
{
    if (value >> (bit - 1)) & 1 == 1 {
        value | (0xFFFFu16 << bit)
    } else {
        value
    }
}

/// The mask of the low `n` bits of a word.
pub open spec fn low_mask(n: u16) -> u16 {
    !(0xFFFFu16 << n)
}

/// Sign-extending the low `n` bits of any word keeps those bits; every
/// higher bit is then clear when bit `n - 1` is clear, and set when it is set.
pub proof fn lemma_sext_masked(v: u16, n: u16)
    requires
        1 <= n < 16,
    ensures
        sign_extend(v & low_mask(n), n) & low_mask(n) == v & low_mask(n),
        (v >> ((n - 1) as u16)) & 1 == 0 ==> sign_extend(v & low_mask(n), n) == v & low_mask(n),
        (v >> ((n - 1) as u16)) & 1 == 1 ==> sign_extend(v & low_mask(n), n) == (v & low_mask(n))
            | !low_mask(n),
{
    let f = v & low_mask(n);
    let k = (n - 1) as u16;
    assert((f >> k) & 1 == (v >> k) & 1) by (bit_vector)
        requires
            f == v & !(0xFFFFu16 << n),
            k == n - 1,
            1 <= n < 16,
    ;
    assert((f | (0xFFFFu16 << n)) & !(0xFFFFu16 << n) == f) by (bit_vector)
        requires
            f == v & !(0xFFFFu16 << n),
    ;
    assert(f & !(0xFFFFu16 << n) == f) by (bit_vector)
        requires
            f == v & !(0xFFFFu16 << n),
    ;
    assert(!!(0xFFFFu16 << n) == 0xFFFFu16 << n) by (bit_vector);
}

} // verus!
