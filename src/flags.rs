use vstd::prelude::*;

verus! {

/// Bit of the flags byte that holds the carry.
pub const CARRY_FLAG: u8 = 1;

/// Bit of the flags byte that is set when a result has even parity.
pub const PARITY_FLAG: u8 = 4;

/// Bit of the flags byte that is set when a result is zero.
pub const ZERO_FLAG: u8 = 64;

/// Bit of the flags byte that copies bit 7 of a result.
pub const SIGN_FLAG: u8 = 128;

/// One of the four modelled flag bits.
pub open spec fn is_flag_bit(mask: u8) -> bool {
    mask == CARRY_FLAG || mask == PARITY_FLAG || mask == ZERO_FLAG || mask == SIGN_FLAG
}

/// Whether the bits of `mask` are set in `flags`.
pub open spec fn flag_set(flags: u8, mask: u8) -> bool {
    flags & mask != 0
}

/// `flags` with the bits of `mask` set (`on`) or cleared, the others kept.
pub open spec fn with_flag(flags: u8, mask: u8, on: bool) -> u8 {
    if on {
        flags | mask
    } else {
        flags & !mask
    }
}

/// Number of one bits in `n`.
pub open spec fn popcount(n: nat) -> nat
    decreases n,
{
    if n == 0 {
        0
    } else {
        n % 2 + popcount(n / 2)
    }
}

/// A byte has even parity when its number of one bits is even.
pub open spec fn even_parity_spec(b: u8) -> bool {
    popcount(b as nat) % 2 == 0
}

/// Sign bit of a result: its bit 7.
pub open spec fn negative(b: u8) -> bool {
    b >= 0x80
}

/// The flags after a result: zero, sign and parity follow `result`, carry is
/// `carry`, every other bit of `flags` is kept.
pub open spec fn flags_after(flags: u8, result: u8, carry: bool) -> u8 {
    with_flag(
        with_flag(
            with_flag(with_flag(flags, CARRY_FLAG, carry), PARITY_FLAG, even_parity_spec(result)),
            ZERO_FLAG,
            result == 0,
        ),
        SIGN_FLAG,
        negative(result),
    )
}

/// Setting or clearing one flag bit decides that bit and leaves every other
/// flag bit as it was.
pub proof fn lemma_with_flag(flags: u8, mask: u8, on: bool, other: u8)
    requires
        is_flag_bit(mask),
        is_flag_bit(other),
    ensures
        flag_set(with_flag(flags, mask, on), mask) == on,
        other != mask ==> flag_set(with_flag(flags, mask, on), other) == flag_set(flags, other),
{
    assert((flags | mask) & mask != 0) by (bit_vector)
        requires
            mask == 1u8 || mask == 4u8 || mask == 64u8 || mask == 128u8,
    ;
    assert((flags & !mask) & mask == 0) by (bit_vector);
    assert(other != mask ==> (((flags | mask) & other != 0) == (flags & other != 0))) by (bit_vector)
        requires
            mask == 1u8 || mask == 4u8 || mask == 64u8 || mask == 128u8,
            other == 1u8 || other == 4u8 || other == 64u8 || other == 128u8,
    ;
    assert(other != mask ==> (((flags & !mask) & other != 0) == (flags & other != 0))) by (bit_vector)
        requires
            mask == 1u8 || mask == 4u8 || mask == 64u8 || mask == 128u8,
            other == 1u8 || other == 4u8 || other == 64u8 || other == 128u8,
    ;
}

/// What each flag bit reads after `flags_after`.
pub proof fn lemma_flags_after(flags: u8, result: u8, carry: bool)
    ensures
        flag_set(flags_after(flags, result, carry), CARRY_FLAG) == carry,
        flag_set(flags_after(flags, result, carry), PARITY_FLAG) == even_parity_spec(result),
        flag_set(flags_after(flags, result, carry), ZERO_FLAG) == (result == 0),
        flag_set(flags_after(flags, result, carry), SIGN_FLAG) == negative(result),
{
    let f1 = with_flag(flags, CARRY_FLAG, carry);
    let f2 = with_flag(f1, PARITY_FLAG, even_parity_spec(result));
    let f3 = with_flag(f2, ZERO_FLAG, result == 0);
    let p = even_parity_spec(result);
    let z = result == 0;
    let s = negative(result);
    lemma_with_flag(flags, CARRY_FLAG, carry, CARRY_FLAG);
    lemma_with_flag(f1, PARITY_FLAG, p, CARRY_FLAG);
    lemma_with_flag(f2, ZERO_FLAG, z, CARRY_FLAG);
    lemma_with_flag(f3, SIGN_FLAG, s, CARRY_FLAG);
    lemma_with_flag(f1, PARITY_FLAG, p, PARITY_FLAG);
    lemma_with_flag(f2, ZERO_FLAG, z, PARITY_FLAG);
    lemma_with_flag(f3, SIGN_FLAG, s, PARITY_FLAG);
    lemma_with_flag(f2, ZERO_FLAG, z, ZERO_FLAG);
    lemma_with_flag(f3, SIGN_FLAG, s, ZERO_FLAG);
    lemma_with_flag(f3, SIGN_FLAG, s, SIGN_FLAG);
}

/// Whether `b` has an even number of one bits.
pub fn even_parity(b: u8) -> (r: bool)
    ensures
        r == even_parity_spec(b),
{
    let mut x: u8 = b;
    let mut odd: bool = false;
    while x != 0
        invariant
            even_parity_spec(b) == ((popcount(x as nat) + (if odd { 1int } else { 0int })) % 2 == 0),
        decreases x,
    {
        if x % 2 == 1 {
            odd = !odd;
        }
        x = x / 2;
    }
    !odd
}

} // verus!
