//! Small bit-vector facts shared by the address decoders.

use vstd::prelude::*;

verus! {

/// A bitwise-and never exceeds either operand.
pub proof fn lemma_u16_and_le(x: u16, m: u16)
    ensures
        x & m <= m,
        x & m <= x,
{
    assert(x & m <= m && x & m <= x) by (bit_vector);
}

/// Setting bit eight above a byte-sized value is the same as adding 0x0100.
pub proof fn lemma_u16_or_stack_page(a: u16)
    requires
        a < 256,
    ensures
        (0x0100u16 | a) == 0x0100 + a,
{
    assert((0x0100u16 | a) == 0x0100 + a) by (bit_vector)
        requires
            a < 256,
    ;
}

/// A bitwise-and never exceeds either operand.
pub proof fn lemma_u8_and_le(x: u8, m: u8)
    ensures
        x & m <= m,
        x & m <= x,
{
    assert(x & m <= m && x & m <= x) by (bit_vector);
}

} // verus!
