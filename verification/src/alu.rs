//! Add-with-carry and subtract-with-borrow on bytes, stated over integers.
//!
//! Both operations are described by one unbounded integer (the nine-bit sum,
//! or the possibly negative difference) from which the stored byte, the carry
//! and the overflow flag are read off.

use vstd::prelude::*;
use crate::status::{arithmetic_status, carry_in, is_negative, signed};

verus! {

/// The exact sum `A + M + C` that ADC forms, in 0..=511.
pub open spec fn adc_sum(a: u8, m: u8, status: u8) -> int {
    a + m + carry_in(status)
}

/// The byte that ADC stores in the accumulator: the low eight bits of the sum.
pub open spec fn adc_result(a: u8, m: u8, status: u8) -> u8 {
    (adc_sum(a, m, status) % 0x100) as u8
}

/// Carry out of ADC: the sum does not fit in eight bits.
pub open spec fn adc_carry(a: u8, m: u8, status: u8) -> bool {
    adc_sum(a, m, status) > 0xFF
}

/// Overflow out of ADC: both operands have the same sign and the stored byte
/// has the other one.
pub open spec fn adc_overflow(a: u8, m: u8, status: u8) -> bool {
    is_negative(a) == is_negative(m) && is_negative(adc_result(a, m, status)) != is_negative(a)
}

/// The status byte that ADC leaves behind.
pub open spec fn adc_status(a: u8, m: u8, status: u8) -> u8 {
    arithmetic_status(
        status,
        adc_carry(a, m, status),
        adc_overflow(a, m, status),
        adc_result(a, m, status),
    )
}

/// The exact difference `A - M - (1 - C)` that SBC forms, in -256..=255.
pub open spec fn sbc_difference(a: u8, m: u8, status: u8) -> int {
    a - m - (1 - carry_in(status))
}

/// The byte that SBC stores in the accumulator: the difference modulo 256.
pub open spec fn sbc_result(a: u8, m: u8, status: u8) -> u8 {
    (sbc_difference(a, m, status) % 0x100) as u8
}

/// Carry out of SBC: set when no borrow was needed, that is when the
/// difference is not negative.
pub open spec fn sbc_carry(a: u8, m: u8, status: u8) -> bool {
    sbc_difference(a, m, status) >= 0
}

/// Overflow out of SBC: the operands differ in sign and the stored byte has
/// lost the sign of the accumulator.
pub open spec fn sbc_overflow(a: u8, m: u8, status: u8) -> bool {
    is_negative(a) != is_negative(m) && is_negative(sbc_result(a, m, status)) != is_negative(a)
}

/// The status byte that SBC leaves behind.
pub open spec fn sbc_status(a: u8, m: u8, status: u8) -> u8 {
    arithmetic_status(
        status,
        sbc_carry(a, m, status),
        sbc_overflow(a, m, status),
        sbc_result(a, m, status),
    )
}

/// ADC raises Overflow exactly when the signed sum of the operands and the
/// carry leaves the range of a signed byte.
pub proof fn lemma_adc_overflow_is_signed_overflow(a: u8, m: u8, status: u8)
    ensures
        adc_overflow(a, m, status) <==> !(-128 <= signed(a) + signed(m) + carry_in(status) <= 127),
{
}

/// SBC raises Overflow exactly when the signed difference of the operands,
/// less the borrow, leaves the range of a signed byte.
pub proof fn lemma_sbc_overflow_is_signed_overflow(a: u8, m: u8, status: u8)
    ensures
        sbc_overflow(a, m, status) <==> !(-128 <= signed(a) - signed(m) - (1 - carry_in(status))
            <= 127),
{
}

/// Where no signed overflow occurs, the stored byte read as a signed number
/// is the signed sum, respectively the signed difference.
pub proof fn lemma_signed_result(a: u8, m: u8, status: u8)
    ensures
        !adc_overflow(a, m, status) ==> signed(adc_result(a, m, status)) == signed(a) + signed(m)
            + carry_in(status),
        !sbc_overflow(a, m, status) ==> signed(sbc_result(a, m, status)) == signed(a) - signed(m)
            - (1 - carry_in(status)),
{
}

/// Subtracting `m` is adding its one's complement: result, carry and overflow
/// all agree.
pub proof fn lemma_sbc_is_adc_of_complement(a: u8, m: u8, status: u8)
    ensures
        sbc_result(a, m, status) == adc_result(a, (0xFF - m) as u8, status),
        sbc_carry(a, m, status) == adc_carry(a, (0xFF - m) as u8, status),
        sbc_overflow(a, m, status) == adc_overflow(a, (0xFF - m) as u8, status),
{
}

} // verus!
