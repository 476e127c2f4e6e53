//! The status register: four condition flags packed into one byte.
//!
//! Bit 0 is Carry, bit 1 is Zero, bit 6 is Overflow and bit 7 is Negative.
//! The remaining four bits are reserved; nothing in this crate changes them.

use vstd::prelude::*;

verus! {

/// Mask of the Carry flag (bit 0).
pub const CARRY: u8 = 0x01;

/// Mask of the Zero flag (bit 1).
pub const ZERO: u8 = 0x02;

/// Mask of the Overflow flag (bit 6).
pub const OVERFLOW: u8 = 0x40;

/// Mask of the Negative flag (bit 7).
pub const NEGATIVE: u8 = 0x80;

/// Mask of the four reserved bits (bits 2 to 5), which no instruction changes.
pub const RESERVED: u8 = 0x3C;

/// Whether any bit of `mask` is set in `status`.
pub open spec fn flag_set(status: u8, mask: u8) -> bool {
    status & mask != 0
}

/// `status` with the bits of `mask` switched on or off, all other bits kept.
pub open spec fn with_flag(status: u8, mask: u8, on: bool) -> u8 {
    if on {
        status | mask
    } else {
        status & !mask
    }
}

/// Switches the bits of `mask` on or off in `status`.
pub fn assign_flag(status: u8, mask: u8, on: bool) -> (updated: u8)
    ensures
        updated == with_flag(status, mask, on),
{
    if on {
        status | mask
    } else {
        status & !mask
    }
}

/// Whether a byte is negative when read as a two's-complement number.
pub open spec fn is_negative(value: u8) -> bool {
    value >= 0x80
}

/// The two's-complement reading of a byte, in -128..=127.
pub open spec fn signed(value: u8) -> int {
    if value >= 0x80 {
        value - 0x100
    } else {
        value as int
    }
}

/// The status byte after the Zero and Negative flags have been recomputed
/// from `value`: Zero is on exactly when `value` is 0, Negative exactly when
/// bit 7 of `value` is set. Both are overwritten, never merely set.
pub open spec fn zn_status(status: u8, value: u8) -> u8 {
    with_flag(with_flag(status, ZERO, value == 0), NEGATIVE, is_negative(value))
}

/// The status byte after an arithmetic instruction: Carry and Overflow are
/// overwritten with the given outcomes, then Zero and Negative follow `value`.
pub open spec fn arithmetic_status(status: u8, carry: bool, overflow: bool, value: u8) -> u8 {
    zn_status(with_flag(with_flag(status, CARRY, carry), OVERFLOW, overflow), value)
}

/// The carry flag of `status` as a number: 1 when set, 0 when clear.
pub open spec fn carry_in(status: u8) -> int {
    if flag_set(status, CARRY) {
        1
    } else {
        0
    }
}

/// Bit 7 of a byte is its sign.
pub proof fn lemma_sign_bit(value: u8)
    ensures
        (value & 0x80 != 0) <==> is_negative(value),
        (value & 0x80 == 0x80) <==> is_negative(value),
{
    assert(((value & 0x80 != 0) <==> value >= 0x80) && ((value & 0x80 == 0x80) <==> value >= 0x80))
        by (bit_vector);
}

/// Masking with the carry bit yields the carry as a number.
pub proof fn lemma_carry_bit(status: u8)
    ensures
        (status & CARRY) as int == carry_in(status),
{
    assert(status & 0x01 == 0 || status & 0x01 == 1) by (bit_vector);
}

/// Reading one flag is reading one binary digit of the status byte.
pub proof fn lemma_flag_set(status: u8, mask: u8)
    requires
        mask == CARRY || mask == ZERO || mask == OVERFLOW || mask == NEGATIVE,
    ensures
        flag_set(status, mask) <==> (status / mask) % 2 == 1,
{
    assert((status & mask != 0) <==> (status / mask) % 2 == 1) by (bit_vector)
        requires
            mask == 0x01 || mask == 0x02 || mask == 0x40 || mask == 0x80,
    ;
}

/// Writing one flag makes that flag read back as written and leaves every
/// other bit of the status byte as it was. As a number, the byte goes up or
/// down by the mask where the flag changes, and stays as it is where not.
pub proof fn lemma_with_flag(status: u8, mask: u8, on: bool)
    requires
        mask == CARRY || mask == ZERO || mask == OVERFLOW || mask == NEGATIVE,
    ensures
        flag_set(with_flag(status, mask, on), mask) == on,
        with_flag(status, mask, on) & !mask == status & !mask,
        with_flag(status, mask, on) == if on == flag_set(status, mask) {
            status as int
        } else if on {
            status + mask
        } else {
            status - mask
        },
{
    assert({
        &&& (status | mask) & mask != 0
        &&& (status | mask) & !mask == status & !mask
        &&& (status & !mask) & mask == 0
        &&& (status & !mask) & !mask == status & !mask
        &&& (status & mask != 0 ==> (status | mask) == status && (status & !mask) == status - mask)
        &&& (status & mask == 0 ==> (status | mask) == status + mask && (status & !mask) == status)
    }) by (bit_vector)
        requires
            mask == 0x01 || mask == 0x02 || mask == 0x40 || mask == 0x80,
    ;
}

/// The Zero/Negative update, flag by flag: Zero is set if and only if the
/// value is 0, Negative if and only if bit 7 of the value is set, and the six
/// other bits of the status byte are untouched.
pub proof fn lemma_zn_status(status: u8, value: u8)
    ensures
        flag_set(zn_status(status, value), ZERO) <==> value == 0,
        flag_set(zn_status(status, value), NEGATIVE) <==> value & 0x80 != 0,
        flag_set(zn_status(status, value), NEGATIVE) <==> is_negative(value),
        zn_status(status, value) & !(ZERO | NEGATIVE) == status & !(ZERO | NEGATIVE),
        flag_set(zn_status(status, value), CARRY) == flag_set(status, CARRY),
        flag_set(zn_status(status, value), OVERFLOW) == flag_set(status, OVERFLOW),
{
    let zero = with_flag(status, ZERO, value == 0);
    let both = with_flag(zero, NEGATIVE, is_negative(value));
    lemma_sign_bit(value);
    lemma_with_flag(status, ZERO, value == 0);
    lemma_with_flag(zero, NEGATIVE, is_negative(value));
    assert({
        &&& (both & 0x02 != 0 <==> zero & 0x02 != 0)
        &&& both & !(0x02u8 | 0x80u8) == status & !(0x02u8 | 0x80u8)
        &&& (both & 0x01 != 0 <==> status & 0x01 != 0)
        &&& (both & 0x40 != 0 <==> status & 0x40 != 0)
    }) by (bit_vector)
        requires
            both & !0x80u8 == zero & !0x80u8,
            zero & !0x02u8 == status & !0x02u8,
    ;
}

/// The status byte after an arithmetic instruction, flag by flag: Carry and
/// Overflow are as given, Zero and Negative follow the value, and the four
/// reserved bits are untouched.
pub proof fn lemma_arithmetic_status(status: u8, carry: bool, overflow: bool, value: u8)
    ensures
        flag_set(arithmetic_status(status, carry, overflow, value), CARRY) == carry,
        flag_set(arithmetic_status(status, carry, overflow, value), OVERFLOW) == overflow,
        flag_set(arithmetic_status(status, carry, overflow, value), ZERO) <==> value == 0,
        flag_set(arithmetic_status(status, carry, overflow, value), NEGATIVE) <==> is_negative(
            value,
        ),
        arithmetic_status(status, carry, overflow, value) & RESERVED == status & RESERVED,
{
    let first = with_flag(status, CARRY, carry);
    let second = with_flag(first, OVERFLOW, overflow);
    let last = zn_status(second, value);
    lemma_with_flag(status, CARRY, carry);
    lemma_with_flag(first, OVERFLOW, overflow);
    lemma_zn_status(second, value);
    assert({
        &&& (second & 0x01 != 0 <==> first & 0x01 != 0)
        &&& last & 0x3C == status & 0x3C
    }) by (bit_vector)
        requires
            first & !0x01u8 == status & !0x01u8,
            second & !0x40u8 == first & !0x40u8,
            last & !(0x02u8 | 0x80u8) == second & !(0x02u8 | 0x80u8),
    ;
}

/// Recomputing Zero and Negative leaves the four reserved bits untouched.
pub proof fn lemma_zn_status_reserved(status: u8, value: u8)
    ensures
        zn_status(status, value) & RESERVED == status & RESERVED,
{
    let last = zn_status(status, value);
    lemma_zn_status(status, value);
    assert(last & 0x3C == status & 0x3C) by (bit_vector)
        requires
            last & !(0x02u8 | 0x80u8) == status & !(0x02u8 | 0x80u8),
    ;
}

} // verus!
