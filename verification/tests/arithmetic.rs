use cpu6502::status::{assign_flag, CARRY, NEGATIVE, OVERFLOW, RESERVED, ZERO};
use cpu6502::{AddressingMode, CPU};

fn with_operand(a: u8, operand: u8, status: u8) -> CPU {
    let mut cpu = CPU::new();
    cpu.program_counter = 0x0600;
    cpu.mem_write(0x0600, operand);
    cpu.register_a = a;
    cpu.status = status;
    cpu
}

fn adc_model(a: u8, m: u8, status: u8) -> (u8, u8) {
    let carry = (status & 1) as u16;
    let sum = a as u16 + m as u16 + carry;
    let result = (sum & 0xFF) as u8;
    let signed = (a as i8) as i16 + (m as i8) as i16 + carry as i16;
    let mut flags = status & 0x3C;
    if sum > 0xFF {
        flags |= 0x01;
    }
    if result == 0 {
        flags |= 0x02;
    }
    if !(-128..=127).contains(&signed) {
        flags |= 0x40;
    }
    if result >= 0x80 {
        flags |= 0x80;
    }
    (result, flags)
}

fn sbc_model(a: u8, m: u8, status: u8) -> (u8, u8) {
    let borrow = 1 - (status & 1) as i16;
    let difference = a as i16 - m as i16 - borrow;
    let result = (difference & 0xFF) as u8;
    let signed = (a as i8) as i16 - (m as i8) as i16 - borrow;
    let mut flags = status & 0x3C;
    if difference >= 0 {
        flags |= 0x01;
    }
    if result == 0 {
        flags |= 0x02;
    }
    if !(-128..=127).contains(&signed) {
        flags |= 0x40;
    }
    if result >= 0x80 {
        flags |= 0x80;
    }
    (result, flags)
}

#[test]
fn flag_masks() {
    assert_eq!(CARRY, 0x01);
    assert_eq!(ZERO, 0x02);
    assert_eq!(OVERFLOW, 0x40);
    assert_eq!(NEGATIVE, 0x80);
    assert_eq!(RESERVED, 0x3C);
    assert_eq!(CARRY | ZERO | OVERFLOW | NEGATIVE | RESERVED, 0xFF);
}

#[test]
fn assign_flag_sets_and_clears_one_bit() {
    assert_eq!(assign_flag(0x00, CARRY, true), 0x01);
    assert_eq!(assign_flag(0xFF, CARRY, false), 0xFE);
    assert_eq!(assign_flag(0x3C, OVERFLOW, true), 0x7C);
    assert_eq!(assign_flag(0x7C, OVERFLOW, false), 0x3C);
    assert_eq!(assign_flag(0x80, NEGATIVE, true), 0x80);
    assert_eq!(assign_flag(0x01, ZERO, false), 0x01);
}

#[test]
fn zero_and_negative_follow_every_byte() {
    for value in 0..=255u8 {
        for status in [0x00u8, 0xFF, 0x3C, 0x41, 0x82, 0xC3] {
            let mut cpu = CPU::new();
            cpu.status = status;
            cpu.update_zero_and_negative_flags(value);
            assert_eq!(cpu.status & 0x02 != 0, value == 0);
            assert_eq!(cpu.status & 0x80 != 0, value & 0x80 != 0);
            assert_eq!(cpu.status & 0x7D, status & 0x7D);
            assert_eq!(cpu.register_a, 0);
        }
    }
}

#[test]
fn zero_and_negative_are_overwritten() {
    let mut cpu = CPU::new();
    cpu.status = 0x82;
    cpu.update_zero_and_negative_flags(0x01);
    assert_eq!(cpu.status, 0x00);
    cpu.update_zero_and_negative_flags(0x00);
    assert_eq!(cpu.status, 0x02);
    cpu.update_zero_and_negative_flags(0xFF);
    assert_eq!(cpu.status, 0x80);
}

#[test]
fn lda_immediate_touches_only_a_zero_and_negative() {
    let mut cpu = with_operand(0x11, 0x80, 0x7F);
    cpu.register_x = 0x22;
    cpu.register_y = 0x33;
    assert_eq!(cpu.lda(&AddressingMode::Immediate), Ok(()));
    assert_eq!(cpu.register_a, 0x80);
    assert_eq!(cpu.register_x, 0x22);
    assert_eq!(cpu.register_y, 0x33);
    assert_eq!(cpu.status, 0xFD);
    assert_eq!(cpu.program_counter, 0x0600);
    assert_eq!(cpu.mem_read(0x0600), 0x80);
}

#[test]
fn sta_writes_accumulator_and_keeps_flags() {
    let mut cpu = with_operand(0xBA, 0x10, 0xC3);
    assert_eq!(cpu.sta(&AddressingMode::ZeroPage), Ok(()));
    assert_eq!(cpu.mem_read(0x0010), 0xBA);
    assert_eq!(cpu.register_a, 0xBA);
    assert_eq!(cpu.status, 0xC3);
    assert_eq!(cpu.mem_read(0x0600), 0x10);
}

#[test]
fn tax_copies_a_and_sets_flags_from_x() {
    let mut cpu = CPU::new();
    cpu.register_a = 0x00;
    cpu.register_x = 0x55;
    cpu.status = 0x81;
    cpu.tax();
    assert_eq!(cpu.register_x, 0x00);
    assert_eq!(cpu.register_a, 0x00);
    assert_eq!(cpu.status, 0x03);
    cpu.register_a = 0x90;
    cpu.tax();
    assert_eq!(cpu.register_x, 0x90);
    assert_eq!(cpu.status, 0x81);
}

#[test]
fn inx_counts_modulo_256() {
    let mut cpu = CPU::new();
    for start in 0..=255u8 {
        cpu.register_x = start;
        cpu.status = 0x41;
        cpu.inx();
        let expected = ((start as u16 + 1) % 256) as u8;
        assert_eq!(cpu.register_x, expected);
        assert_eq!(cpu.status & 0x02 != 0, expected == 0);
        assert_eq!(cpu.status & 0x80 != 0, expected >= 0x80);
        assert_eq!(cpu.status & 0x7D, 0x41);
    }
}

#[test]
fn inx_wraps_to_zero() {
    let mut cpu = CPU::new();
    cpu.register_x = 0xFF;
    cpu.inx();
    assert_eq!(cpu.register_x, 0x00);
    assert_eq!(cpu.status, 0x02);
}

#[test]
fn adc_examples() {
    let cases: [(u8, u8, u8, u8, u8); 6] = [
        (0x20, 0x10, 0x00, 0x30, 0x00),
        (0xFF, 0x01, 0x00, 0x00, 0x03),
        (0x7F, 0x10, 0x00, 0x8F, 0xC0),
        (0x80, 0x80, 0x00, 0x00, 0x43),
        (0xFF, 0xFF, 0x01, 0xFF, 0x81),
        (0x00, 0x00, 0x01, 0x01, 0x00),
    ];
    for (a, m, status, result, flags) in cases {
        let mut cpu = with_operand(a, m, status);
        assert_eq!(cpu.adc(&AddressingMode::Immediate), Ok(()));
        assert_eq!(cpu.register_a, result);
        assert_eq!(cpu.status, flags);
    }
}

#[test]
fn sbc_examples() {
    let cases: [(u8, u8, u8, u8, u8); 6] = [
        (0x01, 0x02, 0x00, 0xFE, 0x80),
        (0x01, 0x02, 0x01, 0xFF, 0x80),
        (0x20, 0x10, 0x01, 0x10, 0x01),
        (0x10, 0x10, 0x01, 0x00, 0x03),
        (0x80, 0x01, 0x01, 0x7F, 0x41),
        (0x00, 0x00, 0x00, 0xFF, 0x80),
    ];
    for (a, m, status, result, flags) in cases {
        let mut cpu = with_operand(a, m, status);
        assert_eq!(cpu.sbc(&AddressingMode::Immediate), Ok(()));
        assert_eq!(cpu.register_a, result);
        assert_eq!(cpu.status, flags);
    }
}

#[test]
fn adc_agrees_with_signed_arithmetic_everywhere() {
    for a in 0..=255u8 {
        for m in 0..=255u8 {
            for status in [0x00u8, 0x01, 0xFE, 0xFF] {
                let mut cpu = with_operand(a, m, status);
                cpu.adc(&AddressingMode::Immediate).unwrap();
                assert_eq!((cpu.register_a, cpu.status), adc_model(a, m, status));
            }
        }
    }
}

#[test]
fn sbc_agrees_with_signed_arithmetic_everywhere() {
    for a in 0..=255u8 {
        for m in 0..=255u8 {
            for status in [0x00u8, 0x01, 0xFE, 0xFF] {
                let mut cpu = with_operand(a, m, status);
                cpu.sbc(&AddressingMode::Immediate).unwrap();
                assert_eq!((cpu.register_a, cpu.status), sbc_model(a, m, status));
            }
        }
    }
}

#[test]
fn sbc_is_adc_of_the_complement() {
    for a in [0x00u8, 0x01, 0x7F, 0x80, 0xFE, 0xFF] {
        for m in 0..=255u8 {
            for status in [0x00u8, 0x01] {
                let mut sub = with_operand(a, m, status);
                let mut add = with_operand(a, !m, status);
                sub.sbc(&AddressingMode::Immediate).unwrap();
                add.adc(&AddressingMode::Immediate).unwrap();
                assert_eq!(sub.register_a, add.register_a);
                assert_eq!(sub.status, add.status);
            }
        }
    }
}

#[test]
fn arithmetic_keeps_x_y_and_memory() {
    let mut cpu = with_operand(0x40, 0x50, 0x00);
    cpu.register_x = 0x0A;
    cpu.register_y = 0x0B;
    cpu.adc(&AddressingMode::Immediate).unwrap();
    cpu.sbc(&AddressingMode::Immediate).unwrap();
    assert_eq!(cpu.register_x, 0x0A);
    assert_eq!(cpu.register_y, 0x0B);
    assert_eq!(cpu.mem_read(0x0600), 0x50);
    assert_eq!(cpu.program_counter, 0x0600);
}
