use cpu6502::{decode, AddressingMode, CpuError, Instruction, Operation, Step, CPU};

fn loaded(program: Vec<u8>) -> CPU {
    let mut cpu = CPU::new();
    cpu.load(program).unwrap();
    cpu.reset();
    cpu
}

#[test]
fn decode_knows_exactly_the_supported_opcodes() {
    let supported: [u8; 20] = [
        0x00, 0x69, 0xA1, 0xA5, 0xA9, 0xAD, 0xB1, 0xB5, 0xB9, 0xBD, 0xAA, 0xE8, 0xE9, 0x81, 0x85,
        0x8D, 0x91, 0x95, 0x99, 0x9D,
    ];
    for opcode in 0..=255u8 {
        assert_eq!(decode(opcode).is_some(), supported.contains(&opcode), "opcode {:#04x}", opcode);
    }
}

#[test]
fn decode_pairs_operation_and_mode() {
    let table = [
        (0x00u8, Operation::Brk, AddressingMode::NoneAddressing),
        (0xAA, Operation::Tax, AddressingMode::NoneAddressing),
        (0xE8, Operation::Inx, AddressingMode::NoneAddressing),
        (0x69, Operation::Adc, AddressingMode::Immediate),
        (0xE9, Operation::Sbc, AddressingMode::Immediate),
        (0xA9, Operation::Lda, AddressingMode::Immediate),
        (0xA5, Operation::Lda, AddressingMode::ZeroPage),
        (0xB5, Operation::Lda, AddressingMode::ZeroPage_X),
        (0xAD, Operation::Lda, AddressingMode::Absolute),
        (0xBD, Operation::Lda, AddressingMode::Absolute_X),
        (0xB9, Operation::Lda, AddressingMode::Absolute_Y),
        (0xA1, Operation::Lda, AddressingMode::Indirect_X),
        (0xB1, Operation::Lda, AddressingMode::Indirect_Y),
        (0x85, Operation::Sta, AddressingMode::ZeroPage),
        (0x95, Operation::Sta, AddressingMode::ZeroPage_X),
        (0x8D, Operation::Sta, AddressingMode::Absolute),
        (0x9D, Operation::Sta, AddressingMode::Absolute_X),
        (0x99, Operation::Sta, AddressingMode::Absolute_Y),
        (0x81, Operation::Sta, AddressingMode::Indirect_X),
        (0x91, Operation::Sta, AddressingMode::Indirect_Y),
    ];
    for (opcode, operation, mode) in table {
        assert_eq!(decode(opcode), Some(Instruction { operation, mode }));
    }
}

#[test]
fn step_executes_one_instruction() {
    let mut cpu = loaded(vec![0xA9, 0x05, 0xAA, 0x00]);
    assert_eq!(cpu.step(), Ok(Step::Continue));
    assert_eq!(cpu.register_a, 0x05);
    assert_eq!(cpu.register_x, 0x00);
    assert_eq!(cpu.program_counter, 0x8002);
    assert_eq!(cpu.step(), Ok(Step::Continue));
    assert_eq!(cpu.register_x, 0x05);
    assert_eq!(cpu.program_counter, 0x8003);
    assert_eq!(cpu.step(), Ok(Step::Halted));
    assert_eq!(cpu.program_counter, 0x8004);
}

#[test]
fn step_advances_by_operand_width() {
    let mut cpu = loaded(vec![0xAD, 0x10, 0xAA, 0xB5, 0x10, 0xE8, 0x8D, 0x00, 0x02]);
    cpu.step().unwrap();
    assert_eq!(cpu.program_counter, 0x8003);
    cpu.step().unwrap();
    assert_eq!(cpu.program_counter, 0x8005);
    cpu.step().unwrap();
    assert_eq!(cpu.program_counter, 0x8006);
    cpu.step().unwrap();
    assert_eq!(cpu.program_counter, 0x8009);
}

#[test]
fn step_on_unsupported_opcode_changes_nothing() {
    let mut cpu = loaded(vec![0xA9, 0x42, 0xFF, 0x00]);
    cpu.step().unwrap();
    cpu.register_x = 0x11;
    cpu.register_y = 0x22;
    cpu.status = 0x41;
    let fault = cpu.step();
    assert_eq!(fault, Err(CpuError::UnimplementedOpcode { opcode: 0xFF, address: 0x8002 }));
    assert_eq!(cpu.program_counter, 0x8002);
    assert_eq!(cpu.register_a, 0x42);
    assert_eq!(cpu.register_x, 0x11);
    assert_eq!(cpu.register_y, 0x22);
    assert_eq!(cpu.status, 0x41);
    assert_eq!(cpu.mem_read(0x8002), 0xFF);
}

#[test]
fn run_reports_unsupported_opcode() {
    let mut cpu = loaded(vec![0xA9, 0x42, 0xE8, 0x02, 0x00]);
    let fault = cpu.run();
    assert_eq!(fault, Err(CpuError::UnimplementedOpcode { opcode: 0x02, address: 0x8003 }));
    assert_eq!(cpu.program_counter, 0x8003);
    assert_eq!(cpu.register_a, 0x42);
    assert_eq!(cpu.register_x, 0x01);
}

#[test]
fn run_stops_behind_brk() {
    let mut cpu = loaded(vec![0xE8, 0xE8, 0x00, 0xE8]);
    assert_eq!(cpu.run(), Ok(()));
    assert_eq!(cpu.register_x, 2);
    assert_eq!(cpu.program_counter, 0x8003);
}

#[test]
fn load_and_run_is_load_reset_run() {
    let program = vec![0xA9, 0xC0, 0xAA, 0xE8, 0x69, 0x50, 0x8D, 0x34, 0x12, 0x00];
    let mut composed = CPU::new();
    composed.register_y = 0x77;
    composed.mem_write(0x0040, 0x99);
    let mut stepwise = CPU::new();
    stepwise.register_y = 0x77;
    stepwise.mem_write(0x0040, 0x99);

    let first = composed.load_and_run(program.clone());
    stepwise.load(program).unwrap();
    stepwise.reset();
    let second = stepwise.run();

    assert_eq!(first, second);
    assert_eq!(first, Ok(()));
    assert_eq!(composed.register_a, stepwise.register_a);
    assert_eq!(composed.register_x, stepwise.register_x);
    assert_eq!(composed.register_y, stepwise.register_y);
    assert_eq!(composed.status, stepwise.status);
    assert_eq!(composed.program_counter, stepwise.program_counter);
    for addr in 0..=0xFFFFu16 {
        assert_eq!(composed.mem_read(addr), stepwise.mem_read(addr));
    }
    assert_eq!(composed.register_a, 0x10);
    assert_eq!(composed.register_x, 0xC1);
    assert_eq!(composed.register_y, 0x00);
    assert_eq!(composed.mem_read(0x1234), 0x10);
    assert_eq!(composed.program_counter, 0x800A);
}

#[test]
fn load_and_run_is_load_reset_run_on_fault() {
    let program = vec![0xA9, 0x01, 0x42, 0x00];
    let mut composed = CPU::new();
    let mut stepwise = CPU::new();
    let first = composed.load_and_run(program.clone());
    stepwise.load(program).unwrap();
    stepwise.reset();
    let second = stepwise.run();
    assert_eq!(first, second);
    assert_eq!(first, Err(CpuError::UnimplementedOpcode { opcode: 0x42, address: 0x8002 }));
    assert_eq!(composed.program_counter, stepwise.program_counter);
    assert_eq!(composed.register_a, stepwise.register_a);
}

#[test]
fn load_and_run_refuses_oversized_program() {
    let mut cpu = CPU::new();
    cpu.register_a = 0x12;
    cpu.program_counter = 0x0200;
    let refused = cpu.load_and_run(vec![0x00; 0x8001]);
    assert_eq!(refused, Err(CpuError::ProgramTooLarge { len: 0x8001 }));
    assert_eq!(cpu.register_a, 0x12);
    assert_eq!(cpu.program_counter, 0x0200);
    assert_eq!(cpu.mem_read_u16(0xFFFC), 0x0000);
}

#[test]
fn run_steps_matches_run_when_program_ends() {
    let program = vec![0xA9, 0x07, 0xAA, 0xE8, 0x00];
    let mut bounded = loaded(program.clone());
    let mut unbounded = loaded(program);
    assert_eq!(bounded.run_steps(4), Some(Ok(())));
    assert_eq!(unbounded.run(), Ok(()));
    assert_eq!(bounded.register_a, unbounded.register_a);
    assert_eq!(bounded.register_x, 0x08);
    assert_eq!(bounded.program_counter, unbounded.program_counter);
    assert_eq!(bounded.status, unbounded.status);
}

#[test]
fn run_steps_stops_at_the_limit() {
    let mut cpu = loaded(vec![0xA9, 0x07, 0xAA, 0xE8, 0x00]);
    assert_eq!(cpu.run_steps(3), None);
    assert_eq!(cpu.register_x, 0x08);
    assert_eq!(cpu.program_counter, 0x8004);
    assert_eq!(cpu.run_steps(0), None);
    assert_eq!(cpu.program_counter, 0x8004);
    assert_eq!(cpu.run_steps(1), Some(Ok(())));
    assert_eq!(cpu.program_counter, 0x8005);
}

#[test]
fn run_steps_reports_fault() {
    let mut cpu = loaded(vec![0xE8, 0x03]);
    assert_eq!(
        cpu.run_steps(10),
        Some(Err(CpuError::UnimplementedOpcode { opcode: 0x03, address: 0x8001 }))
    );
    assert_eq!(cpu.program_counter, 0x8001);
    assert_eq!(cpu.register_x, 1);
}

#[test]
fn run_steps_bounds_a_program_that_never_ends() {
    let mut cpu = CPU::new();
    for addr in 0..=0xFFFFu16 {
        cpu.mem_write(addr, 0xE8);
    }
    cpu.program_counter = 0xFFF0;
    assert_eq!(cpu.run_steps(0x20), None);
    assert_eq!(cpu.program_counter, 0x0010);
    assert_eq!(cpu.register_x, 0x20);
}

#[test]
fn program_counter_wraps_at_top_of_memory() {
    let mut cpu = CPU::new();
    cpu.mem_write(0xFFFF, 0xA9);
    cpu.mem_write(0x0000, 0x33);
    cpu.mem_write(0x0001, 0x00);
    cpu.program_counter = 0xFFFF;
    assert_eq!(cpu.run(), Ok(()));
    assert_eq!(cpu.register_a, 0x33);
    assert_eq!(cpu.program_counter, 0x0002);
}

#[test]
fn execute_reports_missing_addressing_mode() {
    let mut cpu = CPU::new();
    cpu.program_counter = 0x0300;
    cpu.register_a = 0x09;
    for operation in [Operation::Lda, Operation::Sta, Operation::Adc, Operation::Sbc] {
        let done = cpu.execute(Instruction { operation, mode: AddressingMode::NoneAddressing });
        assert_eq!(done, Err(CpuError::InvalidAddressingMode { address: 0x0300 }));
        assert_eq!(cpu.register_a, 0x09);
        assert_eq!(cpu.status, 0x00);
        assert_eq!(cpu.program_counter, 0x0300);
    }
}

#[test]
fn execute_leaves_program_counter_alone() {
    let mut cpu = CPU::new();
    cpu.program_counter = 0x0300;
    cpu.mem_write(0x0300, 0x44);
    let done = cpu.execute(Instruction { operation: Operation::Lda, mode: AddressingMode::Immediate });
    assert_eq!(done, Ok(()));
    assert_eq!(cpu.register_a, 0x44);
    assert_eq!(cpu.program_counter, 0x0300);
    let done = cpu.execute(Instruction { operation: Operation::Brk, mode: AddressingMode::NoneAddressing });
    assert_eq!(done, Ok(()));
    assert_eq!(cpu.register_a, 0x44);
    assert_eq!(cpu.program_counter, 0x0300);
}

#[test]
fn sta_in_every_mode() {
    let mut cpu = loaded(vec![
        0x85, 0x10, 0x95, 0x10, 0x8D, 0x00, 0x02, 0x9D, 0x00, 0x02, 0x99, 0x00, 0x02, 0x81, 0x20,
        0x91, 0x30, 0x00,
    ]);
    cpu.register_a = 0xBA;
    cpu.register_x = 0x04;
    cpu.register_y = 0x08;
    cpu.status = 0xC3;
    cpu.mem_write_u16(0x0024, 0x0400);
    cpu.mem_write_u16(0x0030, 0x0500);
    assert_eq!(cpu.run(), Ok(()));
    assert_eq!(cpu.mem_read(0x0010), 0xBA);
    assert_eq!(cpu.mem_read(0x0014), 0xBA);
    assert_eq!(cpu.mem_read(0x0200), 0xBA);
    assert_eq!(cpu.mem_read(0x0204), 0xBA);
    assert_eq!(cpu.mem_read(0x0208), 0xBA);
    assert_eq!(cpu.mem_read(0x0400), 0xBA);
    assert_eq!(cpu.mem_read(0x0508), 0xBA);
    assert_eq!(cpu.mem_read(0x0011), 0x00);
    assert_eq!(cpu.register_a, 0xBA);
    assert_eq!(cpu.status, 0xC3);
}

#[test]
fn reserved_status_bits_survive_a_run() {
    let mut cpu = loaded(vec![0xA9, 0x00, 0x69, 0xFF, 0xE9, 0x01, 0xAA, 0xE8, 0xA9, 0x80, 0x00]);
    cpu.status = 0x3C;
    cpu.register_y = 0x5A;
    assert_eq!(cpu.run(), Ok(()));
    assert_eq!(cpu.status & 0x3C, 0x3C);
    assert_eq!(cpu.register_y, 0x5A);
    assert_eq!(cpu.register_a, 0x80);
    assert_eq!(cpu.register_x, 0xFE);
    assert_eq!(cpu.status, 0xBD);
}
