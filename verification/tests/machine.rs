use mos6502::arith::{high_of, low_of, word_of, wrap_add16, wrap_add8, wrap_sub16, wrap_sub8};
use mos6502::cpu::CPU;
use mos6502::isa::{decode, AddressingMode, Mnemonic};
use mos6502::model::{CpuError, StepOutcome};

#[test]
fn unsupported_opcode_stops_the_run() {
    let mut cpu = CPU::new();
    assert_eq!(
        cpu.load_and_run(vec![0xFF]),
        Err(CpuError::UnsupportedOpcode(0xFF))
    );
    assert_eq!(cpu.register_a, 0);
    assert_eq!(cpu.register_x, 0);
    assert_eq!(cpu.register_y, 0);
}

#[test]
fn unsupported_opcode_keeps_earlier_work() {
    let mut cpu = CPU::new();
    assert_eq!(
        cpu.load_and_run(vec![0xA9, 0x05, 0x02, 0x00]),
        Err(CpuError::UnsupportedOpcode(0x02))
    );
    assert_eq!(cpu.register_a, 0x05);
}

#[test]
fn oversized_program_is_refused_whole() {
    let mut cpu = CPU::new();
    assert_eq!(
        cpu.load(vec![0xEA; 0x8001]),
        Err(CpuError::ProgramTooLarge)
    );
    assert_eq!(cpu.mem_read(0x8000), 0x00);
    assert_eq!(cpu.mem_read(0xFFFC), 0x00);
    assert_eq!(cpu.mem_read(0xFFFD), 0x00);
}

#[test]
fn largest_program_fills_memory_to_the_end() {
    let mut cpu = CPU::new();
    assert_eq!(cpu.load(vec![0xEA; 0x8000]), Ok(()));
    assert_eq!(cpu.mem_read(0x8000), 0xEA);
    assert_eq!(cpu.mem_read(0xFFFB), 0xEA);
    assert_eq!(cpu.mem_read(0xFFFF), 0xEA);
    assert_eq!(cpu.mem_read(0xFFFC), 0x00);
    assert_eq!(cpu.mem_read(0xFFFD), 0x80);
}

#[test]
fn load_installs_the_reset_vector() {
    let mut cpu = CPU::new();
    cpu.load(vec![0xA9, 0x01, 0x00]).unwrap();
    assert_eq!(cpu.mem_read(0xFFFC), 0x00);
    assert_eq!(cpu.mem_read(0xFFFD), 0x80);
    assert_eq!(cpu.mem_read(0x8000), 0xA9);
    assert_eq!(cpu.mem_read(0x8001), 0x01);
}

#[test]
fn init_leaves_the_machine_at_the_load_origin() {
    let mut cpu = CPU::new();
    cpu.init(vec![0xA9, 0x01, 0x00]).unwrap();
    assert_eq!(cpu.program_counter, 0x8000);
    assert_eq!(cpu.stack_pointer, 0xFF);
}

#[test]
fn reset_clears_registers_and_reads_the_vector() {
    let mut cpu = CPU::new();
    cpu.mem_write(0xFFFC, 0x34);
    cpu.mem_write(0xFFFD, 0x12);
    cpu.register_a = 7;
    cpu.register_x = 8;
    cpu.register_y = 9;
    cpu.status = 0xAA;
    cpu.stack_pointer = 0x10;
    cpu.reset();
    assert_eq!(cpu.program_counter, 0x1234);
    assert_eq!(cpu.register_a, 0);
    assert_eq!(cpu.register_x, 0);
    assert_eq!(cpu.register_y, 0);
    assert_eq!(cpu.status, 0);
    assert_eq!(cpu.stack_pointer, 0xFF);
}

#[test]
fn step_reports_halt_on_brk() {
    let mut cpu = CPU::new();
    assert_eq!(cpu.step(), Ok(StepOutcome::Halted));
    assert_eq!(cpu.program_counter, 0x0001);
}

#[test]
fn step_reports_unsupported_opcode() {
    let mut cpu = CPU::new();
    cpu.mem_write(0x0000, 0xFF);
    assert_eq!(cpu.step(), Err(CpuError::UnsupportedOpcode(0xFF)));
    assert_eq!(cpu.program_counter, 0x0001);
}

#[test]
fn jsr_pushes_the_return_address_on_the_stack_page() {
    let mut cpu = CPU::new();
    cpu.init(vec![0x20, 0x00, 0x00, 0x06, 0x80, 0x00, 0x40]).unwrap();
    assert_eq!(cpu.step(), Ok(StepOutcome::Running));
    assert_eq!(cpu.program_counter, 0x8006);
    assert_eq!(cpu.stack_pointer, 0xFD);
    assert_eq!(cpu.mem_read(0x01FF), 0x80);
    assert_eq!(cpu.mem_read(0x01FE), 0x02);
}

#[test]
fn jsr_then_rts_returns_past_the_call_site() {
    let mut cpu = CPU::new();
    cpu.init(vec![0x20, 0x00, 0x00, 0x06, 0x80, 0x00, 0x40]).unwrap();
    assert_eq!(cpu.step(), Ok(StepOutcome::Running));
    assert_eq!(cpu.step(), Ok(StepOutcome::Running));
    assert_eq!(cpu.program_counter, 0x8003);
    assert_eq!(cpu.stack_pointer, 0xFF);
}

#[test]
fn lda_of_a_negative_value_sets_the_negative_flag() {
    let mut cpu = CPU::new();
    cpu.load_and_run(vec![0xA9, 0x80, 0x00]).unwrap();
    assert!(cpu.status & 0b1000_0000 != 0);
    assert!(cpu.status & 0b0000_0010 == 0);
}

#[test]
fn tax_of_zero_sets_the_zero_flag() {
    let mut cpu = CPU::new();
    cpu.init(vec![0xAA, 0x00]).unwrap();
    cpu.run().unwrap();
    assert_eq!(cpu.register_x, 0);
    assert!(cpu.status & 0b0000_0010 != 0);
}

#[test]
fn inx_into_the_high_half_sets_the_negative_flag() {
    let mut cpu = CPU::new();
    cpu.init(vec![0xE8, 0x00]).unwrap();
    cpu.register_x = 0x7F;
    cpu.run().unwrap();
    assert_eq!(cpu.register_x, 0x80);
    assert!(cpu.status & 0b1000_0000 != 0);
}

#[test]
fn flag_updates_leave_other_status_bits_alone() {
    let mut cpu = CPU::new();
    cpu.init(vec![0xA9, 0x05, 0x00]).unwrap();
    cpu.status = 0b0100_0001;
    cpu.run().unwrap();
    assert_eq!(cpu.status, 0b0100_0001);
}

#[test]
fn decode_maps_opcodes_to_table_entries() {
    assert_eq!(decode(0xA9), Some((Mnemonic::Lda, AddressingMode::Immediate)));
    assert_eq!(decode(0x6C), Some((Mnemonic::Jmp, AddressingMode::Indirect)));
    assert_eq!(decode(0x20), Some((Mnemonic::Jsr, AddressingMode::Absolute)));
    assert_eq!(decode(0x00), Some((Mnemonic::Brk, AddressingMode::NoneAddressing)));
    assert_eq!(decode(0xFF), None);
    assert_eq!(decode(0x60), None);
}

#[test]
fn wrapping_arithmetic_helpers() {
    assert_eq!(wrap_add8(0xFF, 1), 0x00);
    assert_eq!(wrap_add8(0xFF, 3), 0x02);
    assert_eq!(wrap_sub8(0x00, 1), 0xFF);
    assert_eq!(wrap_add16(0xFFFF, 1), 0x0000);
    assert_eq!(wrap_sub16(0x0000, 1), 0xFFFF);
    assert_eq!(word_of(0x12, 0x34), 0x1234);
    assert_eq!(low_of(0x1234), 0x34);
    assert_eq!(high_of(0x1234), 0x12);
}
