use nes_core::cpu::CPU;
use nes_core::flags::{CARRY, NEGATIVE, OVERFLOW, ZERO};
use nes_core::isa::Halt;
use nes_core::memory::Memory;
use nes_core::opcodes::{decode, AddressingMode, Instruction};

#[test]
fn test_0xa9_lda_immidiate_load_data() {
    let mut cpu = CPU::new();
    cpu.load_and_run(vec![0xa9, 0x05, 0x00]);
    assert_eq!(cpu.register_a, 5);
    assert!(cpu.status_register.bits() & 0b0000_0010 == 0b00);
    assert!(cpu.status_register.bits() & 0b1000_0000 == 0);
}

// `reset` clears the registers, so the register is set after it.
#[test]
fn test_0xaa_tax_move_a_to_x() {
    let mut cpu = CPU::new();
    cpu.load(vec![0xaa, 0x00]);
    cpu.reset();
    cpu.register_a = 10;
    cpu.run();

    assert_eq!(cpu.register_x, 10)
}

#[test]
fn test_5_ops_working_together() {
    let mut cpu = CPU::new();
    cpu.load_and_run(vec![0xa9, 0xc0, 0xaa, 0xe8, 0x00]);

    assert_eq!(cpu.register_x, 0xc1)
}

// `reset` clears the registers, so the register is set after it.
#[test]
fn test_inx_overflow() {
    let mut cpu = CPU::new();
    cpu.load(vec![0xe8, 0xe8, 0x00]);
    cpu.reset();
    cpu.register_x = 0xff;
    cpu.run();

    assert_eq!(cpu.register_x, 1)
}

#[test]
fn test_lda_from_memory() {
    let mut cpu = CPU::new();
    cpu.m_write(0x10, 0x55);

    cpu.load_and_run(vec![0xa5, 0x10, 0x00]);

    assert_eq!(cpu.register_a, 0x55);
}

#[test]
fn lda_zero_page_reads_written_byte() {
    let mut cpu = CPU::new();
    cpu.m_write(0x0010, 0x66);
    cpu.load_and_run(vec![0xA5, 0x10, 0x00]);
    assert_eq!(cpu.register_a, 0x66);
}

#[test]
fn lda_sets_zero_and_negative() {
    let mut cpu = CPU::new();
    cpu.load_and_run(vec![0xA9, 0x00, 0x00]);
    assert!(cpu.status_register.contains(ZERO));
    assert!(!cpu.status_register.contains(NEGATIVE));
    cpu.load_and_run(vec![0xA9, 0x80, 0x00]);
    assert!(!cpu.status_register.contains(ZERO));
    assert!(cpu.status_register.contains(NEGATIVE));
}

#[test]
fn break_halts_after_the_opcode() {
    let mut cpu = CPU::new();
    let halt = cpu.load_and_run(vec![0xEA, 0x00]);
    assert_eq!(halt, Halt::Break);
    assert_eq!(cpu.program_counter, 0x8002);
}

#[test]
fn unknown_opcode_halts() {
    let mut cpu = CPU::new();
    let halt = cpu.load_and_run(vec![0xA9, 0x01, 0x02]);
    assert_eq!(halt, Halt::UnknownOpcode(0x02));
    assert_eq!(cpu.register_a, 1);
}

#[test]
fn store_into_program_memory_halts() {
    let mut cpu = CPU::new();
    let halt = cpu.load_and_run(vec![0xA9, 0x07, 0x8D, 0x34, 0x92, 0x00]);
    assert_eq!(halt, Halt::ProgramMemoryWrite(0x9234));
    assert_eq!(cpu.m_read(0x9234), 0);
}

#[test]
fn step_limit_halts() {
    let mut cpu = CPU::new();
    cpu.load(vec![0xE8, 0xE8, 0xE8, 0x00]);
    cpu.reset();
    assert_eq!(cpu.run_steps(2), Halt::StepLimit);
    assert_eq!(cpu.register_x, 2);
    assert_eq!(cpu.program_counter, 0x8002);
}

#[test]
fn reset_reads_vector_and_restores_registers() {
    let mut cpu = CPU::new();
    cpu.load(vec![0x00]);
    cpu.register_a = 9;
    cpu.stack_pointer = 0x10;
    cpu.reset();
    assert_eq!(cpu.program_counter, 0x8000);
    assert_eq!(cpu.register_a, 0);
    assert_eq!(cpu.stack_pointer, 0xFD);
    assert_eq!(cpu.status_register.bits(), 0b0010_0100);
}

#[test]
fn adc_sets_overflow_and_negative() {
    let mut cpu = CPU::new();
    // LDA #$50; ADC #$50
    cpu.load_and_run(vec![0xA9, 0x50, 0x69, 0x50, 0x00]);
    assert_eq!(cpu.register_a, 0xA0);
    assert!(cpu.status_register.contains(OVERFLOW));
    assert!(cpu.status_register.contains(NEGATIVE));
    assert!(!cpu.status_register.contains(CARRY));
}

#[test]
fn adc_sets_carry_and_adds_carry_in() {
    let mut cpu = CPU::new();
    // LDA #$F0; ADC #$20; ADC #$00
    cpu.load_and_run(vec![0xA9, 0xF0, 0x69, 0x20, 0x69, 0x00, 0x00]);
    assert_eq!(cpu.register_a, 0x11);
    assert!(!cpu.status_register.contains(CARRY));
}

#[test]
fn sbc_subtracts_with_borrow() {
    let mut cpu = CPU::new();
    // LDA #$50; SEC; SBC #$30
    cpu.load_and_run(vec![0xA9, 0x50, 0x38, 0xE9, 0x30, 0x00]);
    assert_eq!(cpu.register_a, 0x20);
    assert!(cpu.status_register.contains(CARRY));
    // LDA #$50; CLC; SBC #$30  (borrow: one less)
    cpu.load_and_run(vec![0xA9, 0x50, 0x18, 0xE9, 0x30, 0x00]);
    assert_eq!(cpu.register_a, 0x1F);
}

#[test]
fn compare_sets_carry_and_zero() {
    let mut cpu = CPU::new();
    // LDA #$10; CMP #$10
    cpu.load_and_run(vec![0xA9, 0x10, 0xC9, 0x10, 0x00]);
    assert!(cpu.status_register.contains(CARRY));
    assert!(cpu.status_register.contains(ZERO));
    // LDA #$10; CMP #$20
    cpu.load_and_run(vec![0xA9, 0x10, 0xC9, 0x20, 0x00]);
    assert!(!cpu.status_register.contains(CARRY));
    assert!(cpu.status_register.contains(NEGATIVE));
}

#[test]
fn branch_loop_counts_down() {
    let mut cpu = CPU::new();
    // LDX #3; loop: DEX; BNE loop; BRK
    cpu.load_and_run(vec![0xA2, 0x03, 0xCA, 0xD0, 0xFD, 0x00]);
    assert_eq!(cpu.register_x, 0);
    assert_eq!(cpu.program_counter, 0x8006);
}

#[test]
fn subroutine_call_and_return() {
    let mut cpu = CPU::new();
    // JSR $8006; BRK; (pad); LDA #7; RTS
    cpu.load_and_run(vec![0x20, 0x06, 0x80, 0x00, 0xEA, 0xEA, 0xA9, 0x07, 0x60]);
    assert_eq!(cpu.register_a, 7);
    assert_eq!(cpu.program_counter, 0x8004);
    assert_eq!(cpu.stack_pointer, 0xFD);
}

#[test]
fn jsr_pushes_address_of_last_byte() {
    let mut cpu = CPU::new();
    // JSR $8010 and stop there
    let mut program = vec![0x20, 0x10, 0x80];
    program.resize(0x11, 0xEA);
    program[0x10] = 0x00;
    cpu.load_and_run(program);
    assert_eq!(cpu.stack_pointer, 0xFB);
    assert_eq!(cpu.m_read(0x01FD), 0x80);
    assert_eq!(cpu.m_read(0x01FC), 0x02);
}

#[test]
fn push_and_pull_accumulator() {
    let mut cpu = CPU::new();
    // LDA #$42; PHA; LDA #$00; PLA
    cpu.load_and_run(vec![0xA9, 0x42, 0x48, 0xA9, 0x00, 0x68, 0x00]);
    assert_eq!(cpu.register_a, 0x42);
    assert_eq!(cpu.stack_pointer, 0xFD);
    assert_eq!(cpu.m_read(0x01FD), 0x42);
}

#[test]
fn php_plp_break_bits() {
    let mut cpu = CPU::new();
    // SEC; PHP; CLC; PLP
    cpu.load_and_run(vec![0x38, 0x08, 0x18, 0x28, 0x00]);
    assert_eq!(cpu.m_read(0x01FD), 0b0011_0101);
    assert!(cpu.status_register.contains(CARRY));
    assert_eq!(cpu.status_register.bits() & 0b0011_0000, 0b0010_0000);
}

#[test]
fn jmp_indirect_page_wrap() {
    let mut cpu = CPU::new();
    cpu.m_write(0x02FF, 0x00);
    cpu.m_write(0x0200, 0x90);
    cpu.m_write(0x0300, 0xA0);
    cpu.load(vec![0x6C, 0xFF, 0x02]);
    cpu.reset();
    let halt = cpu.run_steps(10);
    assert_eq!(halt, Halt::Break);
    assert_eq!(cpu.program_counter, 0x9001);
}

#[test]
fn jmp_indirect_without_wrap() {
    let mut cpu = CPU::new();
    cpu.m_write(0x0210, 0x00);
    cpu.m_write(0x0211, 0xA0);
    cpu.load(vec![0x6C, 0x10, 0x02]);
    cpu.reset();
    assert_eq!(cpu.run_steps(10), Halt::Break);
    assert_eq!(cpu.program_counter, 0xA001);
}

#[test]
fn indexed_and_indirect_modes() {
    let mut cpu = CPU::new();
    cpu.m_write(0x0005, 0x11);
    cpu.m_write(0x0024, 0x00);
    cpu.m_write(0x0025, 0x03);
    cpu.m_write(0x0302, 0x77);
    // LDX #$FF; LDA $06,X (zero page wraps to $05)
    cpu.load_and_run(vec![0xA2, 0xFF, 0xB5, 0x06, 0x00]);
    assert_eq!(cpu.register_a, 0x11);
    // LDY #2; LDA ($24),Y -> $0300 + 2
    cpu.load_and_run(vec![0xA0, 0x02, 0xB1, 0x24, 0x00]);
    assert_eq!(cpu.register_a, 0x77);
    // LDX #4; LDA ($20,X) -> pointer at $24 -> $0300
    cpu.m_write(0x0300, 0x99);
    cpu.load_and_run(vec![0xA2, 0x04, 0xA1, 0x20, 0x00]);
    assert_eq!(cpu.register_a, 0x99);
}

#[test]
fn indexed_indirect_pointer_wraps_in_zero_page() {
    let mut cpu = CPU::new();
    cpu.m_write(0x00FF, 0x56);
    cpu.m_write(0x0000, 0x04);
    cpu.m_write(0x0100, 0x12);
    cpu.m_write(0x0456, 0x3C);
    cpu.m_write(0x1256, 0x99);
    // LDX #$0F; LDA ($F0,X) -> pointer at $FF, high byte from $00
    cpu.load_and_run(vec![0xA2, 0x0F, 0xA1, 0xF0, 0x00]);
    assert_eq!(cpu.register_a, 0x3C);
}

#[test]
fn shifts_and_rotates() {
    let mut cpu = CPU::new();
    // LDA #$81; ASL A
    cpu.load_and_run(vec![0xA9, 0x81, 0x0A, 0x00]);
    assert_eq!(cpu.register_a, 0x02);
    assert!(cpu.status_register.contains(CARRY));
    // LDA #$81; LSR A
    cpu.load_and_run(vec![0xA9, 0x81, 0x4A, 0x00]);
    assert_eq!(cpu.register_a, 0x40);
    assert!(cpu.status_register.contains(CARRY));
    // SEC; LDA #$40; ROL A
    cpu.load_and_run(vec![0x38, 0xA9, 0x40, 0x2A, 0x00]);
    assert_eq!(cpu.register_a, 0x81);
    assert!(!cpu.status_register.contains(CARRY));
    assert!(cpu.status_register.contains(NEGATIVE));
    // SEC; LDA #$02; ROR A
    cpu.load_and_run(vec![0x38, 0xA9, 0x02, 0x6A, 0x00]);
    assert_eq!(cpu.register_a, 0x81);
}

#[test]
fn rotate_memory_flags_follow_result() {
    let mut cpu = CPU::new();
    cpu.m_write(0x0040, 0x80);
    // CLC; ROL $40  -> 0x00, carry set, zero set
    cpu.load_and_run(vec![0x18, 0x26, 0x40, 0x00]);
    assert_eq!(cpu.m_read(0x0040), 0x00);
    assert!(cpu.status_register.contains(CARRY));
    assert!(cpu.status_register.contains(ZERO));
}

#[test]
fn inc_and_dec_memory() {
    let mut cpu = CPU::new();
    cpu.m_write(0x0030, 0xFF);
    cpu.load_and_run(vec![0xE6, 0x30, 0x00]);
    assert_eq!(cpu.m_read(0x0030), 0x00);
    assert!(cpu.status_register.contains(ZERO));
    cpu.load_and_run(vec![0xC6, 0x30, 0x00]);
    assert_eq!(cpu.m_read(0x0030), 0xFF);
    assert!(cpu.status_register.contains(NEGATIVE));
}

#[test]
fn bit_test_flags() {
    let mut cpu = CPU::new();
    cpu.m_write(0x0050, 0xC0);
    // LDA #$01; BIT $50
    cpu.load_and_run(vec![0xA9, 0x01, 0x24, 0x50, 0x00]);
    assert!(cpu.status_register.contains(ZERO));
    assert!(cpu.status_register.contains(NEGATIVE));
    assert!(cpu.status_register.contains(OVERFLOW));
}

#[test]
fn and_with_carry() {
    let mut cpu = CPU::new();
    // LDA #$F0; ANC #$81
    cpu.load_and_run(vec![0xA9, 0xF0, 0x0B, 0x81, 0x00]);
    assert_eq!(cpu.register_a, 0x80);
    assert!(cpu.status_register.contains(CARRY));
}

#[test]
fn stores_and_transfers() {
    let mut cpu = CPU::new();
    // LDA #$12; TAY; STY $0200; LDX #$34; STX $21; TXS; TSX
    cpu.load_and_run(vec![
        0xA9, 0x12, 0xA8, 0x8C, 0x00, 0x02, 0xA2, 0x34, 0x86, 0x21, 0x9A, 0xBA, 0x00,
    ]);
    assert_eq!(cpu.m_read(0x0200), 0x12);
    assert_eq!(cpu.m_read(0x0021), 0x34);
    assert_eq!(cpu.stack_pointer, 0x34);
    assert_eq!(cpu.register_x, 0x34);
}

#[test]
fn opcode_table_lookup() {
    let lda = decode(0xA9).unwrap();
    assert_eq!(lda.instruction, Instruction::Lda);
    assert_eq!(lda.mode, AddressingMode::Immediate);
    assert_eq!(lda.bytes, 2);
    let jmp = decode(0x6C).unwrap();
    assert_eq!(jmp.mode, AddressingMode::Indirect);
    assert_eq!(jmp.bytes, 3);
    assert!(decode(0x02).is_none());
}
