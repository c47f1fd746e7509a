use vstd::prelude::*;

verus! {

/// How an instruction computes the address of its operand.
#[derive(Clone, Copy, Debug, PartialEq, Eq, Structural)]
pub enum AddressingMode {
    Accumulator,
    Immediate,
    ZeroPage,
    ZeroPageX,
    ZeroPageY,
    Absolute,
    AbsoluteX,
    AbsoluteY,
    IndirectX,
    IndirectY,
    Indirect,
    NoneAddressing,
}

/// The instructions that the processor executes, by mnemonic.
#[derive(Clone, Copy, Debug, PartialEq, Eq, Structural)]
pub enum Instruction {
    Adc,
    Anc,
    And,
    Asl,
    Bcc,
    Bcs,
    Beq,
    Bit,
    Bmi,
    Bne,
    Bpl,
    Brk,
    Bvc,
    Bvs,
    Clc,
    Cld,
    Cli,
    Clv,
    Cmp,
    Cpx,
    Cpy,
    Dec,
    Dex,
    Dey,
    Eor,
    Inc,
    Inx,
    Iny,
    Jmp,
    Jsr,
    Lda,
    Ldx,
    Ldy,
    Lsr,
    Nop,
    Ora,
    Pha,
    Php,
    Pla,
    Plp,
    Rol,
    Ror,
    Rti,
    Rts,
    Sbc,
    Sec,
    Sed,
    Sei,
    Sta,
    Stx,
    Sty,
    Tax,
    Tay,
    Tsx,
    Txa,
    Txs,
    Tya,
}

/// One entry of the opcode table.
#[derive(Clone, Copy, Debug, PartialEq, Eq, Structural)]
pub struct Opcode {
    pub code: u8,
    pub instruction: Instruction,
    pub mode: AddressingMode,
    /// Length of the instruction in bytes, the opcode byte included.
    pub bytes: u8,
}

/// Whether `mode` computes an operand address.
pub open spec fn has_operand_address(mode: AddressingMode) -> bool {
    match mode {
        AddressingMode::Accumulator | AddressingMode::Indirect | AddressingMode::NoneAddressing => false,
        _ => true,
    }
}

/// Whether an instruction may be used with `mode`.
pub open spec fn mode_fits(instruction: Instruction, mode: AddressingMode) -> bool {
    match instruction {
        Instruction::Adc | Instruction::And | Instruction::Bit | Instruction::Cmp
        | Instruction::Cpx | Instruction::Cpy | Instruction::Dec | Instruction::Eor
        | Instruction::Inc | Instruction::Lda | Instruction::Ldx | Instruction::Ldy
        | Instruction::Ora | Instruction::Sbc | Instruction::Sta | Instruction::Stx
        | Instruction::Sty | Instruction::Anc => has_operand_address(mode),
        Instruction::Asl | Instruction::Lsr | Instruction::Rol | Instruction::Ror => mode
            == AddressingMode::Accumulator || has_operand_address(mode),
        Instruction::Jmp => mode == AddressingMode::Absolute || mode == AddressingMode::Indirect,
        _ => true,
    }
}

pub open spec fn op(code: u8, instruction: Instruction, mode: AddressingMode, bytes: u8) -> Opcode {
    Opcode { code, instruction, mode, bytes }
}

/// The opcode table: the descriptor of each opcode byte that has one.
#[verifier::opaque]
pub open spec fn opcode_of(code: u8) -> Option<Opcode> {
    match code {
        0x00 => Some(op(0x00, Instruction::Brk, AddressingMode::NoneAddressing, 1)),
        0x01 => Some(op(0x01, Instruction::Ora, AddressingMode::IndirectX, 2)),
        0x05 => Some(op(0x05, Instruction::Ora, AddressingMode::ZeroPage, 2)),
        0x06 => Some(op(0x06, Instruction::Asl, AddressingMode::ZeroPage, 2)),
        0x08 => Some(op(0x08, Instruction::Php, AddressingMode::NoneAddressing, 1)),
        0x09 => Some(op(0x09, Instruction::Ora, AddressingMode::Immediate, 2)),
        0x0A => Some(op(0x0A, Instruction::Asl, AddressingMode::Accumulator, 1)),
        0x0B => Some(op(0x0B, Instruction::Anc, AddressingMode::Immediate, 2)),
        0x0D => Some(op(0x0D, Instruction::Ora, AddressingMode::Absolute, 3)),
        0x0E => Some(op(0x0E, Instruction::Asl, AddressingMode::Absolute, 3)),
        0x10 => Some(op(0x10, Instruction::Bpl, AddressingMode::NoneAddressing, 2)),
        0x11 => Some(op(0x11, Instruction::Ora, AddressingMode::IndirectY, 2)),
        0x15 => Some(op(0x15, Instruction::Ora, AddressingMode::ZeroPageX, 2)),
        0x16 => Some(op(0x16, Instruction::Asl, AddressingMode::ZeroPageX, 2)),
        0x18 => Some(op(0x18, Instruction::Clc, AddressingMode::NoneAddressing, 1)),
        0x19 => Some(op(0x19, Instruction::Ora, AddressingMode::AbsoluteY, 3)),
        0x1D => Some(op(0x1D, Instruction::Ora, AddressingMode::AbsoluteX, 3)),
        0x1E => Some(op(0x1E, Instruction::Asl, AddressingMode::AbsoluteX, 3)),
        0x20 => Some(op(0x20, Instruction::Jsr, AddressingMode::Absolute, 3)),
        0x21 => Some(op(0x21, Instruction::And, AddressingMode::IndirectX, 2)),
        0x24 => Some(op(0x24, Instruction::Bit, AddressingMode::ZeroPage, 2)),
        0x25 => Some(op(0x25, Instruction::And, AddressingMode::ZeroPage, 2)),
        0x26 => Some(op(0x26, Instruction::Rol, AddressingMode::ZeroPage, 2)),
        0x28 => Some(op(0x28, Instruction::Plp, AddressingMode::NoneAddressing, 1)),
        0x29 => Some(op(0x29, Instruction::And, AddressingMode::Immediate, 2)),
        0x2A => Some(op(0x2A, Instruction::Rol, AddressingMode::Accumulator, 1)),
        0x2B => Some(op(0x2B, Instruction::Anc, AddressingMode::Immediate, 2)),
        0x2C => Some(op(0x2C, Instruction::Bit, AddressingMode::Absolute, 3)),
        0x2D => Some(op(0x2D, Instruction::And, AddressingMode::Absolute, 3)),
        0x2E => Some(op(0x2E, Instruction::Rol, AddressingMode::Absolute, 3)),
        0x30 => Some(op(0x30, Instruction::Bmi, AddressingMode::NoneAddressing, 2)),
        0x31 => Some(op(0x31, Instruction::And, AddressingMode::IndirectY, 2)),
        0x35 => Some(op(0x35, Instruction::And, AddressingMode::ZeroPageX, 2)),
        0x36 => Some(op(0x36, Instruction::Rol, AddressingMode::ZeroPageX, 2)),
        0x38 => Some(op(0x38, Instruction::Sec, AddressingMode::NoneAddressing, 1)),
        0x39 => Some(op(0x39, Instruction::And, AddressingMode::AbsoluteY, 3)),
        0x3D => Some(op(0x3D, Instruction::And, AddressingMode::AbsoluteX, 3)),
        0x3E => Some(op(0x3E, Instruction::Rol, AddressingMode::AbsoluteX, 3)),
        0x40 => Some(op(0x40, Instruction::Rti, AddressingMode::NoneAddressing, 1)),
        0x41 => Some(op(0x41, Instruction::Eor, AddressingMode::IndirectX, 2)),
        0x45 => Some(op(0x45, Instruction::Eor, AddressingMode::ZeroPage, 2)),
        0x46 => Some(op(0x46, Instruction::Lsr, AddressingMode::ZeroPage, 2)),
        0x48 => Some(op(0x48, Instruction::Pha, AddressingMode::NoneAddressing, 1)),
        0x49 => Some(op(0x49, Instruction::Eor, AddressingMode::Immediate, 2)),
        0x4A => Some(op(0x4A, Instruction::Lsr, AddressingMode::Accumulator, 1)),
        0x4C => Some(op(0x4C, Instruction::Jmp, AddressingMode::Absolute, 3)),
        0x4D => Some(op(0x4D, Instruction::Eor, AddressingMode::Absolute, 3)),
        0x4E => Some(op(0x4E, Instruction::Lsr, AddressingMode::Absolute, 3)),
        0x50 => Some(op(0x50, Instruction::Bvc, AddressingMode::NoneAddressing, 2)),
        0x51 => Some(op(0x51, Instruction::Eor, AddressingMode::IndirectY, 2)),
        0x55 => Some(op(0x55, Instruction::Eor, AddressingMode::ZeroPageX, 2)),
        0x56 => Some(op(0x56, Instruction::Lsr, AddressingMode::ZeroPageX, 2)),
        0x58 => Some(op(0x58, Instruction::Cli, AddressingMode::NoneAddressing, 1)),
        0x59 => Some(op(0x59, Instruction::Eor, AddressingMode::AbsoluteY, 3)),
        0x5D => Some(op(0x5D, Instruction::Eor, AddressingMode::AbsoluteX, 3)),
        0x5E => Some(op(0x5E, Instruction::Lsr, AddressingMode::AbsoluteX, 3)),
        0x60 => Some(op(0x60, Instruction::Rts, AddressingMode::NoneAddressing, 1)),
        0x61 => Some(op(0x61, Instruction::Adc, AddressingMode::IndirectX, 2)),
        0x65 => Some(op(0x65, Instruction::Adc, AddressingMode::ZeroPage, 2)),
        0x66 => Some(op(0x66, Instruction::Ror, AddressingMode::ZeroPage, 2)),
        0x68 => Some(op(0x68, Instruction::Pla, AddressingMode::NoneAddressing, 1)),
        0x69 => Some(op(0x69, Instruction::Adc, AddressingMode::Immediate, 2)),
        0x6A => Some(op(0x6A, Instruction::Ror, AddressingMode::Accumulator, 1)),
        0x6C => Some(op(0x6C, Instruction::Jmp, AddressingMode::Indirect, 3)),
        0x6D => Some(op(0x6D, Instruction::Adc, AddressingMode::Absolute, 3)),
        0x6E => Some(op(0x6E, Instruction::Ror, AddressingMode::Absolute, 3)),
        0x70 => Some(op(0x70, Instruction::Bvs, AddressingMode::NoneAddressing, 2)),
        0x71 => Some(op(0x71, Instruction::Adc, AddressingMode::IndirectY, 2)),
        0x75 => Some(op(0x75, Instruction::Adc, AddressingMode::ZeroPageX, 2)),
        0x76 => Some(op(0x76, Instruction::Ror, AddressingMode::ZeroPageX, 2)),
        0x78 => Some(op(0x78, Instruction::Sei, AddressingMode::NoneAddressing, 1)),
        0x79 => Some(op(0x79, Instruction::Adc, AddressingMode::AbsoluteY, 3)),
        0x7D => Some(op(0x7D, Instruction::Adc, AddressingMode::AbsoluteX, 3)),
        0x7E => Some(op(0x7E, Instruction::Ror, AddressingMode::AbsoluteX, 3)),
        0x81 => Some(op(0x81, Instruction::Sta, AddressingMode::IndirectX, 2)),
        0x84 => Some(op(0x84, Instruction::Sty, AddressingMode::ZeroPage, 2)),
        0x85 => Some(op(0x85, Instruction::Sta, AddressingMode::ZeroPage, 2)),
        0x86 => Some(op(0x86, Instruction::Stx, AddressingMode::ZeroPage, 2)),
        0x88 => Some(op(0x88, Instruction::Dey, AddressingMode::NoneAddressing, 1)),
        0x8A => Some(op(0x8A, Instruction::Txa, AddressingMode::NoneAddressing, 1)),
        0x8C => Some(op(0x8C, Instruction::Sty, AddressingMode::Absolute, 3)),
        0x8D => Some(op(0x8D, Instruction::Sta, AddressingMode::Absolute, 3)),
        0x8E => Some(op(0x8E, Instruction::Stx, AddressingMode::Absolute, 3)),
        0x90 => Some(op(0x90, Instruction::Bcc, AddressingMode::NoneAddressing, 2)),
        0x91 => Some(op(0x91, Instruction::Sta, AddressingMode::IndirectY, 2)),
        0x94 => Some(op(0x94, Instruction::Sty, AddressingMode::ZeroPageX, 2)),
        0x95 => Some(op(0x95, Instruction::Sta, AddressingMode::ZeroPageX, 2)),
        0x96 => Some(op(0x96, Instruction::Stx, AddressingMode::ZeroPageY, 2)),
        0x98 => Some(op(0x98, Instruction::Tya, AddressingMode::NoneAddressing, 1)),
        0x99 => Some(op(0x99, Instruction::Sta, AddressingMode::AbsoluteY, 3)),
        0x9A => Some(op(0x9A, Instruction::Txs, AddressingMode::NoneAddressing, 1)),
        0x9D => Some(op(0x9D, Instruction::Sta, AddressingMode::AbsoluteX, 3)),
        0xA0 => Some(op(0xA0, Instruction::Ldy, AddressingMode::Immediate, 2)),
        0xA1 => Some(op(0xA1, Instruction::Lda, AddressingMode::IndirectX, 2)),
        0xA2 => Some(op(0xA2, Instruction::Ldx, AddressingMode::Immediate, 2)),
        0xA4 => Some(op(0xA4, Instruction::Ldy, AddressingMode::ZeroPage, 2)),
        0xA5 => Some(op(0xA5, Instruction::Lda, AddressingMode::ZeroPage, 2)),
        0xA6 => Some(op(0xA6, Instruction::Ldx, AddressingMode::ZeroPage, 2)),
        0xA8 => Some(op(0xA8, Instruction::Tay, AddressingMode::NoneAddressing, 1)),
        0xA9 => Some(op(0xA9, Instruction::Lda, AddressingMode::Immediate, 2)),
        0xAA => Some(op(0xAA, Instruction::Tax, AddressingMode::NoneAddressing, 1)),
        0xAC => Some(op(0xAC, Instruction::Ldy, AddressingMode::Absolute, 3)),
        0xAD => Some(op(0xAD, Instruction::Lda, AddressingMode::Absolute, 3)),
        0xAE => Some(op(0xAE, Instruction::Ldx, AddressingMode::Absolute, 3)),
        0xB0 => Some(op(0xB0, Instruction::Bcs, AddressingMode::NoneAddressing, 2)),
        0xB1 => Some(op(0xB1, Instruction::Lda, AddressingMode::IndirectY, 2)),
        0xB4 => Some(op(0xB4, Instruction::Ldy, AddressingMode::ZeroPageX, 2)),
        0xB5 => Some(op(0xB5, Instruction::Lda, AddressingMode::ZeroPageX, 2)),
        0xB6 => Some(op(0xB6, Instruction::Ldx, AddressingMode::ZeroPageY, 2)),
        0xB8 => Some(op(0xB8, Instruction::Clv, AddressingMode::NoneAddressing, 1)),
        0xB9 => Some(op(0xB9, Instruction::Lda, AddressingMode::AbsoluteY, 3)),
        0xBA => Some(op(0xBA, Instruction::Tsx, AddressingMode::NoneAddressing, 1)),
        0xBC => Some(op(0xBC, Instruction::Ldy, AddressingMode::AbsoluteX, 3)),
        0xBD => Some(op(0xBD, Instruction::Lda, AddressingMode::AbsoluteX, 3)),
        0xBE => Some(op(0xBE, Instruction::Ldx, AddressingMode::AbsoluteY, 3)),
        0xC0 => Some(op(0xC0, Instruction::Cpy, AddressingMode::Immediate, 2)),
        0xC1 => Some(op(0xC1, Instruction::Cmp, AddressingMode::IndirectX, 2)),
        0xC4 => Some(op(0xC4, Instruction::Cpy, AddressingMode::ZeroPage, 2)),
        0xC5 => Some(op(0xC5, Instruction::Cmp, AddressingMode::ZeroPage, 2)),
        0xC6 => Some(op(0xC6, Instruction::Dec, AddressingMode::ZeroPage, 2)),
        0xC8 => Some(op(0xC8, Instruction::Iny, AddressingMode::NoneAddressing, 1)),
        0xC9 => Some(op(0xC9, Instruction::Cmp, AddressingMode::Immediate, 2)),
        0xCA => Some(op(0xCA, Instruction::Dex, AddressingMode::NoneAddressing, 1)),
        0xCC => Some(op(0xCC, Instruction::Cpy, AddressingMode::Absolute, 3)),
        0xCD => Some(op(0xCD, Instruction::Cmp, AddressingMode::Absolute, 3)),
        0xCE => Some(op(0xCE, Instruction::Dec, AddressingMode::Absolute, 3)),
        0xD0 => Some(op(0xD0, Instruction::Bne, AddressingMode::NoneAddressing, 2)),
        0xD1 => Some(op(0xD1, Instruction::Cmp, AddressingMode::IndirectY, 2)),
        0xD5 => Some(op(0xD5, Instruction::Cmp, AddressingMode::ZeroPageX, 2)),
        0xD6 => Some(op(0xD6, Instruction::Dec, AddressingMode::ZeroPageX, 2)),
        0xD8 => Some(op(0xD8, Instruction::Cld, AddressingMode::NoneAddressing, 1)),
        0xD9 => Some(op(0xD9, Instruction::Cmp, AddressingMode::AbsoluteY, 3)),
        0xDD => Some(op(0xDD, Instruction::Cmp, AddressingMode::AbsoluteX, 3)),
        0xDE => Some(op(0xDE, Instruction::Dec, AddressingMode::AbsoluteX, 3)),
        0xE0 => Some(op(0xE0, Instruction::Cpx, AddressingMode::Immediate, 2)),
        0xE1 => Some(op(0xE1, Instruction::Sbc, AddressingMode::IndirectX, 2)),
        0xE4 => Some(op(0xE4, Instruction::Cpx, AddressingMode::ZeroPage, 2)),
        0xE5 => Some(op(0xE5, Instruction::Sbc, AddressingMode::ZeroPage, 2)),
        0xE6 => Some(op(0xE6, Instruction::Inc, AddressingMode::ZeroPage, 2)),
        0xE8 => Some(op(0xE8, Instruction::Inx, AddressingMode::NoneAddressing, 1)),
        0xE9 => Some(op(0xE9, Instruction::Sbc, AddressingMode::Immediate, 2)),
        0xEA => Some(op(0xEA, Instruction::Nop, AddressingMode::NoneAddressing, 1)),
        0xEC => Some(op(0xEC, Instruction::Cpx, AddressingMode::Absolute, 3)),
        0xED => Some(op(0xED, Instruction::Sbc, AddressingMode::Absolute, 3)),
        0xEE => Some(op(0xEE, Instruction::Inc, AddressingMode::Absolute, 3)),
        0xF0 => Some(op(0xF0, Instruction::Beq, AddressingMode::NoneAddressing, 2)),
        0xF1 => Some(op(0xF1, Instruction::Sbc, AddressingMode::IndirectY, 2)),
        0xF5 => Some(op(0xF5, Instruction::Sbc, AddressingMode::ZeroPageX, 2)),
        0xF6 => Some(op(0xF6, Instruction::Inc, AddressingMode::ZeroPageX, 2)),
        0xF8 => Some(op(0xF8, Instruction::Sed, AddressingMode::NoneAddressing, 1)),
        0xF9 => Some(op(0xF9, Instruction::Sbc, AddressingMode::AbsoluteY, 3)),
        0xFD => Some(op(0xFD, Instruction::Sbc, AddressingMode::AbsoluteX, 3)),
        0xFE => Some(op(0xFE, Instruction::Inc, AddressingMode::AbsoluteX, 3)),
        _ => None,
    }
}

fn make(code: u8, instruction: Instruction, mode: AddressingMode, bytes: u8) -> (r: Opcode)
    ensures
        r == op(code, instruction, mode, bytes),
{
    Opcode { code, instruction, mode, bytes }
}

/// Looks an opcode byte up in the opcode table.
pub fn decode(code: u8) -> (r: Option<Opcode>)
    ensures
        r == opcode_of(code),
        r matches Some(o) ==> o.code == code && 1 <= o.bytes <= 3 && mode_fits(o.instruction, o.mode),
{
    proof {
        reveal(opcode_of);
    }
    match code {
        0x00 => Some(make(0x00, Instruction::Brk, AddressingMode::NoneAddressing, 1)),
        0x01 => Some(make(0x01, Instruction::Ora, AddressingMode::IndirectX, 2)),
        0x05 => Some(make(0x05, Instruction::Ora, AddressingMode::ZeroPage, 2)),
        0x06 => Some(make(0x06, Instruction::Asl, AddressingMode::ZeroPage, 2)),
        0x08 => Some(make(0x08, Instruction::Php, AddressingMode::NoneAddressing, 1)),
        0x09 => Some(make(0x09, Instruction::Ora, AddressingMode::Immediate, 2)),
        0x0A => Some(make(0x0A, Instruction::Asl, AddressingMode::Accumulator, 1)),
        0x0B => Some(make(0x0B, Instruction::Anc, AddressingMode::Immediate, 2)),
        0x0D => Some(make(0x0D, Instruction::Ora, AddressingMode::Absolute, 3)),
        0x0E => Some(make(0x0E, Instruction::Asl, AddressingMode::Absolute, 3)),
        0x10 => Some(make(0x10, Instruction::Bpl, AddressingMode::NoneAddressing, 2)),
        0x11 => Some(make(0x11, Instruction::Ora, AddressingMode::IndirectY, 2)),
        0x15 => Some(make(0x15, Instruction::Ora, AddressingMode::ZeroPageX, 2)),
        0x16 => Some(make(0x16, Instruction::Asl, AddressingMode::ZeroPageX, 2)),
        0x18 => Some(make(0x18, Instruction::Clc, AddressingMode::NoneAddressing, 1)),
        0x19 => Some(make(0x19, Instruction::Ora, AddressingMode::AbsoluteY, 3)),
        0x1D => Some(make(0x1D, Instruction::Ora, AddressingMode::AbsoluteX, 3)),
        0x1E => Some(make(0x1E, Instruction::Asl, AddressingMode::AbsoluteX, 3)),
        0x20 => Some(make(0x20, Instruction::Jsr, AddressingMode::Absolute, 3)),
        0x21 => Some(make(0x21, Instruction::And, AddressingMode::IndirectX, 2)),
        0x24 => Some(make(0x24, Instruction::Bit, AddressingMode::ZeroPage, 2)),
        0x25 => Some(make(0x25, Instruction::And, AddressingMode::ZeroPage, 2)),
        0x26 => Some(make(0x26, Instruction::Rol, AddressingMode::ZeroPage, 2)),
        0x28 => Some(make(0x28, Instruction::Plp, AddressingMode::NoneAddressing, 1)),
        0x29 => Some(make(0x29, Instruction::And, AddressingMode::Immediate, 2)),
        0x2A => Some(make(0x2A, Instruction::Rol, AddressingMode::Accumulator, 1)),
        0x2B => Some(make(0x2B, Instruction::Anc, AddressingMode::Immediate, 2)),
        0x2C => Some(make(0x2C, Instruction::Bit, AddressingMode::Absolute, 3)),
        0x2D => Some(make(0x2D, Instruction::And, AddressingMode::Absolute, 3)),
        0x2E => Some(make(0x2E, Instruction::Rol, AddressingMode::Absolute, 3)),
        0x30 => Some(make(0x30, Instruction::Bmi, AddressingMode::NoneAddressing, 2)),
        0x31 => Some(make(0x31, Instruction::And, AddressingMode::IndirectY, 2)),
        0x35 => Some(make(0x35, Instruction::And, AddressingMode::ZeroPageX, 2)),
        0x36 => Some(make(0x36, Instruction::Rol, AddressingMode::ZeroPageX, 2)),
        0x38 => Some(make(0x38, Instruction::Sec, AddressingMode::NoneAddressing, 1)),
        0x39 => Some(make(0x39, Instruction::And, AddressingMode::AbsoluteY, 3)),
        0x3D => Some(make(0x3D, Instruction::And, AddressingMode::AbsoluteX, 3)),
        0x3E => Some(make(0x3E, Instruction::Rol, AddressingMode::AbsoluteX, 3)),
        0x40 => Some(make(0x40, Instruction::Rti, AddressingMode::NoneAddressing, 1)),
        0x41 => Some(make(0x41, Instruction::Eor, AddressingMode::IndirectX, 2)),
        0x45 => Some(make(0x45, Instruction::Eor, AddressingMode::ZeroPage, 2)),
        0x46 => Some(make(0x46, Instruction::Lsr, AddressingMode::ZeroPage, 2)),
        0x48 => Some(make(0x48, Instruction::Pha, AddressingMode::NoneAddressing, 1)),
        0x49 => Some(make(0x49, Instruction::Eor, AddressingMode::Immediate, 2)),
        0x4A => Some(make(0x4A, Instruction::Lsr, AddressingMode::Accumulator, 1)),
        0x4C => Some(make(0x4C, Instruction::Jmp, AddressingMode::Absolute, 3)),
        0x4D => Some(make(0x4D, Instruction::Eor, AddressingMode::Absolute, 3)),
        0x4E => Some(make(0x4E, Instruction::Lsr, AddressingMode::Absolute, 3)),
        0x50 => Some(make(0x50, Instruction::Bvc, AddressingMode::NoneAddressing, 2)),
        0x51 => Some(make(0x51, Instruction::Eor, AddressingMode::IndirectY, 2)),
        0x55 => Some(make(0x55, Instruction::Eor, AddressingMode::ZeroPageX, 2)),
        0x56 => Some(make(0x56, Instruction::Lsr, AddressingMode::ZeroPageX, 2)),
        0x58 => Some(make(0x58, Instruction::Cli, AddressingMode::NoneAddressing, 1)),
        0x59 => Some(make(0x59, Instruction::Eor, AddressingMode::AbsoluteY, 3)),
        0x5D => Some(make(0x5D, Instruction::Eor, AddressingMode::AbsoluteX, 3)),
        0x5E => Some(make(0x5E, Instruction::Lsr, AddressingMode::AbsoluteX, 3)),
        0x60 => Some(make(0x60, Instruction::Rts, AddressingMode::NoneAddressing, 1)),
        0x61 => Some(make(0x61, Instruction::Adc, AddressingMode::IndirectX, 2)),
        0x65 => Some(make(0x65, Instruction::Adc, AddressingMode::ZeroPage, 2)),
        0x66 => Some(make(0x66, Instruction::Ror, AddressingMode::ZeroPage, 2)),
        0x68 => Some(make(0x68, Instruction::Pla, AddressingMode::NoneAddressing, 1)),
        0x69 => Some(make(0x69, Instruction::Adc, AddressingMode::Immediate, 2)),
        0x6A => Some(make(0x6A, Instruction::Ror, AddressingMode::Accumulator, 1)),
        0x6C => Some(make(0x6C, Instruction::Jmp, AddressingMode::Indirect, 3)),
        0x6D => Some(make(0x6D, Instruction::Adc, AddressingMode::Absolute, 3)),
        0x6E => Some(make(0x6E, Instruction::Ror, AddressingMode::Absolute, 3)),
        0x70 => Some(make(0x70, Instruction::Bvs, AddressingMode::NoneAddressing, 2)),
        0x71 => Some(make(0x71, Instruction::Adc, AddressingMode::IndirectY, 2)),
        0x75 => Some(make(0x75, Instruction::Adc, AddressingMode::ZeroPageX, 2)),
        0x76 => Some(make(0x76, Instruction::Ror, AddressingMode::ZeroPageX, 2)),
        0x78 => Some(make(0x78, Instruction::Sei, AddressingMode::NoneAddressing, 1)),
        0x79 => Some(make(0x79, Instruction::Adc, AddressingMode::AbsoluteY, 3)),
        0x7D => Some(make(0x7D, Instruction::Adc, AddressingMode::AbsoluteX, 3)),
        0x7E => Some(make(0x7E, Instruction::Ror, AddressingMode::AbsoluteX, 3)),
        0x81 => Some(make(0x81, Instruction::Sta, AddressingMode::IndirectX, 2)),
        0x84 => Some(make(0x84, Instruction::Sty, AddressingMode::ZeroPage, 2)),
        0x85 => Some(make(0x85, Instruction::Sta, AddressingMode::ZeroPage, 2)),
        0x86 => Some(make(0x86, Instruction::Stx, AddressingMode::ZeroPage, 2)),
        0x88 => Some(make(0x88, Instruction::Dey, AddressingMode::NoneAddressing, 1)),
        0x8A => Some(make(0x8A, Instruction::Txa, AddressingMode::NoneAddressing, 1)),
        0x8C => Some(make(0x8C, Instruction::Sty, AddressingMode::Absolute, 3)),
        0x8D => Some(make(0x8D, Instruction::Sta, AddressingMode::Absolute, 3)),
        0x8E => Some(make(0x8E, Instruction::Stx, AddressingMode::Absolute, 3)),
        0x90 => Some(make(0x90, Instruction::Bcc, AddressingMode::NoneAddressing, 2)),
        0x91 => Some(make(0x91, Instruction::Sta, AddressingMode::IndirectY, 2)),
        0x94 => Some(make(0x94, Instruction::Sty, AddressingMode::ZeroPageX, 2)),
        0x95 => Some(make(0x95, Instruction::Sta, AddressingMode::ZeroPageX, 2)),
        0x96 => Some(make(0x96, Instruction::Stx, AddressingMode::ZeroPageY, 2)),
        0x98 => Some(make(0x98, Instruction::Tya, AddressingMode::NoneAddressing, 1)),
        0x99 => Some(make(0x99, Instruction::Sta, AddressingMode::AbsoluteY, 3)),
        0x9A => Some(make(0x9A, Instruction::Txs, AddressingMode::NoneAddressing, 1)),
        0x9D => Some(make(0x9D, Instruction::Sta, AddressingMode::AbsoluteX, 3)),
        0xA0 => Some(make(0xA0, Instruction::Ldy, AddressingMode::Immediate, 2)),
        0xA1 => Some(make(0xA1, Instruction::Lda, AddressingMode::IndirectX, 2)),
        0xA2 => Some(make(0xA2, Instruction::Ldx, AddressingMode::Immediate, 2)),
        0xA4 => Some(make(0xA4, Instruction::Ldy, AddressingMode::ZeroPage, 2)),
        0xA5 => Some(make(0xA5, Instruction::Lda, AddressingMode::ZeroPage, 2)),
        0xA6 => Some(make(0xA6, Instruction::Ldx, AddressingMode::ZeroPage, 2)),
        0xA8 => Some(make(0xA8, Instruction::Tay, AddressingMode::NoneAddressing, 1)),
        0xA9 => Some(make(0xA9, Instruction::Lda, AddressingMode::Immediate, 2)),
        0xAA => Some(make(0xAA, Instruction::Tax, AddressingMode::NoneAddressing, 1)),
        0xAC => Some(make(0xAC, Instruction::Ldy, AddressingMode::Absolute, 3)),
        0xAD => Some(make(0xAD, Instruction::Lda, AddressingMode::Absolute, 3)),
        0xAE => Some(make(0xAE, Instruction::Ldx, AddressingMode::Absolute, 3)),
        0xB0 => Some(make(0xB0, Instruction::Bcs, AddressingMode::NoneAddressing, 2)),
        0xB1 => Some(make(0xB1, Instruction::Lda, AddressingMode::IndirectY, 2)),
        0xB4 => Some(make(0xB4, Instruction::Ldy, AddressingMode::ZeroPageX, 2)),
        0xB5 => Some(make(0xB5, Instruction::Lda, AddressingMode::ZeroPageX, 2)),
        0xB6 => Some(make(0xB6, Instruction::Ldx, AddressingMode::ZeroPageY, 2)),
        0xB8 => Some(make(0xB8, Instruction::Clv, AddressingMode::NoneAddressing, 1)),
        0xB9 => Some(make(0xB9, Instruction::Lda, AddressingMode::AbsoluteY, 3)),
        0xBA => Some(make(0xBA, Instruction::Tsx, AddressingMode::NoneAddressing, 1)),
        0xBC => Some(make(0xBC, Instruction::Ldy, AddressingMode::AbsoluteX, 3)),
        0xBD => Some(make(0xBD, Instruction::Lda, AddressingMode::AbsoluteX, 3)),
        0xBE => Some(make(0xBE, Instruction::Ldx, AddressingMode::AbsoluteY, 3)),
        0xC0 => Some(make(0xC0, Instruction::Cpy, AddressingMode::Immediate, 2)),
        0xC1 => Some(make(0xC1, Instruction::Cmp, AddressingMode::IndirectX, 2)),
        0xC4 => Some(make(0xC4, Instruction::Cpy, AddressingMode::ZeroPage, 2)),
        0xC5 => Some(make(0xC5, Instruction::Cmp, AddressingMode::ZeroPage, 2)),
        0xC6 => Some(make(0xC6, Instruction::Dec, AddressingMode::ZeroPage, 2)),
        0xC8 => Some(make(0xC8, Instruction::Iny, AddressingMode::NoneAddressing, 1)),
        0xC9 => Some(make(0xC9, Instruction::Cmp, AddressingMode::Immediate, 2)),
        0xCA => Some(make(0xCA, Instruction::Dex, AddressingMode::NoneAddressing, 1)),
        0xCC => Some(make(0xCC, Instruction::Cpy, AddressingMode::Absolute, 3)),
        0xCD => Some(make(0xCD, Instruction::Cmp, AddressingMode::Absolute, 3)),
        0xCE => Some(make(0xCE, Instruction::Dec, AddressingMode::Absolute, 3)),
        0xD0 => Some(make(0xD0, Instruction::Bne, AddressingMode::NoneAddressing, 2)),
        0xD1 => Some(make(0xD1, Instruction::Cmp, AddressingMode::IndirectY, 2)),
        0xD5 => Some(make(0xD5, Instruction::Cmp, AddressingMode::ZeroPageX, 2)),
        0xD6 => Some(make(0xD6, Instruction::Dec, AddressingMode::ZeroPageX, 2)),
        0xD8 => Some(make(0xD8, Instruction::Cld, AddressingMode::NoneAddressing, 1)),
        0xD9 => Some(make(0xD9, Instruction::Cmp, AddressingMode::AbsoluteY, 3)),
        0xDD => Some(make(0xDD, Instruction::Cmp, AddressingMode::AbsoluteX, 3)),
        0xDE => Some(make(0xDE, Instruction::Dec, AddressingMode::AbsoluteX, 3)),
        0xE0 => Some(make(0xE0, Instruction::Cpx, AddressingMode::Immediate, 2)),
        0xE1 => Some(make(0xE1, Instruction::Sbc, AddressingMode::IndirectX, 2)),
        0xE4 => Some(make(0xE4, Instruction::Cpx, AddressingMode::ZeroPage, 2)),
        0xE5 => Some(make(0xE5, Instruction::Sbc, AddressingMode::ZeroPage, 2)),
        0xE6 => Some(make(0xE6, Instruction::Inc, AddressingMode::ZeroPage, 2)),
        0xE8 => Some(make(0xE8, Instruction::Inx, AddressingMode::NoneAddressing, 1)),
        0xE9 => Some(make(0xE9, Instruction::Sbc, AddressingMode::Immediate, 2)),
        0xEA => Some(make(0xEA, Instruction::Nop, AddressingMode::NoneAddressing, 1)),
        0xEC => Some(make(0xEC, Instruction::Cpx, AddressingMode::Absolute, 3)),
        0xED => Some(make(0xED, Instruction::Sbc, AddressingMode::Absolute, 3)),
        0xEE => Some(make(0xEE, Instruction::Inc, AddressingMode::Absolute, 3)),
        0xF0 => Some(make(0xF0, Instruction::Beq, AddressingMode::NoneAddressing, 2)),
        0xF1 => Some(make(0xF1, Instruction::Sbc, AddressingMode::IndirectY, 2)),
        0xF5 => Some(make(0xF5, Instruction::Sbc, AddressingMode::ZeroPageX, 2)),
        0xF6 => Some(make(0xF6, Instruction::Inc, AddressingMode::ZeroPageX, 2)),
        0xF8 => Some(make(0xF8, Instruction::Sed, AddressingMode::NoneAddressing, 1)),
        0xF9 => Some(make(0xF9, Instruction::Sbc, AddressingMode::AbsoluteY, 3)),
        0xFD => Some(make(0xFD, Instruction::Sbc, AddressingMode::AbsoluteX, 3)),
        0xFE => Some(make(0xFE, Instruction::Inc, AddressingMode::AbsoluteX, 3)),
        _ => None,
    }
}

} // verus!
