use vstd::prelude::*;
use crate::bus::{BusView, PRG_ROM_START, RAM_MIRRORS_END};
use crate::bytes::{has_flag, le16};
use crate::flags::{with_flag, BREAK, BREAK2, CARRY, NEGATIVE, OVERFLOW, ZERO};
use crate::opcodes::{opcode_of, AddressingMode, Instruction};

verus! {

pub const STACK_OFFSET: u16 = 0x0100;
pub const STACK_RESET: u8 = 0xFD;
/// Interrupt-disable and the unused bit set.
pub const STATUS_RESET: u8 = 0b0010_0100;
pub const RESET_VECTOR: u16 = 0xFFFC;

/// The abstract state of the processor and its address space.
pub struct CpuView {
    pub a: u8,
    pub x: u8,
    pub y: u8,
    pub sp: u8,
    pub pc: u16,
    pub p: u8,
    pub bus: BusView,
}

/// Why the fetch-decode-execute loop stopped.
#[derive(Clone, Copy, Debug, PartialEq, Eq, Structural)]
pub enum Halt {
    /// The break opcode was fetched.
    Break,
    /// A byte with no entry in the opcode table was fetched.
    UnknownOpcode(u8),
    /// An instruction tried to store into program memory; the store did not
    /// happen.
    ProgramMemoryWrite(u16),
    /// The loop ran the number of instructions it was allowed.
    StepLimit,
}

/// The read-modify-write operations on a single byte.
#[derive(Clone, Copy, Debug, PartialEq, Eq, Structural)]
pub enum Rmw {
    Asl,
    Lsr,
    Rol,
    Ror,
    Inc,
    Dec,
}

/// The new byte of a read-modify-write on `d`, given the Carry flag.
pub open spec fn rmw_result(op: Rmw, d: u8, carry: bool) -> u8 {
    match op {
        Rmw::Asl => d << 1,
        Rmw::Lsr => d >> 1,
        Rmw::Rol => if carry {
            (d << 1) | 1
        } else {
            d << 1
        },
        Rmw::Ror => if carry {
            (d >> 1) | 0x80
        } else {
            d >> 1
        },
        Rmw::Inc => wrap8(d + 1),
        Rmw::Dec => wrap8(d + 0xFF),
    }
}

/// The status byte after a read-modify-write on `d`: shifts and rotates
/// move the bit shifted out into Carry.
pub open spec fn rmw_carry(op: Rmw, d: u8, p: u8) -> u8 {
    match op {
        Rmw::Asl | Rmw::Rol => with_flag(p, CARRY, has_flag(d, 0x80)),
        Rmw::Lsr | Rmw::Ror => with_flag(p, CARRY, d & 1 == 1),
        Rmw::Inc | Rmw::Dec => p,
    }
}

/// `v` reduced modulo 256.
pub open spec fn wrap8(v: int) -> u8 {
    (v % 0x100) as u8
}

/// `v` reduced modulo 65536.
pub open spec fn wrap16(v: int) -> u16 {
    (v % 0x10000) as u16
}

/// The status byte with Zero and Negative recomputed from `v`.
pub open spec fn zn(p: u8, v: u8) -> u8 {
    with_flag(with_flag(p, ZERO, v == 0), NEGATIVE, has_flag(v, 0x80))
}

/// The status byte as it is pulled from the stack: Break cleared, Break2 set.
pub open spec fn pulled_status(p: u8) -> u8 {
    with_flag(with_flag(p, BREAK, false), BREAK2, true)
}

/// The status byte as it is pushed by PHP: Break and Break2 set.
pub open spec fn pushed_status(p: u8) -> u8 {
    with_flag(with_flag(p, BREAK, true), BREAK2, true)
}

/// Where a taken branch goes: the offset byte is signed and counts from the
/// byte after it.
pub open spec fn branch_target(pc: u16, offset: u8) -> u16 {
    if offset < 0x80 {
        wrap16(pc + 1 + offset)
    } else {
        wrap16(pc + 1 + offset + 0xFF00)
    }
}

/// The carry into bit 0 of an addition.
pub open spec fn carry_in(p: u8) -> int {
    if has_flag(p, CARRY) {
        1
    } else {
        0
    }
}

impl CpuView {
    pub open spec fn read(self, addr: u16) -> (u8, CpuView) {
        let (v, bus) = self.bus.read(addr);
        (v, CpuView { bus, ..self })
    }

    pub open spec fn write(self, addr: u16, v: u8) -> CpuView {
        CpuView { bus: self.bus.write(addr, v), ..self }
    }

    /// A little-endian 16-bit read, low byte first.
    pub open spec fn read16(self, addr: u16) -> (u16, CpuView) {
        let (low, s1) = self.read(addr);
        let (high, s2) = s1.read(wrap16(addr + 1));
        (le16(low, high), s2)
    }

    pub open spec fn with_p(self, p: u8) -> CpuView {
        CpuView { p, ..self }
    }

    /// The accumulator set to `v`, with Zero and Negative from `v`.
    pub open spec fn with_a(self, v: u8) -> CpuView {
        CpuView { a: v, p: zn(self.p, v), ..self }
    }

    #[verifier::opaque]
    pub open spec fn operand_address(self, mode: AddressingMode) -> (u16, CpuView) {
        match mode {
            AddressingMode::Immediate => (self.pc, self),
            AddressingMode::ZeroPage => {
                let (b, s) = self.read(self.pc);
                (b as u16, s)
            },
            AddressingMode::Absolute => self.read16(self.pc),
            AddressingMode::ZeroPageX => {
                let (b, s) = self.read(self.pc);
                (wrap8(b + self.x) as u16, s)
            },
            AddressingMode::ZeroPageY => {
                let (b, s) = self.read(self.pc);
                (wrap8(b + self.y) as u16, s)
            },
            AddressingMode::AbsoluteX => {
                let (base, s) = self.read16(self.pc);
                (wrap16(base + self.x), s)
            },
            AddressingMode::AbsoluteY => {
                let (base, s) = self.read16(self.pc);
                (wrap16(base + self.y), s)
            },
            AddressingMode::IndirectX => {
                let (b, s1) = self.read(self.pc);
                let ptr = wrap8(b + self.x);
                let (low, s2) = s1.read(ptr as u16);
                let (high, s3) = s2.read(wrap8(ptr + 1) as u16);
                (le16(low, high), s3)
            },
            AddressingMode::IndirectY => {
                let (b, s1) = self.read(self.pc);
                let (low, s2) = s1.read(b as u16);
                let (high, s3) = s2.read(wrap8(b + 1) as u16);
                (wrap16(le16(low, high) + self.y), s3)
            },
            _ => (0, self),
        }
    }

    /// The operand byte: a read at the operand address.
    pub open spec fn operand(self, mode: AddressingMode) -> (u8, CpuView) {
        let (addr, s) = self.operand_address(mode);
        s.read(addr)
    }

    /// A store of `v` at the operand address; a store into program memory
    /// is refused and reported by its address.
    pub open spec fn store(self, mode: AddressingMode, v: u8) -> (CpuView, Option<u16>) {
        let (addr, s) = self.operand_address(mode);
        if addr >= PRG_ROM_START {
            (s, Some(addr))
        } else {
            (s.write(addr, v), None)
        }
    }

    pub open spec fn push(self, v: u8) -> CpuView {
        let s = self.write((STACK_OFFSET + self.sp) as u16, v);
        CpuView { sp: wrap8(self.sp + 0xFF), ..s }
    }

    pub open spec fn pop(self) -> (u8, CpuView) {
        let sp = wrap8(self.sp + 1);
        CpuView { sp, ..self }.read((STACK_OFFSET + sp) as u16)
    }

    /// Pushes the high byte, then the low byte.
    pub open spec fn push16(self, v: u16) -> CpuView {
        self.push((v / 0x100) as u8).push((v % 0x100) as u8)
    }

    /// Pops the low byte, then the high byte.
    pub open spec fn pop16(self) -> (u16, CpuView) {
        let (low, s1) = self.pop();
        let (high, s2) = s1.pop();
        (le16(low, high), s2)
    }

    pub open spec fn add_to_a(self, v: u8) -> CpuView {
        let sum = self.a + v + carry_in(self.p);
        let result = wrap8(sum);
        let p1 = with_flag(self.p, CARRY, sum > 0xFF);
        let p2 = with_flag(p1, OVERFLOW, (v ^ result) & (result ^ self.a) & 0x80 != 0);
        self.with_p(p2).with_a(result)
    }

    pub open spec fn compare(self, mode: AddressingMode, value: u8) -> CpuView {
        let (d, s) = self.operand(mode);
        let p1 = with_flag(s.p, CARRY, value >= d);
        s.with_p(zn(p1, wrap8(value - d + 0x100)))
    }

    pub open spec fn branch(self, condition: bool) -> CpuView {
        if condition {
            let (offset, s) = self.read(self.pc);
            CpuView { pc: branch_target(self.pc, offset), ..s }
        } else {
            self
        }
    }

    pub open spec fn lda(self, mode: AddressingMode) -> CpuView {
        let (v, s) = self.operand(mode);
        s.with_a(v)
    }

    pub open spec fn ldx(self, mode: AddressingMode) -> CpuView {
        let (v, s) = self.operand(mode);
        CpuView { x: v, p: zn(s.p, v), ..s }
    }

    pub open spec fn ldy(self, mode: AddressingMode) -> CpuView {
        let (v, s) = self.operand(mode);
        CpuView { y: v, p: zn(s.p, v), ..s }
    }

    pub open spec fn adc(self, mode: AddressingMode) -> CpuView {
        let (v, s) = self.operand(mode);
        s.add_to_a(v)
    }

    /// Subtraction adds the operand's two's-complement negation minus one,
    /// that is its complement.
    pub open spec fn sbc(self, mode: AddressingMode) -> CpuView {
        let (v, s) = self.operand(mode);
        s.add_to_a((0xFF - v) as u8)
    }

    pub open spec fn and(self, mode: AddressingMode) -> CpuView {
        let (v, s) = self.operand(mode);
        s.with_a(s.a & v)
    }

    pub open spec fn eor(self, mode: AddressingMode) -> CpuView {
        let (v, s) = self.operand(mode);
        s.with_a(s.a ^ v)
    }

    pub open spec fn ora(self, mode: AddressingMode) -> CpuView {
        let (v, s) = self.operand(mode);
        s.with_a(s.a | v)
    }

    pub open spec fn bit(self, mode: AddressingMode) -> CpuView {
        let (v, s) = self.operand(mode);
        let p1 = with_flag(s.p, ZERO, s.a & v == 0);
        let p2 = with_flag(p1, NEGATIVE, has_flag(v, 0x80));
        s.with_p(with_flag(p2, OVERFLOW, v & 0x40 != 0))
    }

    pub open spec fn anc(self, mode: AddressingMode) -> CpuView {
        let (v, s) = self.operand(mode);
        let a = s.a & v;
        let p1 = with_flag(s.p, CARRY, has_flag(a, 0x80));
        CpuView { a, p: zn(p1, a), ..s }
    }

    /// Read-modify-write at the operand address; Zero and Negative come
    /// from the new byte. A write into program memory is refused.
    pub open spec fn modify(self, mode: AddressingMode, op: Rmw) -> (CpuView, Option<u16>) {
        let (addr, s1) = self.operand_address(mode);
        if addr >= PRG_ROM_START {
            (s1, Some(addr))
        } else {
            let (d, s2) = s1.read(addr);
            let r = rmw_result(op, d, has_flag(s2.p, CARRY));
            (s2.write(addr, r).with_p(zn(rmw_carry(op, d, s2.p), r)), None)
        }
    }

    /// The same on the accumulator.
    pub open spec fn modify_a(self, op: Rmw) -> CpuView {
        let r = rmw_result(op, self.a, has_flag(self.p, CARRY));
        self.with_p(rmw_carry(op, self.a, self.p)).with_a(r)
    }

    /// A shift or rotate, of the accumulator or of memory.
    pub open spec fn shift(self, mode: AddressingMode, op: Rmw) -> (CpuView, Option<u16>) {
        if mode == AddressingMode::Accumulator {
            (self.modify_a(op), None)
        } else {
            self.modify(mode, op)
        }
    }

    pub open spec fn set_flag(self, flag: u8, on: bool) -> CpuView {
        self.with_p(with_flag(self.p, flag, on))
    }

    pub open spec fn jmp(self, mode: AddressingMode) -> CpuView {
        let (ptr, s1) = self.read16(self.pc);
        if mode == AddressingMode::Absolute {
            CpuView { pc: ptr, ..s1 }
        } else if ptr % 0x100 == 0xFF {
            // the high byte comes from the start of the same page
            let (high, s2) = s1.read((ptr - ptr % 0x100) as u16);
            let (low, s3) = s2.read(ptr);
            CpuView { pc: le16(low, high), ..s3 }
        } else {
            let (target, s2) = s1.read16(ptr);
            CpuView { pc: target, ..s2 }
        }
    }

    /// The return address pushed is that of the call's last byte.
    pub open spec fn jsr(self) -> CpuView {
        let s1 = self.push16(wrap16(self.pc + 1));
        let (target, s2) = s1.read16(s1.pc);
        CpuView { pc: target, ..s2 }
    }

    pub open spec fn rts(self) -> CpuView {
        let (v, s) = self.pop16();
        CpuView { pc: wrap16(v + 1), ..s }
    }

    pub open spec fn rti(self) -> CpuView {
        let (p, s1) = self.pop();
        let (pc, s2) = s1.with_p(pulled_status(p)).pop16();
        CpuView { pc, ..s2 }
    }

    pub open spec fn plp(self) -> CpuView {
        let (p, s) = self.pop();
        s.with_p(pulled_status(p))
    }

    pub open spec fn pla(self) -> CpuView {
        let (v, s) = self.pop();
        s.with_a(v)
    }

    /// The state after instruction `instruction` with `mode`, its operand
    /// starting at `pc`, and the address of a refused store, if any.
    #[verifier::opaque]
    pub open spec fn execute(self, instruction: Instruction, mode: AddressingMode) -> (
        CpuView,
        Option<u16>,
    ) {
        match instruction {
            Instruction::Adc => (self.adc(mode), None),
            Instruction::And => (self.and(mode), None),
            Instruction::Asl => self.shift(mode, Rmw::Asl),
            Instruction::Bcc => (self.branch(!has_flag(self.p, CARRY)), None),
            Instruction::Bcs => (self.branch(has_flag(self.p, CARRY)), None),
            Instruction::Beq => (self.branch(has_flag(self.p, ZERO)), None),
            Instruction::Bit => (self.bit(mode), None),
            Instruction::Bmi => (self.branch(has_flag(self.p, NEGATIVE)), None),
            Instruction::Bne => (self.branch(!has_flag(self.p, ZERO)), None),
            Instruction::Bpl => (self.branch(!has_flag(self.p, NEGATIVE)), None),
            Instruction::Brk => (self, None),
            Instruction::Bvc => (self.branch(!has_flag(self.p, OVERFLOW)), None),
            Instruction::Bvs => (self.branch(has_flag(self.p, OVERFLOW)), None),
            Instruction::Clc => (self.set_flag(CARRY, false), None),
            Instruction::Cld => (self.set_flag(crate::flags::DECIMAL, false), None),
            Instruction::Cli => (self.set_flag(crate::flags::INTERRUPT_DISABLE, false), None),
            Instruction::Clv => (self.set_flag(OVERFLOW, false), None),
            Instruction::Cmp => (self.compare(mode, self.a), None),
            Instruction::Cpx => (self.compare(mode, self.x), None),
            Instruction::Cpy => (self.compare(mode, self.y), None),
            Instruction::Dec => self.modify(mode, Rmw::Dec),
            Instruction::Dex => (CpuView { x: wrap8(self.x + 0xFF), p: zn(self.p, wrap8(self.x + 0xFF)), ..self }, None),
            Instruction::Dey => (CpuView { y: wrap8(self.y + 0xFF), p: zn(self.p, wrap8(self.y + 0xFF)), ..self }, None),
            Instruction::Eor => (self.eor(mode), None),
            Instruction::Inc => self.modify(mode, Rmw::Inc),
            Instruction::Inx => (CpuView { x: wrap8(self.x + 1), p: zn(self.p, wrap8(self.x + 1)), ..self }, None),
            Instruction::Iny => (CpuView { y: wrap8(self.y + 1), p: zn(self.p, wrap8(self.y + 1)), ..self }, None),
            Instruction::Jmp => (self.jmp(mode), None),
            Instruction::Jsr => (self.jsr(), None),
            Instruction::Lda => (self.lda(mode), None),
            Instruction::Ldx => (self.ldx(mode), None),
            Instruction::Ldy => (self.ldy(mode), None),
            Instruction::Lsr => self.shift(mode, Rmw::Lsr),
            Instruction::Nop => (self, None),
            Instruction::Ora => (self.ora(mode), None),
            Instruction::Pha => (self.push(self.a), None),
            Instruction::Php => (self.push(pushed_status(self.p)), None),
            Instruction::Pla => (self.pla(), None),
            Instruction::Plp => (self.plp(), None),
            Instruction::Rol => self.shift(mode, Rmw::Rol),
            Instruction::Ror => self.shift(mode, Rmw::Ror),
            Instruction::Rti => (self.rti(), None),
            Instruction::Rts => (self.rts(), None),
            Instruction::Sbc => (self.sbc(mode), None),
            Instruction::Sec => (self.set_flag(CARRY, true), None),
            Instruction::Sed => (self.set_flag(crate::flags::DECIMAL, true), None),
            Instruction::Sei => (self.set_flag(crate::flags::INTERRUPT_DISABLE, true), None),
            Instruction::Sta => self.store(mode, self.a),
            Instruction::Stx => self.store(mode, self.x),
            Instruction::Sty => self.store(mode, self.y),
            Instruction::Tax => (CpuView { x: self.a, p: zn(self.p, self.a), ..self }, None),
            Instruction::Tay => (CpuView { y: self.a, p: zn(self.p, self.a), ..self }, None),
            Instruction::Tsx => (CpuView { x: self.sp, p: zn(self.p, self.sp), ..self }, None),
            Instruction::Txa => (self.with_a(self.x), None),
            Instruction::Txs => (CpuView { sp: self.x, ..self }, None),
            Instruction::Tya => (self.with_a(self.y), None),
            Instruction::Anc => (self.anc(mode), None),
        }
    }

    /// One fetch-decode-execute cycle: the state after it, and why the loop
    /// stops there, if it does.
    pub open spec fn step(self) -> (CpuView, Option<Halt>) {
        let (code, s1) = self.read(self.pc);
        let s2 = CpuView { pc: wrap16(self.pc + 1), ..s1 };
        match opcode_of(code) {
            None => (s2, Some(Halt::UnknownOpcode(code))),
            Some(o) => if o.instruction == Instruction::Brk {
                (s2, Some(Halt::Break))
            } else {
                let (s3, refused) = s2.execute(o.instruction, o.mode);
                match refused {
                    Some(addr) => (s3, Some(Halt::ProgramMemoryWrite(addr))),
                    None => if s3.pc == s2.pc {
                        (CpuView { pc: wrap16(s3.pc + o.bytes - 1), ..s3 }, None)
                    } else {
                        (s3, None)
                    },
                }
            },
        }
    }

    /// At most `fuel` cycles, stopping at the first halt.
    pub open spec fn run(self, fuel: nat) -> (CpuView, Halt)
        decreases fuel,
    {
        if fuel == 0 {
            (self, Halt::StepLimit)
        } else {
            match self.step() {
                (s, Some(h)) => (s, h),
                (s, None) => s.run((fuel - 1) as nat),
            }
        }
    }

    /// Registers back to their power-on values, the program counter from the
    /// reset vector.
    pub open spec fn reset(self) -> CpuView {
        let s1 = CpuView { a: 0, x: 0, y: 0, sp: STACK_RESET, p: STATUS_RESET, ..self };
        let (pc, s2) = s1.read16(RESET_VECTOR);
        CpuView { pc, ..s2 }
    }
}

/// An indirect jump through a RAM pointer whose low byte is 0xFF takes the
/// target's high byte from the start of the pointer's page, not from the
/// next page.
pub proof fn lemma_jmp_indirect_page_wrap(s: CpuView)
    requires
        s.bus.ram.len() == 0x800,
        ({
            let (ptr, s1) = s.read16(s.pc);
            ptr <= RAM_MIRRORS_END && ptr % 0x100 == 0xFF
        }),
    ensures
        ({
            let (ptr, s1) = s.read16(s.pc);
            s.jmp(AddressingMode::Indirect).pc == le16(
                s1.bus.ram[(ptr % 0x800) as int],
                s1.bus.ram[((ptr - 0xFF) % 0x800) as int],
            )
        }),
{
    reveal(BusView::read);
}

} // verus!
