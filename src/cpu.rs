use vstd::prelude::*;
use crate::bus::{program_image, BusView, BUS, PRG_ROM_START};
use crate::bytes::{has_flag, le16, lemma_le16, lemma_mask16, lemma_split16};
use crate::flags::{
    CpuFlags, BREAK, BREAK2, CARRY, DECIMAL, INTERRUPT_DISABLE, NEGATIVE, OVERFLOW, ZERO,
};
use crate::isa::{
    pulled_status, pushed_status, rmw_carry, rmw_result, wrap16, wrap8, zn, CpuView, Halt, Rmw, RESET_VECTOR, STACK_OFFSET, STACK_RESET, STATUS_RESET,
};
use crate::memory::Memory;
use crate::opcodes::{decode, has_operand_address, mode_fits, AddressingMode, Instruction};
use crate::ppu::initial_ppu;
use crate::rom::{Mirroring, Rom};

verus! {

/// The processor: its registers and the address space it drives.
pub struct CPU {
    pub register_a: u8,
    pub register_x: u8,
    pub register_y: u8,
    pub stack_pointer: u8,
    pub program_counter: u16,
    pub status_register: CpuFlags,
    pub bus: BUS,
}

impl View for CPU {
    type V = CpuView;

    open spec fn view(&self) -> CpuView {
        CpuView {
            a: self.register_a,
            x: self.register_x,
            y: self.register_y,
            sp: self.stack_pointer,
            pc: self.program_counter,
            p: self.status_register@,
            bus: self.bus@,
        }
    }
}

impl Memory for CPU {
    open spec fn read_spec(state: CpuView, addr: u16) -> (u8, CpuView) {
        state.read(addr)
    }

    open spec fn write_spec(state: CpuView, addr: u16, data: u8) -> CpuView {
        state.write(addr, data)
    }

    open spec fn writable(state: CpuView, addr: u16) -> bool {
        addr < PRG_ROM_START
    }

    fn m_read(&mut self, addr: u16) -> (r: u8) {
        self.bus.m_read(addr)
    }

    fn m_write(&mut self, addr: u16, data: u8) {
        self.bus.m_write(addr, data)
    }
}

/// The address space of a processor built without a cartridge: 32 KiB of
/// blank program memory, 8 KiB of blank graphics memory.
pub open spec fn blank_bus() -> BusView {
    BusView {
        ram: Seq::new(0x800, |i: int| 0u8),
        prg_rom: Seq::new(0x8000, |i: int| 0u8),
        ppu: initial_ppu(Seq::new(0x2000, |i: int| 0u8), Mirroring::Horizontal),
    }
}

/// The state after `program` is loaded: the program memory is replaced by
/// the image that holds it.
pub open spec fn loaded(s: CpuView, program: Seq<u8>) -> CpuView {
    CpuView { bus: BusView { prg_rom: program_image(program), ..s.bus }, ..s }
}

impl CPU {
    pub fn new() -> (r: CPU)
        ensures
            r@ == (CpuView {
                a: 0,
                x: 0,
                y: 0,
                sp: STACK_RESET,
                pc: 0,
                p: STATUS_RESET,
                bus: blank_bus(),
            }),
    {
        let prg: Vec<u8> = vec![0; 0x8000];
        let chr: Vec<u8> = vec![0; 0x2000];
        assert(prg@ =~= Seq::new(0x8000, |i: int| 0u8));
        assert(chr@ =~= Seq::new(0x2000, |i: int| 0u8));
        let rom = Rom { prg_rom: prg, chr_rom: chr, screen_mirroring: Mirroring::Horizontal };
        CPU::with_bus(BUS::new(rom))
    }

    /// A processor in its power-on state, driving `bus`.
    pub fn with_bus(bus: BUS) -> (r: CPU)
        ensures
            r@ == (CpuView {
                a: 0,
                x: 0,
                y: 0,
                sp: STACK_RESET,
                pc: 0,
                p: STATUS_RESET,
                bus: bus@,
            }),
    {
        CPU {
            register_a: 0,
            register_x: 0,
            register_y: 0,
            stack_pointer: STACK_RESET,
            program_counter: 0,
            status_register: CpuFlags::from_bits_truncate(STATUS_RESET),
            bus,
        }
    }

    /// Reads `addr` and `addr + 1` (wrapping at the end of the address
    /// space) as a little-endian value.
    fn fetch_u16(&mut self, addr: u16) -> (r: u16)
        ensures
            (r, final(self)@) == old(self)@.read16(addr),
    {
        let low = self.m_read(addr);
        let high = self.m_read(addr.wrapping_add(1));
        proof {
            lemma_le16(low, high);
        }
        ((high as u16) << 8) | (low as u16)
    }

    /// Zero-page address plus an index register, wrapping within the zero page.
    fn zero_page_indexed(&mut self, index: u8) -> (r: u16)
        ensures
            ({
                let (b, s) = old(self)@.read(old(self)@.pc);
                r == wrap8(b + index) as u16 && final(self)@ == s
            }),
    {
        let pc = self.program_counter;
        let addr = self.m_read(pc);
        addr.wrapping_add(index) as u16
    }

    /// Absolute address plus an index register, wrapping within 16 bits.
    fn absolute_indexed(&mut self, index: u8) -> (r: u16)
        ensures
            ({
                let (base, s) = old(self)@.read16(old(self)@.pc);
                r == wrap16(base + index) && final(self)@ == s
            }),
    {
        let pc = self.program_counter;
        let addr = self.fetch_u16(pc);
        addr.wrapping_add(index as u16)
    }

    fn indirect_x(&mut self) -> (r: u16)
        ensures
            ({
                let (b, s1) = old(self)@.read(old(self)@.pc);
                let ptr = wrap8(b + old(self)@.x);
                let (low, s2) = s1.read(ptr as u16);
                let (high, s3) = s2.read(wrap8(ptr + 1) as u16);
                r == le16(low, high) && final(self)@ == s3
            }),
    {
        let pc = self.program_counter;
        let addr = self.m_read(pc);
        let ptr: u8 = addr.wrapping_add(self.register_x);
        let low = self.m_read(ptr as u16);
        let high = self.m_read(ptr.wrapping_add(1) as u16);
        proof {
            lemma_le16(low, high);
        }
        ((high as u16) << 8) | (low as u16)
    }

    fn indirect_y(&mut self) -> (r: u16)
        ensures
            ({
                let (b, s1) = old(self)@.read(old(self)@.pc);
                let (low, s2) = s1.read(b as u16);
                let (high, s3) = s2.read(wrap8(b + 1) as u16);
                r == wrap16(le16(low, high) + old(self)@.y) && final(self)@ == s3
            }),
    {
        let pc = self.program_counter;
        let addr = self.m_read(pc);
        let low = self.m_read(addr as u16);
        let high = self.m_read(addr.wrapping_add(1) as u16);
        proof {
            lemma_le16(low, high);
        }
        let deref = ((high as u16) << 8) | (low as u16);
        let y = self.register_y;
        deref.wrapping_add(y as u16)
    }

    fn get_op_addr(&mut self, mode: AddressingMode) -> (r: u16)
        requires
            has_operand_address(mode),
        ensures
            (r, final(self)@) == old(self)@.operand_address(mode),
    {
        proof {
            reveal(CpuView::operand_address);
        }
        let pc = self.program_counter;
        match mode {
            AddressingMode::Immediate => pc,
            AddressingMode::ZeroPage => self.m_read(pc) as u16,
            AddressingMode::Absolute => self.fetch_u16(pc),
            AddressingMode::ZeroPageX => {
                let x = self.register_x;
                self.zero_page_indexed(x)
            },
            AddressingMode::ZeroPageY => {
                let y = self.register_y;
                self.zero_page_indexed(y)
            },
            AddressingMode::AbsoluteX => {
                let x = self.register_x;
                self.absolute_indexed(x)
            },
            AddressingMode::AbsoluteY => {
                let y = self.register_y;
                self.absolute_indexed(y)
            },
            AddressingMode::IndirectX => self.indirect_x(),
            AddressingMode::IndirectY => self.indirect_y(),
            _ => 0,
        }
    }

    fn set_zero_flag(&mut self, value: u8)
        ensures
            final(self)@ == old(self)@.set_flag(ZERO, value == 0),
    {
        self.status_register.set(ZERO, value == 0);
    }

    fn set_negative_flag(&mut self, value: u8)
        ensures
            final(self)@ == old(self)@.set_flag(NEGATIVE, has_flag(value, 0x80)),
    {
        self.status_register.set(NEGATIVE, value & 0x80 == 0x80);
    }

    fn set_carry_flag(&mut self, value: bool)
        ensures
            final(self)@ == old(self)@.set_flag(CARRY, value),
    {
        self.status_register.set(CARRY, value);
    }

    fn set_overflow_flag(&mut self, value: bool)
        ensures
            final(self)@ == old(self)@.set_flag(OVERFLOW, value),
    {
        self.status_register.set(OVERFLOW, value);
    }

    fn set_zero_and_negative_flag(&mut self, value: u8)
        ensures
            final(self)@ == old(self)@.with_p(zn(old(self)@.p, value)),
    {
        self.set_zero_flag(value);
        self.set_negative_flag(value);
    }

    fn set_reg_a(&mut self, data: u8)
        ensures
            final(self)@ == old(self)@.with_a(data),
    {
        self.register_a = data;
        self.set_zero_and_negative_flag(data);
    }

    fn add_reg_a(&mut self, data: u8)
        ensures
            final(self)@ == old(self)@.add_to_a(data),
    {
        let carry: u16 = if self.status_register.contains(CARRY) {
            1
        } else {
            0
        };
        let sum = self.register_a as u16 + data as u16 + carry;
        self.set_carry_flag(sum > 0xFF);
        let result = (sum % 0x100) as u8;
        self.set_overflow_flag((data ^ result) & (result ^ self.register_a) & 0x80 != 0);
        self.set_reg_a(result);
    }

    fn branch(&mut self, condition: bool)
        ensures
            final(self)@ == old(self)@.branch(condition),
    {
        if condition {
            let pc = self.program_counter;
            let offset = self.m_read(pc);
            let next = pc.wrapping_add(1);
            self.program_counter = if offset < 0x80 {
                next.wrapping_add(offset as u16)
            } else {
                next.wrapping_add(offset as u16).wrapping_add(0xFF00)
            };
        }
    }

    fn pop_stack(&mut self) -> (r: u8)
        ensures
            (r, final(self)@) == old(self)@.pop(),
    {
        self.stack_pointer = self.stack_pointer.wrapping_add(1);
        self.m_read(STACK_OFFSET + self.stack_pointer as u16)
    }

    fn pop_stack_u16(&mut self) -> (r: u16)
        ensures
            (r, final(self)@) == old(self)@.pop16(),
    {
        let low = self.pop_stack();
        let high = self.pop_stack();
        proof {
            lemma_le16(low, high);
        }
        ((high as u16) << 8) | (low as u16)
    }

    fn push_stack(&mut self, data: u8)
        ensures
            final(self)@ == old(self)@.push(data),
    {
        self.m_write(STACK_OFFSET + self.stack_pointer as u16, data);
        self.stack_pointer = self.stack_pointer.wrapping_sub(1);
    }

    fn push_stack_u16(&mut self, data: u16)
        ensures
            final(self)@ == old(self)@.push16(data),
    {
        proof {
            lemma_split16(data);
        }
        self.push_stack((data >> 8) as u8);
        self.push_stack((data & 0xFF) as u8);
    }

    fn compare(&mut self, mode: AddressingMode, value: u8)
        requires
            has_operand_address(mode),
        ensures
            final(self)@ == old(self)@.compare(mode, value),
    {
        let addr = self.get_op_addr(mode);
        let data = self.m_read(addr);
        self.set_carry_flag(value >= data);
        self.set_zero_and_negative_flag(value.wrapping_sub(data));
    }

    fn adc(&mut self, mode: AddressingMode)
        requires
            has_operand_address(mode),
        ensures
            final(self)@ == old(self)@.adc(mode),
    {
        let addr = self.get_op_addr(mode);
        let data = self.m_read(addr);
        self.add_reg_a(data);
    }

    fn and(&mut self, mode: AddressingMode)
        requires
            has_operand_address(mode),
        ensures
            final(self)@ == old(self)@.and(mode),
    {
        let addr = self.get_op_addr(mode);
        let data = self.m_read(addr);
        self.set_reg_a(self.register_a & data);
    }

    fn eor(&mut self, mode: AddressingMode)
        requires
            has_operand_address(mode),
        ensures
            final(self)@ == old(self)@.eor(mode),
    {
        let addr = self.get_op_addr(mode);
        let data = self.m_read(addr);
        self.set_reg_a(self.register_a ^ data);
    }

    fn ora(&mut self, mode: AddressingMode)
        requires
            has_operand_address(mode),
        ensures
            final(self)@ == old(self)@.ora(mode),
    {
        let addr = self.get_op_addr(mode);
        let data = self.m_read(addr);
        self.set_reg_a(self.register_a | data);
    }

    fn lda(&mut self, mode: AddressingMode)
        requires
            has_operand_address(mode),
        ensures
            final(self)@ == old(self)@.lda(mode),
    {
        let addr = self.get_op_addr(mode);
        let data = self.m_read(addr);
        self.set_reg_a(data);
    }

    fn ldx(&mut self, mode: AddressingMode)
        requires
            has_operand_address(mode),
        ensures
            final(self)@ == old(self)@.ldx(mode),
    {
        let addr = self.get_op_addr(mode);
        let data = self.m_read(addr);
        self.register_x = data;
        self.set_zero_and_negative_flag(data);
    }

    fn ldy(&mut self, mode: AddressingMode)
        requires
            has_operand_address(mode),
        ensures
            final(self)@ == old(self)@.ldy(mode),
    {
        let addr = self.get_op_addr(mode);
        let data = self.m_read(addr);
        self.register_y = data;
        self.set_zero_and_negative_flag(data);
    }

    fn sbc(&mut self, mode: AddressingMode)
        requires
            has_operand_address(mode),
        ensures
            final(self)@ == old(self)@.sbc(mode),
    {
        let addr = self.get_op_addr(mode);
        let data = self.m_read(addr);
        self.add_reg_a(0xFF - data);
    }

    fn bit(&mut self, mode: AddressingMode)
        requires
            has_operand_address(mode),
        ensures
            final(self)@ == old(self)@.bit(mode),
    {
        let addr = self.get_op_addr(mode);
        let data = self.m_read(addr);
        self.set_zero_flag(self.register_a & data);
        self.set_negative_flag(data);
        self.set_overflow_flag(data & 0x40 != 0);
    }

    /// AND with Carry: the accumulator is ANDed with the operand and Carry
    /// takes its bit 7.
    fn anc(&mut self, mode: AddressingMode)
        requires
            has_operand_address(mode),
        ensures
            final(self)@ == old(self)@.anc(mode),
    {
        let addr = self.get_op_addr(mode);
        let data = self.m_read(addr);
        self.register_a = self.register_a & data;
        self.set_carry_flag(self.register_a & 0x80 == 0x80);
        self.set_zero_and_negative_flag(self.register_a);
    }

    fn cmp(&mut self, mode: AddressingMode)
        requires
            has_operand_address(mode),
        ensures
            final(self)@ == old(self)@.compare(mode, old(self)@.a),
    {
        let a = self.register_a;
        self.compare(mode, a);
    }

    fn cpx(&mut self, mode: AddressingMode)
        requires
            has_operand_address(mode),
        ensures
            final(self)@ == old(self)@.compare(mode, old(self)@.x),
    {
        let x = self.register_x;
        self.compare(mode, x);
    }

    fn cpy(&mut self, mode: AddressingMode)
        requires
            has_operand_address(mode),
        ensures
            final(self)@ == old(self)@.compare(mode, old(self)@.y),
    {
        let y = self.register_y;
        self.compare(mode, y);
    }

    /// Stores `value` at the operand address; returns the address instead
    /// when it lies in program memory.
    fn store(&mut self, mode: AddressingMode, value: u8) -> (r: Option<u16>)
        requires
            has_operand_address(mode),
        ensures
            (final(self)@, r) == old(self)@.store(mode, value),
    {
        let addr = self.get_op_addr(mode);
        if addr >= PRG_ROM_START {
            return Some(addr);
        }
        self.m_write(addr, value);
        None
    }

    fn sta(&mut self, mode: AddressingMode) -> (r: Option<u16>)
        requires
            has_operand_address(mode),
        ensures
            (final(self)@, r) == old(self)@.store(mode, old(self)@.a),
    {
        let a = self.register_a;
        self.store(mode, a)
    }

    fn stx(&mut self, mode: AddressingMode) -> (r: Option<u16>)
        requires
            has_operand_address(mode),
        ensures
            (final(self)@, r) == old(self)@.store(mode, old(self)@.x),
    {
        let x = self.register_x;
        self.store(mode, x)
    }

    fn sty(&mut self, mode: AddressingMode) -> (r: Option<u16>)
        requires
            has_operand_address(mode),
        ensures
            (final(self)@, r) == old(self)@.store(mode, old(self)@.y),
    {
        let y = self.register_y;
        self.store(mode, y)
    }

    /// The new byte of a read-modify-write.
    fn rmw_value(op: Rmw, data: u8, carry: bool) -> (r: u8)
        ensures
            r == rmw_result(op, data, carry),
    {
        match op {
            Rmw::Asl => data << 1,
            Rmw::Lsr => data >> 1,
            Rmw::Rol => if carry {
                (data << 1) | 1
            } else {
                data << 1
            },
            Rmw::Ror => if carry {
                (data >> 1) | 0x80
            } else {
                data >> 1
            },
            Rmw::Inc => data.wrapping_add(1),
            Rmw::Dec => data.wrapping_sub(1),
        }
    }

    /// Carry after a read-modify-write of `data`.
    fn rmw_set_carry(&mut self, op: Rmw, data: u8)
        ensures
            final(self)@ == old(self)@.with_p(rmw_carry(op, data, old(self)@.p)),
    {
        match op {
            Rmw::Asl | Rmw::Rol => self.set_carry_flag(data & 0x80 == 0x80),
            Rmw::Lsr | Rmw::Ror => self.set_carry_flag(data & 1 == 1),
            Rmw::Inc | Rmw::Dec => {},
        }
    }

    /// Read-modify-write at the operand address; returns the address instead
    /// when it lies in program memory.
    fn modify_memory(&mut self, mode: AddressingMode, op: Rmw) -> (r: Option<u16>)
        requires
            has_operand_address(mode),
        ensures
            (final(self)@, r) == old(self)@.modify(mode, op),
    {
        let addr = self.get_op_addr(mode);
        if addr >= PRG_ROM_START {
            return Some(addr);
        }
        let data = self.m_read(addr);
        let carry = self.status_register.contains(CARRY);
        let result = CPU::rmw_value(op, data, carry);
        self.rmw_set_carry(op, data);
        self.m_write(addr, result);
        self.set_zero_and_negative_flag(result);
        None
    }

    /// A shift or rotate of the accumulator or of memory.
    fn shift(&mut self, mode: AddressingMode, op: Rmw) -> (r: Option<u16>)
        requires
            mode == AddressingMode::Accumulator || has_operand_address(mode),
        ensures
            (final(self)@, r) == old(self)@.shift(mode, op),
    {
        match mode {
            AddressingMode::Accumulator => {
                let a = self.register_a;
                let carry = self.status_register.contains(CARRY);
                let result = CPU::rmw_value(op, a, carry);
                self.rmw_set_carry(op, a);
                self.set_reg_a(result);
                None
            },
            _ => self.modify_memory(mode, op),
        }
    }

    fn asl(&mut self, mode: AddressingMode) -> (r: Option<u16>)
        requires
            mode == AddressingMode::Accumulator || has_operand_address(mode),
        ensures
            (final(self)@, r) == old(self)@.shift(mode, Rmw::Asl),
    {
        self.shift(mode, Rmw::Asl)
    }

    fn lsr(&mut self, mode: AddressingMode) -> (r: Option<u16>)
        requires
            mode == AddressingMode::Accumulator || has_operand_address(mode),
        ensures
            (final(self)@, r) == old(self)@.shift(mode, Rmw::Lsr),
    {
        self.shift(mode, Rmw::Lsr)
    }

    fn rol(&mut self, mode: AddressingMode) -> (r: Option<u16>)
        requires
            mode == AddressingMode::Accumulator || has_operand_address(mode),
        ensures
            (final(self)@, r) == old(self)@.shift(mode, Rmw::Rol),
    {
        self.shift(mode, Rmw::Rol)
    }

    fn ror(&mut self, mode: AddressingMode) -> (r: Option<u16>)
        requires
            mode == AddressingMode::Accumulator || has_operand_address(mode),
        ensures
            (final(self)@, r) == old(self)@.shift(mode, Rmw::Ror),
    {
        self.shift(mode, Rmw::Ror)
    }

    fn inc(&mut self, mode: AddressingMode) -> (r: Option<u16>)
        requires
            has_operand_address(mode),
        ensures
            (final(self)@, r) == old(self)@.modify(mode, Rmw::Inc),
    {
        self.modify_memory(mode, Rmw::Inc)
    }

    fn dec(&mut self, mode: AddressingMode) -> (r: Option<u16>)
        requires
            has_operand_address(mode),
        ensures
            (final(self)@, r) == old(self)@.modify(mode, Rmw::Dec),
    {
        self.modify_memory(mode, Rmw::Dec)
    }

    fn bcc(&mut self)
        ensures
            final(self)@ == old(self)@.branch(!has_flag(old(self)@.p, CARRY)),
    {
        let taken = !self.status_register.contains(CARRY);
        self.branch(taken);
    }

    fn bcs(&mut self)
        ensures
            final(self)@ == old(self)@.branch(has_flag(old(self)@.p, CARRY)),
    {
        let taken = self.status_register.contains(CARRY);
        self.branch(taken);
    }

    fn beq(&mut self)
        ensures
            final(self)@ == old(self)@.branch(has_flag(old(self)@.p, ZERO)),
    {
        let taken = self.status_register.contains(ZERO);
        self.branch(taken);
    }

    fn bne(&mut self)
        ensures
            final(self)@ == old(self)@.branch(!has_flag(old(self)@.p, ZERO)),
    {
        let taken = !self.status_register.contains(ZERO);
        self.branch(taken);
    }

    fn bmi(&mut self)
        ensures
            final(self)@ == old(self)@.branch(has_flag(old(self)@.p, NEGATIVE)),
    {
        let taken = self.status_register.contains(NEGATIVE);
        self.branch(taken);
    }

    fn bpl(&mut self)
        ensures
            final(self)@ == old(self)@.branch(!has_flag(old(self)@.p, NEGATIVE)),
    {
        let taken = !self.status_register.contains(NEGATIVE);
        self.branch(taken);
    }

    fn bvc(&mut self)
        ensures
            final(self)@ == old(self)@.branch(!has_flag(old(self)@.p, OVERFLOW)),
    {
        let taken = !self.status_register.contains(OVERFLOW);
        self.branch(taken);
    }

    fn bvs(&mut self)
        ensures
            final(self)@ == old(self)@.branch(has_flag(old(self)@.p, OVERFLOW)),
    {
        let taken = self.status_register.contains(OVERFLOW);
        self.branch(taken);
    }

    fn clc(&mut self)
        ensures
            final(self)@ == old(self)@.set_flag(CARRY, false),
    {
        self.status_register.remove(CARRY);
    }

    fn cld(&mut self)
        ensures
            final(self)@ == old(self)@.set_flag(DECIMAL, false),
    {
        self.status_register.remove(DECIMAL);
    }

    fn cli(&mut self)
        ensures
            final(self)@ == old(self)@.set_flag(INTERRUPT_DISABLE, false),
    {
        self.status_register.remove(INTERRUPT_DISABLE);
    }

    fn clv(&mut self)
        ensures
            final(self)@ == old(self)@.set_flag(OVERFLOW, false),
    {
        self.status_register.remove(OVERFLOW);
    }

    fn sec(&mut self)
        ensures
            final(self)@ == old(self)@.set_flag(CARRY, true),
    {
        self.status_register.insert(CARRY);
    }

    fn sed(&mut self)
        ensures
            final(self)@ == old(self)@.set_flag(DECIMAL, true),
    {
        self.status_register.insert(DECIMAL);
    }

    fn sei(&mut self)
        ensures
            final(self)@ == old(self)@.set_flag(INTERRUPT_DISABLE, true),
    {
        self.status_register.insert(INTERRUPT_DISABLE);
    }

    fn inx(&mut self)
        ensures
            final(self)@ == (CpuView { x: wrap8(old(self)@.x + 1), p: zn(old(self)@.p, wrap8(old(self)@.x + 1)), ..old(self)@ }),
    {
        self.register_x = self.register_x.wrapping_add(1);
        self.set_zero_and_negative_flag(self.register_x);
    }

    fn iny(&mut self)
        ensures
            final(self)@ == (CpuView { y: wrap8(old(self)@.y + 1), p: zn(old(self)@.p, wrap8(old(self)@.y + 1)), ..old(self)@ }),
    {
        self.register_y = self.register_y.wrapping_add(1);
        self.set_zero_and_negative_flag(self.register_y);
    }

    fn dex(&mut self)
        ensures
            final(self)@ == (CpuView { x: wrap8(old(self)@.x + 0xFF), p: zn(old(self)@.p, wrap8(old(self)@.x + 0xFF)), ..old(self)@ }),
    {
        self.register_x = self.register_x.wrapping_sub(1);
        self.set_zero_and_negative_flag(self.register_x);
    }

    fn dey(&mut self)
        ensures
            final(self)@ == (CpuView { y: wrap8(old(self)@.y + 0xFF), p: zn(old(self)@.p, wrap8(old(self)@.y + 0xFF)), ..old(self)@ }),
    {
        self.register_y = self.register_y.wrapping_sub(1);
        self.set_zero_and_negative_flag(self.register_y);
    }

    fn tax(&mut self)
        ensures
            final(self)@ == (CpuView { x: old(self)@.a, p: zn(old(self)@.p, old(self)@.a), ..old(self)@ }),
    {
        self.register_x = self.register_a;
        self.set_zero_and_negative_flag(self.register_x);
    }

    fn tay(&mut self)
        ensures
            final(self)@ == (CpuView { y: old(self)@.a, p: zn(old(self)@.p, old(self)@.a), ..old(self)@ }),
    {
        self.register_y = self.register_a;
        self.set_zero_and_negative_flag(self.register_y);
    }

    fn tsx(&mut self)
        ensures
            final(self)@ == (CpuView { x: old(self)@.sp, p: zn(old(self)@.p, old(self)@.sp), ..old(self)@ }),
    {
        self.register_x = self.stack_pointer;
        self.set_zero_and_negative_flag(self.register_x);
    }

    fn txa(&mut self)
        ensures
            final(self)@ == old(self)@.with_a(old(self)@.x),
    {
        let x = self.register_x;
        self.set_reg_a(x);
    }

    fn tya(&mut self)
        ensures
            final(self)@ == old(self)@.with_a(old(self)@.y),
    {
        let y = self.register_y;
        self.set_reg_a(y);
    }

    fn txs(&mut self)
        ensures
            final(self)@ == (CpuView { sp: old(self)@.x, ..old(self)@ }),
    {
        self.stack_pointer = self.register_x;
    }

    fn nop(&mut self)
        ensures
            final(self)@ == old(self)@,
    {
    }

    fn pha(&mut self)
        ensures
            final(self)@ == old(self)@.push(old(self)@.a),
    {
        let a = self.register_a;
        self.push_stack(a);
    }

    fn php(&mut self)
        ensures
            final(self)@ == old(self)@.push(pushed_status(old(self)@.p)),
    {
        let status = self.status_register.bits() | BREAK | BREAK2;
        self.push_stack(status);
    }

    fn pla(&mut self)
        ensures
            final(self)@ == old(self)@.pla(),
    {
        let data = self.pop_stack();
        self.set_reg_a(data);
    }

    /// Loads the status register from a pulled byte: Break cleared, Break2
    /// set.
    fn pull_status(&mut self)
        ensures
            ({
                let (p, s) = old(self)@.pop();
                final(self)@ == s.with_p(pulled_status(p))
            }),
    {
        let bits = self.pop_stack();
        self.status_register = CpuFlags::from_bits_truncate(bits);
        self.status_register.remove(BREAK);
        self.status_register.insert(BREAK2);
    }

    fn plp(&mut self)
        ensures
            final(self)@ == old(self)@.plp(),
    {
        self.pull_status();
    }

    fn rti(&mut self)
        ensures
            final(self)@ == old(self)@.rti(),
    {
        self.pull_status();
        self.program_counter = self.pop_stack_u16();
    }

    fn rts(&mut self)
        ensures
            final(self)@ == old(self)@.rts(),
    {
        self.program_counter = self.pop_stack_u16().wrapping_add(1);
    }

    fn jsr(&mut self)
        ensures
            final(self)@ == old(self)@.jsr(),
    {
        let ret = self.program_counter.wrapping_add(1);
        self.push_stack_u16(ret);
        let pc = self.program_counter;
        self.program_counter = self.fetch_u16(pc);
    }

    fn jmp(&mut self, mode: AddressingMode)
        requires
            mode == AddressingMode::Absolute || mode == AddressingMode::Indirect,
        ensures
            final(self)@ == old(self)@.jmp(mode),
    {
        let pc = self.program_counter;
        let addr = self.fetch_u16(pc);
        match mode {
            AddressingMode::Absolute => {
                self.program_counter = addr;
            },
            _ => {
                proof {
                    lemma_mask16(addr);
                }
                if addr & 0x00FF == 0x00FF {
                    // the high byte comes from the start of the same page
                    let high = self.m_read(addr & 0xFF00);
                    let low = self.m_read(addr);
                    proof {
                        lemma_le16(low, high);
                    }
                    self.program_counter = ((high as u16) << 8) | (low as u16);
                } else {
                    self.program_counter = self.m_read_u16(addr);
                }
            },
        }
    }

    /// Runs the handler of `instruction`; returns the address of a refused
    /// store into program memory, if any.
    fn execute(&mut self, instruction: Instruction, mode: AddressingMode) -> (r: Option<u16>)
        requires
            mode_fits(instruction, mode),
        ensures
            (final(self)@, r) == old(self)@.execute(instruction, mode),
    {
        proof {
            reveal(CpuView::execute);
        }
        match instruction {
            Instruction::Adc => {
                self.adc(mode);
                None
            },
            Instruction::Anc => {
                self.anc(mode);
                None
            },
            Instruction::And => {
                self.and(mode);
                None
            },
            Instruction::Asl => self.asl(mode),
            Instruction::Bcc => {
                self.bcc();
                None
            },
            Instruction::Bcs => {
                self.bcs();
                None
            },
            Instruction::Beq => {
                self.beq();
                None
            },
            Instruction::Bit => {
                self.bit(mode);
                None
            },
            Instruction::Bmi => {
                self.bmi();
                None
            },
            Instruction::Bne => {
                self.bne();
                None
            },
            Instruction::Bpl => {
                self.bpl();
                None
            },
            Instruction::Bvc => {
                self.bvc();
                None
            },
            Instruction::Bvs => {
                self.bvs();
                None
            },
            Instruction::Clc => {
                self.clc();
                None
            },
            Instruction::Cld => {
                self.cld();
                None
            },
            Instruction::Cli => {
                self.cli();
                None
            },
            Instruction::Clv => {
                self.clv();
                None
            },
            Instruction::Cmp => {
                self.cmp(mode);
                None
            },
            Instruction::Cpx => {
                self.cpx(mode);
                None
            },
            Instruction::Cpy => {
                self.cpy(mode);
                None
            },
            Instruction::Dec => self.dec(mode),
            Instruction::Dex => {
                self.dex();
                None
            },
            Instruction::Dey => {
                self.dey();
                None
            },
            Instruction::Eor => {
                self.eor(mode);
                None
            },
            Instruction::Inc => self.inc(mode),
            Instruction::Inx => {
                self.inx();
                None
            },
            Instruction::Iny => {
                self.iny();
                None
            },
            Instruction::Jmp => {
                self.jmp(mode);
                None
            },
            Instruction::Jsr => {
                self.jsr();
                None
            },
            Instruction::Lda => {
                self.lda(mode);
                None
            },
            Instruction::Ldx => {
                self.ldx(mode);
                None
            },
            Instruction::Ldy => {
                self.ldy(mode);
                None
            },
            Instruction::Lsr => self.lsr(mode),
            Instruction::Nop => {
                self.nop();
                None
            },
            Instruction::Ora => {
                self.ora(mode);
                None
            },
            Instruction::Pha => {
                self.pha();
                None
            },
            Instruction::Php => {
                self.php();
                None
            },
            Instruction::Pla => {
                self.pla();
                None
            },
            Instruction::Plp => {
                self.plp();
                None
            },
            Instruction::Rol => self.rol(mode),
            Instruction::Ror => self.ror(mode),
            Instruction::Rti => {
                self.rti();
                None
            },
            Instruction::Rts => {
                self.rts();
                None
            },
            Instruction::Sbc => {
                self.sbc(mode);
                None
            },
            Instruction::Sec => {
                self.sec();
                None
            },
            Instruction::Sed => {
                self.sed();
                None
            },
            Instruction::Sei => {
                self.sei();
                None
            },
            Instruction::Sta => self.sta(mode),
            Instruction::Stx => self.stx(mode),
            Instruction::Sty => self.sty(mode),
            Instruction::Tax => {
                self.tax();
                None
            },
            Instruction::Tay => {
                self.tay();
                None
            },
            Instruction::Tsx => {
                self.tsx();
                None
            },
            Instruction::Txa => {
                self.txa();
                None
            },
            Instruction::Txs => {
                self.txs();
                None
            },
            Instruction::Tya => {
                self.tya();
                None
            },
            Instruction::Brk => None,
        }
    }

    /// One fetch-decode-execute cycle. Returns why execution stops here, if
    /// it does: a break, an opcode byte with no descriptor, or a store into
    /// program memory.
    pub fn step(&mut self) -> (r: Option<Halt>)
        ensures
            (final(self)@, r) == old(self)@.step(),
    {
        let pc = self.program_counter;
        let code = self.m_read(pc);
        self.program_counter = self.program_counter.wrapping_add(1);
        let pc_state = self.program_counter;
        match decode(code) {
            None => Some(Halt::UnknownOpcode(code)),
            Some(opcode) => {
                if opcode.instruction == Instruction::Brk {
                    return Some(Halt::Break);
                }
                match self.execute(opcode.instruction, opcode.mode) {
                    Some(addr) => Some(Halt::ProgramMemoryWrite(addr)),
                    None => {
                        if pc_state == self.program_counter {
                            self.program_counter = self.program_counter.wrapping_add(
                                (opcode.bytes - 1) as u16,
                            );
                        }
                        None
                    },
                }
            },
        }
    }

    /// Runs at most `max_steps` instructions, stopping at the first halt.
    pub fn run_steps(&mut self, max_steps: u64) -> (r: Halt)
        ensures
            (final(self)@, r) == old(self)@.run(max_steps as nat),
    {
        let mut left = max_steps;
        while left > 0
            invariant
                old(self)@.run(max_steps as nat) == self@.run(left as nat),
            decreases left,
        {
            match self.step() {
                Some(halt) => {
                    return halt;
                },
                None => {},
            }
            left = left - 1;
        }
        Halt::StepLimit
    }

    /// Runs until a break, an unknown opcode or a store into program memory
    /// stops execution (or, at the latest, after `u64::MAX` instructions).
    pub fn run(&mut self) -> (r: Halt)
        ensures
            (final(self)@, r) == old(self)@.run(u64::MAX as nat),
    {
        self.run_steps(u64::MAX)
    }

    /// Puts the registers back to their power-on values and loads the
    /// program counter from the reset vector.
    pub fn reset(&mut self)
        ensures
            final(self)@ == old(self)@.reset(),
    {
        self.register_a = 0;
        self.register_x = 0;
        self.register_y = 0;
        self.stack_pointer = STACK_RESET;
        self.status_register = CpuFlags::from_bits_truncate(STATUS_RESET);
        self.program_counter = self.m_read_u16(RESET_VECTOR);
    }

    /// Loads `program` at 0x8000 and points the reset vector at it.
    pub fn load(&mut self, program: Vec<u8>)
        requires
            program.len() <= 0x7FFC,
        ensures
            final(self)@ == loaded(old(self)@, program@),
    {
        self.bus.load_program(&program);
    }

    pub fn load_and_run(&mut self, program: Vec<u8>) -> (r: Halt)
        requires
            program.len() <= 0x7FFC,
        ensures
            (final(self)@, r) == loaded(old(self)@, program@).reset().run(u64::MAX as nat),
    {
        self.load(program);
        self.reset();
        self.run()
    }
}

} // verus!
