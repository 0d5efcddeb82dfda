//! The processor: registers, memory, and the execution of one instruction
//! at a time.

use vstd::prelude::*;
use crate::alu;
use crate::bit;
use crate::instruction::{lemma_opcode_map, Instruction, Reg};
use crate::machine::{Machine, PortRequest};
use crate::memory::{Memory, ADDRESS_SPACE};
use crate::register::{Flags, Register};

verus! {

/// An Intel 8080 with the memory it drives.
///
/// Between steps the host may read and change every field, as long as the
/// memory keeps a cell for every address.
pub struct Cpu<M: Memory> {
    pub register: Register,
    pub memory: M,
    /// Set by HLT, cleared by an interrupt. A halted processor runs nothing.
    pub halted: bool,
    /// Whether an interrupt request is taken.
    pub interrupts_enabled: bool,
}

impl<M: Memory> View for Cpu<M> {
    type V = Machine;

    open spec fn view(&self) -> Machine {
        Machine {
            register: self.register,
            memory: self.memory@,
            halted: self.halted,
            interrupts_enabled: self.interrupts_enabled,
        }
    }
}

impl<M: Memory> Cpu<M> {
    /// The memory has a cell for every address.
    pub open spec fn wf(&self) -> bool {
        self@.wf()
    }

    /// Returns a processor in its power-up state that drives `memory`:
    /// registers reset, running, interrupts disabled.
    pub fn new(memory: M) -> (cpu: Self)
        requires
            memory@.len() == ADDRESS_SPACE,
        ensures
            cpu.wf(),
            cpu.memory == memory,
            cpu@ == (Machine {
                register: Register::initial(),
                memory: memory@,
                halted: false,
                interrupts_enabled: false,
            }),
    {
        Cpu { register: Register::new(), memory, halted: false, interrupts_enabled: false }
    }

    /// Resets the registers to their power-up state. The memory, a halt and
    /// the interrupt switch are left as they are.
    pub fn reset(&mut self)
        ensures
            final(self)@ == old(self)@.with_register(Register::initial()),
    {
        self.register = Register::new();
    }
}

// Arithmetic group.
impl<M: Memory> Cpu<M> {
    /// ADD, ADI: adds `value` to the accumulator. The carry tells whether
    /// the sum passed 255, and the low nibble of the accumulator is that of
    /// the sum.
    pub fn alu_add(&mut self, value: u8)
        ensures
            final(self)@ == old(self)@.with_register(alu::spec_add(old(self).register, value)),
            final(self).register.flag(Flags::Carry) == (old(self).register.a + value > 255),
            final(self).register.a & 0x0f == (old(self).register.a + value) % 16,
    {
        reveal(alu::add_with_carry);
        let a = self.register.a;
        let result = a.wrapping_add(value);
        proof {
            bit::lemma_nibble_bounds(a);
            bit::lemma_nibble_bounds(value);
            alu::lemma_add(self.register, value);
        }
        self.register.set_flag(Flags::Zero, result == 0x00);
        self.register.set_flag(Flags::Sign, bit::get(result, 7));
        self.register.set_flag(Flags::Parity, alu::parity(result));
        self.register.set_flag(Flags::AC, (a & 0x0f) + (value & 0x0f) > 0x0f);
        self.register.set_flag(Flags::Carry, (a as u16) + (value as u16) > 0xff);
        self.register.a = result;
    }

    /// ADC, ACI: adds `value` and the carry to the accumulator.
    pub fn alu_adc(&mut self, value: u8)
        ensures
            final(self)@ == old(self)@.with_register(alu::spec_adc(old(self).register, value)),
    {
        reveal(alu::add_with_carry);
        let a = self.register.a;
        let c: u8 = if self.register.get_flag(Flags::Carry) { 1 } else { 0 };
        let result = a.wrapping_add(value).wrapping_add(c);
        proof {
            bit::lemma_nibble_bounds(a);
            bit::lemma_nibble_bounds(value);
        }
        self.register.set_flag(Flags::Zero, result == 0x00);
        self.register.set_flag(Flags::Sign, bit::get(result, 7));
        self.register.set_flag(Flags::Parity, alu::parity(result));
        self.register.set_flag(Flags::AC, (a & 0x0f) + (value & 0x0f) + c > 0x0f);
        self.register.set_flag(Flags::Carry, (a as u16) + (value as u16) + (c as u16) > 0xff);
        self.register.a = result;
    }

    /// SUB, SUI: subtracts `value` from the accumulator.
    pub fn alu_sub(&mut self, value: u8)
        ensures
            final(self)@ == old(self)@.with_register(alu::spec_sub(old(self).register, value)),
    {
        reveal(alu::sub_with_borrow);
        let a = self.register.a;
        let result = a.wrapping_sub(value);
        self.register.set_flag(Flags::Zero, result == 0x00);
        self.register.set_flag(Flags::Sign, bit::get(result, 7));
        self.register.set_flag(Flags::Parity, alu::parity(result));
        self.register.set_flag(Flags::AC, (a & 0x0f) >= (value & 0x0f));
        self.register.set_flag(Flags::Carry, a < value);
        self.register.a = result;
    }

    /// SBB, SBI: subtracts `value` and the carry from the accumulator.
    pub fn alu_sbb(&mut self, value: u8)
        ensures
            final(self)@ == old(self)@.with_register(alu::spec_sbb(old(self).register, value)),
    {
        reveal(alu::sub_with_borrow);
        let a = self.register.a;
        let c: u8 = if self.register.get_flag(Flags::Carry) { 1 } else { 0 };
        let result = a.wrapping_sub(value).wrapping_sub(c);
        proof {
            bit::lemma_nibble_bounds(value);
        }
        self.register.set_flag(Flags::Zero, result == 0x00);
        self.register.set_flag(Flags::Sign, bit::get(result, 7));
        self.register.set_flag(Flags::Parity, alu::parity(result));
        self.register.set_flag(Flags::AC, (a & 0x0f) >= (value & 0x0f) + c);
        self.register.set_flag(Flags::Carry, (a as u16) < (value as u16) + (c as u16));
        self.register.a = result;
    }

    /// INR: sets the flags for the increment of `value` and returns
    /// `value + 1`. The carry is not affected.
    pub fn alu_inr(&mut self, value: u8) -> (result: u8)
        ensures
            result == alu::incremented(value),
            final(self)@ == old(self)@.with_register(alu::spec_inr(old(self).register, value)),
    {
        reveal(alu::spec_inr);
        let result = value.wrapping_add(1);
        self.register.set_flag(Flags::Zero, result == 0x00);
        self.register.set_flag(Flags::Sign, bit::get(result, 7));
        self.register.set_flag(Flags::Parity, alu::parity(result));
        self.register.set_flag(Flags::AC, (value & 0x0f) == 0x0f);
        result
    }

    /// DCR: sets the flags for the decrement of `value` and returns
    /// `value - 1`. The carry is not affected.
    pub fn alu_dcr(&mut self, value: u8) -> (result: u8)
        ensures
            result == alu::decremented(value),
            final(self)@ == old(self)@.with_register(alu::spec_dcr(old(self).register, value)),
    {
        reveal(alu::spec_dcr);
        let result = value.wrapping_sub(1);
        self.register.set_flag(Flags::Zero, result == 0x00);
        self.register.set_flag(Flags::Sign, bit::get(result, 7));
        self.register.set_flag(Flags::Parity, alu::parity(result));
        self.register.set_flag(Flags::AC, (value & 0x0f) != 0x00);
        result
    }

    /// DAD: adds `value` to HL. Only the carry is affected.
    pub fn alu_dad(&mut self, value: u16)
        ensures
            final(self)@ == old(self)@.with_register(alu::spec_dad(old(self).register, value)),
    {
        reveal(alu::spec_dad);
        let hl = self.register.get_hl();
        let result = hl.wrapping_add(value);
        self.register.set_hl(result);
        self.register.set_flag(Flags::Carry, hl > 0xffff - value);
    }

    /// DAA: corrects the accumulator to two decimal digits.
    pub fn alu_daa(&mut self)
        ensures
            final(self)@ == old(self)@.with_register(alu::spec_daa(old(self).register)),
    {
        reveal(alu::spec_daa);
        let mut to_add: u8 = 0;
        let mut carry = self.register.get_flag(Flags::Carry);
        let low = self.register.a & 0x0f;
        let high = self.register.a >> 4;

        if (low > 9) || self.register.get_flag(Flags::AC) {
            to_add += 0x06;
        }
        if (high > 9) || self.register.get_flag(Flags::Carry) || ((high >= 9) && (low > 9)) {
            to_add += 0x60;
            carry = true;
        }
        self.alu_add(to_add);
        self.register.set_flag(Flags::Carry, carry);
    }
}

// Logical group.
impl<M: Memory> Cpu<M> {
    /// ANA, ANI: ANDs `value` into the accumulator.
    pub fn alu_ana(&mut self, value: u8)
        ensures
            final(self)@ == old(self)@.with_register(alu::spec_ana(old(self).register, value)),
    {
        reveal(alu::spec_ana);
        let a = self.register.a;
        let result = a & value;
        self.register.set_flag(Flags::Zero, result == 0x00);
        self.register.set_flag(Flags::Sign, bit::get(result, 7));
        self.register.set_flag(Flags::Parity, alu::parity(result));
        self.register.set_flag(Flags::AC, ((a | value) >> 3) & 1 == 1);
        self.register.set_flag(Flags::Carry, false);
        self.register.a = result;
    }

    /// XRA, XRI: XORs `value` into the accumulator.
    pub fn alu_xra(&mut self, value: u8)
        ensures
            final(self)@ == old(self)@.with_register(alu::spec_xra(old(self).register, value)),
    {
        reveal(alu::spec_xra);
        let a = self.register.a;
        let result = a ^ value;
        self.register.set_flag(Flags::Zero, result == 0x00);
        self.register.set_flag(Flags::Sign, bit::get(result, 7));
        self.register.set_flag(Flags::Parity, alu::parity(result));
        self.register.set_flag(Flags::AC, false);
        self.register.set_flag(Flags::Carry, false);
        self.register.a = result;
    }

    /// ORA, ORI: ORs `value` into the accumulator.
    pub fn alu_ora(&mut self, value: u8)
        ensures
            final(self)@ == old(self)@.with_register(alu::spec_ora(old(self).register, value)),
    {
        reveal(alu::spec_ora);
        let a = self.register.a;
        let result = a | value;
        self.register.set_flag(Flags::Zero, result == 0x00);
        self.register.set_flag(Flags::Sign, bit::get(result, 7));
        self.register.set_flag(Flags::Parity, alu::parity(result));
        self.register.set_flag(Flags::AC, false);
        self.register.set_flag(Flags::Carry, false);
        self.register.a = result;
    }

    /// CMP, CPI: sets the flags as the subtraction of `value` from the
    /// accumulator does, and leaves the accumulator as it is. Zero is set
    /// exactly when the two are equal, the carry exactly when the
    /// accumulator is the smaller.
    pub fn alu_cmp(&mut self, value: u8)
        ensures
            final(self)@ == old(self)@.with_register(
                alu::spec_compare(old(self).register, value),
            ),
            final(self).register.a == old(self).register.a,
            final(self).register.flag(Flags::Zero) == (old(self).register.a == value),
            final(self).register.flag(Flags::Carry) == (old(self).register.a < value),
    {
        proof {
            alu::lemma_compare(self.register, value);
        }
        let a = self.register.a;
        self.alu_sub(value);
        self.register.a = a;
    }

    /// RLC: rotates the accumulator left.
    pub fn alu_rlc(&mut self)
        ensures
            final(self)@ == old(self)@.with_register(alu::spec_rlc(old(self).register)),
    {
        reveal(alu::spec_rlc);
        let msb = bit::get(self.register.a, 7);
        self.register.set_flag(Flags::Carry, msb);
        self.register.a = (self.register.a << 1) | (if msb { 1 } else { 0 });
    }

    /// RRC: rotates the accumulator right.
    pub fn alu_rrc(&mut self)
        ensures
            final(self)@ == old(self)@.with_register(alu::spec_rrc(old(self).register)),
    {
        reveal(alu::spec_rrc);
        let lsb = bit::get(self.register.a, 0);
        self.register.set_flag(Flags::Carry, lsb);
        self.register.a = ((if lsb { 1 } else { 0 }) << 7) | (self.register.a >> 1);
    }

    /// RAL: rotates the accumulator left through the carry.
    pub fn alu_ral(&mut self)
        ensures
            final(self)@ == old(self)@.with_register(alu::spec_ral(old(self).register)),
    {
        reveal(alu::spec_ral);
        let msb = bit::get(self.register.a, 7);
        let carry: u8 = if self.register.get_flag(Flags::Carry) { 1 } else { 0 };
        self.register.a = (self.register.a << 1) | carry;
        self.register.set_flag(Flags::Carry, msb);
    }

    /// RAR: rotates the accumulator right through the carry.
    pub fn alu_rar(&mut self)
        ensures
            final(self)@ == old(self)@.with_register(alu::spec_rar(old(self).register)),
    {
        reveal(alu::spec_rar);
        let lsb = bit::get(self.register.a, 0);
        let carry: u8 = if self.register.get_flag(Flags::Carry) { 1 } else { 0 };
        self.register.a = (carry << 7) | (self.register.a >> 1);
        self.register.set_flag(Flags::Carry, lsb);
    }

    /// CMA: complements the accumulator.
    pub fn alu_cma(&mut self)
        ensures
            final(self)@ == old(self)@.with_register(alu::spec_cma(old(self).register)),
    {
        reveal(alu::spec_cma);
        self.register.a = !self.register.a;
    }

    /// CMC: complements the carry.
    pub fn alu_cmc(&mut self)
        ensures
            final(self)@ == old(self)@.with_register(alu::spec_cmc(old(self).register)),
    {
        reveal(alu::spec_cmc);
        let carry = self.register.get_flag(Flags::Carry);
        self.register.set_flag(Flags::Carry, !carry);
    }

    /// STC: sets the carry.
    pub fn alu_stc(&mut self)
        ensures
            final(self)@ == old(self)@.with_register(alu::spec_stc(old(self).register)),
    {
        reveal(alu::spec_stc);
        self.register.set_flag(Flags::Carry, true);
    }
}

// Data transfer group.
impl<M: Memory> Cpu<M> {
    /// LDA: loads the accumulator from the address that follows the opcode.
    pub fn alu_lda(&mut self)
        requires
            old(self).wf(),
        ensures
            final(self).wf(),
            final(self)@ == old(self)@.lda(),
    {
        let word = self.get_next_word() as usize;
        let value = self.memory.get(word);
        self.register.a = value;
    }

    /// STA: stores the accumulator at the address that follows the opcode.
    pub fn alu_sta(&mut self)
        requires
            old(self).wf(),
        ensures
            final(self).wf(),
            final(self)@ == old(self)@.sta(),
    {
        let value = self.register.a;
        let idx = self.get_next_word() as usize;
        self.memory.set(idx, value);
    }

    /// LHLD: loads HL from the address that follows the opcode.
    pub fn alu_lhld(&mut self)
        requires
            old(self).wf(),
        ensures
            final(self).wf(),
            final(self)@ == old(self)@.lhld(),
    {
        let index = self.get_next_word() as usize;
        let value = self.memory.get_word(index);
        self.register.set_hl(value);
    }

    /// SHLD: stores HL at the address that follows the opcode.
    pub fn alu_shld(&mut self)
        requires
            old(self).wf(),
        ensures
            final(self).wf(),
            final(self)@ == old(self)@.shld(),
    {
        let index = self.get_next_word() as usize;
        let value = self.register.get_hl();
        self.memory.set_word(index, value);
    }

    /// LDAX: loads the accumulator from `index`.
    pub fn alu_ldax(&mut self, index: u16)
        requires
            old(self).wf(),
        ensures
            final(self).wf(),
            final(self)@ == old(self)@.ldax(index),
    {
        let index = index as usize;
        self.register.a = self.memory.get(index);
    }

    /// STAX: stores the accumulator at `index`.
    pub fn alu_stax(&mut self, index: u16)
        requires
            old(self).wf(),
        ensures
            final(self).wf(),
            final(self)@ == old(self)@.stax(index),
    {
        self.memory.set(index as usize, self.register.a);
    }

    /// XCHG: exchanges HL with DE.
    pub fn alu_xchg(&mut self)
        ensures
            final(self)@ == old(self)@.with_register(alu::spec_xchg(old(self).register)),
    {
        let h = self.register.h;
        let l = self.register.l;
        self.register.h = self.register.d;
        self.register.l = self.register.e;
        self.register.d = h;
        self.register.e = l;
    }
}

// Branch group.
impl<M: Memory> Cpu<M> {
    /// JMP and the conditional jumps: reads the target that follows the
    /// opcode, and goes there if `condition` holds.
    pub fn alu_jmp(&mut self, condition: bool)
        requires
            old(self).wf(),
        ensures
            final(self).wf(),
            final(self)@ == old(self)@.jmp(condition),
    {
        let pos = self.get_next_word();
        if condition {
            self.register.pc = pos;
        }
    }

    /// CALL and the conditional calls: reads the target that follows the
    /// opcode and, if `condition` holds, pushes the return address and goes
    /// there.
    pub fn alu_call(&mut self, condition: bool)
        requires
            old(self).wf(),
        ensures
            final(self).wf(),
            final(self)@ == old(self)@.call(condition),
    {
        let pos = self.get_next_word();
        if condition {
            self.stack_push(self.register.pc);
            self.register.pc = pos;
        }
    }

    /// RET and the conditional returns: if `condition` holds, pops the
    /// program counter off the stack.
    pub fn alu_ret(&mut self, condition: bool)
        requires
            old(self).wf(),
        ensures
            final(self).wf(),
            final(self)@ == old(self)@.ret(condition),
    {
        if condition {
            self.register.pc = self.stack_pop();
        }
    }

    /// RST: pushes the program counter and goes to 8 times `value`.
    pub fn alu_rst(&mut self, value: u16)
        requires
            old(self).wf(),
            value < 8,
        ensures
            final(self).wf(),
            final(self)@ == old(self)@.rst(value),
    {
        self.stack_push(self.register.pc);
        self.register.pc = value * 8;
    }
}

// Stack group.
impl<M: Memory> Cpu<M> {
    /// XTHL: exchanges HL with the word on top of the stack.
    pub fn alu_xthl(&mut self)
        requires
            old(self).wf(),
        ensures
            final(self).wf(),
            final(self)@ == old(self)@.xthl(),
    {
        let sp = self.memory.get_word(self.register.sp as usize);
        let hl = self.register.get_hl();

        self.register.set_hl(sp);
        self.memory.set_word(self.register.sp as usize, hl);
    }
}

// Stack and memory access.
impl<M: Memory> Cpu<M> {
    /// Pushes `value`: the stack pointer goes down by two and the word is
    /// stored where it then points.
    pub fn stack_push(&mut self, value: u16)
        requires
            old(self).wf(),
        ensures
            final(self).wf(),
            final(self)@ == old(self)@.push(value),
    {
        self.register.sp = self.register.sp.wrapping_sub(2);
        self.memory.set_word(self.register.sp as usize, value);
    }

    /// Pops a word: reads it where the stack pointer points, which then goes
    /// up by two.
    pub fn stack_pop(&mut self) -> (value: u16)
        requires
            old(self).wf(),
        ensures
            final(self).wf(),
            value == old(self)@.top(),
            final(self)@ == old(self)@.drop_top(),
    {
        let result = self.memory.get_word(self.register.sp as usize);
        self.register.sp = self.register.sp.wrapping_add(2);
        result
    }

    /// Writes `value` to the memory cell that HL addresses.
    pub fn set_m(&mut self, value: u8)
        requires
            old(self).wf(),
        ensures
            final(self).wf(),
            final(self)@ == old(self)@.with_reg(Reg::M, value),
    {
        let index = self.register.get_hl();
        self.memory.set(index as usize, value);
    }

    /// Reads the memory cell that HL addresses.
    pub fn get_m(&self) -> (value: u8)
        requires
            self.wf(),
        ensures
            value == self@.m(),
    {
        let index = self.register.get_hl();
        self.memory.get(index as usize)
    }

    /// Reads the byte at the program counter, which then goes up by one.
    pub fn get_next_byte(&mut self) -> (value: u8)
        requires
            old(self).wf(),
        ensures
            final(self).wf(),
            value == old(self)@.next_byte(),
            final(self)@ == old(self)@.advance(1),
    {
        let value = self.memory.get(self.register.pc as usize);
        self.register.pc = self.register.pc.wrapping_add(1);
        value
    }

    /// Reads the little-endian word at the program counter, which then goes
    /// up by two.
    pub fn get_next_word(&mut self) -> (value: u16)
        requires
            old(self).wf(),
        ensures
            final(self).wf(),
            value == old(self)@.next_word(),
            final(self)@ == old(self)@.advance(2),
    {
        let value = self.memory.get_word(self.register.pc as usize);
        self.register.pc = self.register.pc.wrapping_add(2);
        value
    }
}

// The opcode table, one block of 64 opcodes to a function.
impl<M: Memory> Cpu<M> {
    /// The opcodes 0x00 to 0x3f: loads and stores, 16-bit arithmetic,
    /// increments and decrements, rotates and the carry.
    fn execute_00(&mut self, opcode: u8)
        requires
            old(self).wf(),
            opcode <= 0x3f,
        ensures
            forall|input: u8| final(self)@ == #[trigger] old(self)@.execute(opcode, input),
            final(self).wf(),
    {
        proof {
            lemma_opcode_map();
        }
        match opcode {
            0x00 => {},
            0x01 => {
                let value = self.get_next_word();
                self.register.set_bc(value);
            },
            0x02 => self.alu_stax(self.register.get_bc()),
            0x03 => self.register.set_bc(self.register.get_bc().wrapping_add(1)),
            0x04 => self.register.b = self.alu_inr(self.register.b),
            0x05 => self.register.b = self.alu_dcr(self.register.b),
            0x06 => self.register.b = self.get_next_byte(),
            0x07 => self.alu_rlc(),
            0x08 => {},
            0x09 => self.alu_dad(self.register.get_bc()),
            0x0a => self.alu_ldax(self.register.get_bc()),
            0x0b => self.register.set_bc(self.register.get_bc().wrapping_sub(1)),
            0x0c => self.register.c = self.alu_inr(self.register.c),
            0x0d => self.register.c = self.alu_dcr(self.register.c),
            0x0e => self.register.c = self.get_next_byte(),
            0x0f => self.alu_rrc(),
            0x10 => {},
            0x11 => {
                let value = self.get_next_word();
                self.register.set_de(value);
            },
            0x12 => self.alu_stax(self.register.get_de()),
            0x13 => self.register.set_de(self.register.get_de().wrapping_add(1)),
            0x14 => self.register.d = self.alu_inr(self.register.d),
            0x15 => self.register.d = self.alu_dcr(self.register.d),
            0x16 => self.register.d = self.get_next_byte(),
            0x17 => self.alu_ral(),
            0x18 => {},
            0x19 => self.alu_dad(self.register.get_de()),
            0x1a => self.alu_ldax(self.register.get_de()),
            0x1b => self.register.set_de(self.register.get_de().wrapping_sub(1)),
            0x1c => self.register.e = self.alu_inr(self.register.e),
            0x1d => self.register.e = self.alu_dcr(self.register.e),
            0x1e => self.register.e = self.get_next_byte(),
            0x1f => self.alu_rar(),
            0x20 => {},
            0x21 => {
                let value = self.get_next_word();
                self.register.set_hl(value);
            },
            0x22 => self.alu_shld(),
            0x23 => self.register.set_hl(self.register.get_hl().wrapping_add(1)),
            0x24 => self.register.h = self.alu_inr(self.register.h),
            0x25 => self.register.h = self.alu_dcr(self.register.h),
            0x26 => self.register.h = self.get_next_byte(),
            0x27 => self.alu_daa(),
            0x28 => {},
            0x29 => self.alu_dad(self.register.get_hl()),
            0x2a => self.alu_lhld(),
            0x2b => self.register.set_hl(self.register.get_hl().wrapping_sub(1)),
            0x2c => self.register.l = self.alu_inr(self.register.l),
            0x2d => self.register.l = self.alu_dcr(self.register.l),
            0x2e => self.register.l = self.get_next_byte(),
            0x2f => self.alu_cma(),
            0x30 => {},
            0x31 => self.register.sp = self.get_next_word(),
            0x32 => self.alu_sta(),
            0x33 => self.register.sp = self.register.sp.wrapping_add(1),
            0x34 => {
                let m = self.alu_inr(self.get_m());
                self.set_m(m);
            },
            0x35 => {
                let m = self.alu_dcr(self.get_m());
                self.set_m(m);
            },
            0x36 => {
                let value = self.get_next_byte();
                self.set_m(value);
            },
            0x37 => self.alu_stc(),
            0x38 => {},
            0x39 => self.alu_dad(self.register.sp),
            0x3a => self.alu_lda(),
            0x3b => self.register.sp = self.register.sp.wrapping_sub(1),
            0x3c => self.register.a = self.alu_inr(self.register.a),
            0x3d => self.register.a = self.alu_dcr(self.register.a),
            0x3e => self.register.a = self.get_next_byte(),
            0x3f => self.alu_cmc(),
            _ => {},
        }
    }

    /// The opcodes 0x40 to 0x7f: the moves between 8-bit operands, and HLT.
    fn execute_40(&mut self, opcode: u8)
        requires
            old(self).wf(),
            0x40 <= opcode <= 0x7f,
        ensures
            forall|input: u8| final(self)@ == #[trigger] old(self)@.execute(opcode, input),
            final(self).wf(),
    {
        proof {
            lemma_opcode_map();
        }
        match opcode {
            0x40 => {},
            0x41 => self.register.b = self.register.c,
            0x42 => self.register.b = self.register.d,
            0x43 => self.register.b = self.register.e,
            0x44 => self.register.b = self.register.h,
            0x45 => self.register.b = self.register.l,
            0x46 => self.register.b = self.get_m(),
            0x47 => self.register.b = self.register.a,
            0x48 => self.register.c = self.register.b,
            0x49 => {},
            0x4a => self.register.c = self.register.d,
            0x4b => self.register.c = self.register.e,
            0x4c => self.register.c = self.register.h,
            0x4d => self.register.c = self.register.l,
            0x4e => self.register.c = self.get_m(),
            0x4f => self.register.c = self.register.a,
            0x50 => self.register.d = self.register.b,
            0x51 => self.register.d = self.register.c,
            0x52 => {},
            0x53 => self.register.d = self.register.e,
            0x54 => self.register.d = self.register.h,
            0x55 => self.register.d = self.register.l,
            0x56 => self.register.d = self.get_m(),
            0x57 => self.register.d = self.register.a,
            0x58 => self.register.e = self.register.b,
            0x59 => self.register.e = self.register.c,
            0x5a => self.register.e = self.register.d,
            0x5b => {},
            0x5c => self.register.e = self.register.h,
            0x5d => self.register.e = self.register.l,
            0x5e => self.register.e = self.get_m(),
            0x5f => self.register.e = self.register.a,
            0x60 => self.register.h = self.register.b,
            0x61 => self.register.h = self.register.c,
            0x62 => self.register.h = self.register.d,
            0x63 => self.register.h = self.register.e,
            0x64 => {},
            0x65 => self.register.h = self.register.l,
            0x66 => self.register.h = self.get_m(),
            0x67 => self.register.h = self.register.a,
            0x68 => self.register.l = self.register.b,
            0x69 => self.register.l = self.register.c,
            0x6a => self.register.l = self.register.d,
            0x6b => self.register.l = self.register.e,
            0x6c => self.register.l = self.register.h,
            0x6d => {},
            0x6e => self.register.l = self.get_m(),
            0x6f => self.register.l = self.register.a,
            0x70 => self.set_m(self.register.b),
            0x71 => self.set_m(self.register.c),
            0x72 => self.set_m(self.register.d),
            0x73 => self.set_m(self.register.e),
            0x74 => self.set_m(self.register.h),
            0x75 => self.set_m(self.register.l),
            0x76 => self.halted = true,
            0x77 => self.set_m(self.register.a),
            0x78 => self.register.a = self.register.b,
            0x79 => self.register.a = self.register.c,
            0x7a => self.register.a = self.register.d,
            0x7b => self.register.a = self.register.e,
            0x7c => self.register.a = self.register.h,
            0x7d => self.register.a = self.register.l,
            0x7e => self.register.a = self.get_m(),
            0x7f => {},
            _ => {},
        }
    }

    /// The opcodes 0x80 to 0xbf: the accumulator with a register or memory
    /// operand.
    fn execute_80(&mut self, opcode: u8)
        requires
            old(self).wf(),
            0x80 <= opcode <= 0xbf,
        ensures
            forall|input: u8| final(self)@ == #[trigger] old(self)@.execute(opcode, input),
            final(self).wf(),
    {
        proof {
            lemma_opcode_map();
        }
        match opcode {
            0x80 => self.alu_add(self.register.b),
            0x81 => self.alu_add(self.register.c),
            0x82 => self.alu_add(self.register.d),
            0x83 => self.alu_add(self.register.e),
            0x84 => self.alu_add(self.register.h),
            0x85 => self.alu_add(self.register.l),
            0x86 => self.alu_add(self.get_m()),
            0x87 => self.alu_add(self.register.a),
            0x88 => self.alu_adc(self.register.b),
            0x89 => self.alu_adc(self.register.c),
            0x8a => self.alu_adc(self.register.d),
            0x8b => self.alu_adc(self.register.e),
            0x8c => self.alu_adc(self.register.h),
            0x8d => self.alu_adc(self.register.l),
            0x8e => self.alu_adc(self.get_m()),
            0x8f => self.alu_adc(self.register.a),
            0x90 => self.alu_sub(self.register.b),
            0x91 => self.alu_sub(self.register.c),
            0x92 => self.alu_sub(self.register.d),
            0x93 => self.alu_sub(self.register.e),
            0x94 => self.alu_sub(self.register.h),
            0x95 => self.alu_sub(self.register.l),
            0x96 => self.alu_sub(self.get_m()),
            0x97 => self.alu_sub(self.register.a),
            0x98 => self.alu_sbb(self.register.b),
            0x99 => self.alu_sbb(self.register.c),
            0x9a => self.alu_sbb(self.register.d),
            0x9b => self.alu_sbb(self.register.e),
            0x9c => self.alu_sbb(self.register.h),
            0x9d => self.alu_sbb(self.register.l),
            0x9e => self.alu_sbb(self.get_m()),
            0x9f => self.alu_sbb(self.register.a),
            0xa0 => self.alu_ana(self.register.b),
            0xa1 => self.alu_ana(self.register.c),
            0xa2 => self.alu_ana(self.register.d),
            0xa3 => self.alu_ana(self.register.e),
            0xa4 => self.alu_ana(self.register.h),
            0xa5 => self.alu_ana(self.register.l),
            0xa6 => self.alu_ana(self.get_m()),
            0xa7 => self.alu_ana(self.register.a),
            0xa8 => self.alu_xra(self.register.b),
            0xa9 => self.alu_xra(self.register.c),
            0xaa => self.alu_xra(self.register.d),
            0xab => self.alu_xra(self.register.e),
            0xac => self.alu_xra(self.register.h),
            0xad => self.alu_xra(self.register.l),
            0xae => self.alu_xra(self.get_m()),
            0xaf => self.alu_xra(self.register.a),
            0xb0 => self.alu_ora(self.register.b),
            0xb1 => self.alu_ora(self.register.c),
            0xb2 => self.alu_ora(self.register.d),
            0xb3 => self.alu_ora(self.register.e),
            0xb4 => self.alu_ora(self.register.h),
            0xb5 => self.alu_ora(self.register.l),
            0xb6 => self.alu_ora(self.get_m()),
            0xb7 => self.alu_ora(self.register.a),
            0xb8 => self.alu_cmp(self.register.b),
            0xb9 => self.alu_cmp(self.register.c),
            0xba => self.alu_cmp(self.register.d),
            0xbb => self.alu_cmp(self.register.e),
            0xbc => self.alu_cmp(self.register.h),
            0xbd => self.alu_cmp(self.register.l),
            0xbe => self.alu_cmp(self.get_m()),
            0xbf => self.alu_cmp(self.register.a),
            _ => {},
        }
    }

    /// The opcodes 0xc0 to 0xff: branches, the stack, I/O, interrupt control
    /// and the accumulator with an immediate operand.
    fn execute_c0(&mut self, opcode: u8, input: u8)
        requires
            old(self).wf(),
            0xc0 <= opcode,
        ensures
            final(self)@ == old(self)@.execute(opcode, input),
            final(self).wf(),
    {
        proof {
            lemma_opcode_map();
        }
        match opcode {
            0xc0 => self.alu_ret(!self.register.get_flag(Flags::Zero)),
            0xc1 => {
                let value = self.stack_pop();
                self.register.set_bc(value);
            },
            0xc2 => self.alu_jmp(!self.register.get_flag(Flags::Zero)),
            0xc3 => self.alu_jmp(true),
            0xc4 => self.alu_call(!self.register.get_flag(Flags::Zero)),
            0xc5 => self.stack_push(self.register.get_bc()),
            0xc6 => {
                let value = self.get_next_byte();
                self.alu_add(value);
            },
            0xc7 => self.alu_rst(0),
            0xc8 => self.alu_ret(self.register.get_flag(Flags::Zero)),
            0xc9 => self.alu_ret(true),
            0xca => self.alu_jmp(self.register.get_flag(Flags::Zero)),
            0xcb => {},
            0xcc => self.alu_call(self.register.get_flag(Flags::Zero)),
            0xcd => self.alu_call(true),
            0xce => {
                let value = self.get_next_byte();
                self.alu_adc(value);
            },
            0xcf => self.alu_rst(1),
            0xd0 => self.alu_ret(!self.register.get_flag(Flags::Carry)),
            0xd1 => {
                let value = self.stack_pop();
                self.register.set_de(value);
            },
            0xd2 => self.alu_jmp(!self.register.get_flag(Flags::Carry)),
            0xd3 => {
                let _ = self.get_next_byte();
            },
            0xd4 => self.alu_call(!self.register.get_flag(Flags::Carry)),
            0xd5 => self.stack_push(self.register.get_de()),
            0xd6 => {
                let value = self.get_next_byte();
                self.alu_sub(value);
            },
            0xd7 => self.alu_rst(2),
            0xd8 => self.alu_ret(self.register.get_flag(Flags::Carry)),
            0xd9 => {},
            0xda => self.alu_jmp(self.register.get_flag(Flags::Carry)),
            0xdb => {
                let _ = self.get_next_byte();
                self.register.a = input;
            },
            0xdc => self.alu_call(self.register.get_flag(Flags::Carry)),
            0xdd => {},
            0xde => {
                let value = self.get_next_byte();
                self.alu_sbb(value);
            },
            0xdf => self.alu_rst(3),
            0xe0 => self.alu_ret(!self.register.get_flag(Flags::Parity)),
            0xe1 => {
                let value = self.stack_pop();
                self.register.set_hl(value);
            },
            0xe2 => self.alu_jmp(!self.register.get_flag(Flags::Parity)),
            0xe3 => self.alu_xthl(),
            0xe4 => self.alu_call(!self.register.get_flag(Flags::Parity)),
            0xe5 => self.stack_push(self.register.get_hl()),
            0xe6 => {
                let value = self.get_next_byte();
                self.alu_ana(value);
            },
            0xe7 => self.alu_rst(4),
            0xe8 => self.alu_ret(self.register.get_flag(Flags::Parity)),
            0xe9 => self.register.pc = self.register.get_hl(),
            0xea => self.alu_jmp(self.register.get_flag(Flags::Parity)),
            0xeb => self.alu_xchg(),
            0xec => self.alu_call(self.register.get_flag(Flags::Parity)),
            0xed => {},
            0xee => {
                let value = self.get_next_byte();
                self.alu_xra(value);
            },
            0xef => self.alu_rst(5),
            0xf0 => self.alu_ret(!self.register.get_flag(Flags::Sign)),
            0xf1 => {
                let value = self.stack_pop();
                self.register.set_af(value);
            },
            0xf2 => self.alu_jmp(!self.register.get_flag(Flags::Sign)),
            0xf3 => self.interrupts_enabled = false,
            0xf4 => self.alu_call(!self.register.get_flag(Flags::Sign)),
            0xf5 => self.stack_push(self.register.status_word()),
            0xf6 => {
                let value = self.get_next_byte();
                self.alu_ora(value);
            },
            0xf7 => self.alu_rst(6),
            0xf8 => self.alu_ret(self.register.get_flag(Flags::Sign)),
            0xf9 => self.register.sp = self.register.get_hl(),
            0xfa => self.alu_jmp(self.register.get_flag(Flags::Sign)),
            0xfb => self.interrupts_enabled = true,
            0xfc => self.alu_call(self.register.get_flag(Flags::Sign)),
            0xfd => {},
            0xfe => {
                let value = self.get_next_byte();
                self.alu_cmp(value);
            },
            0xff => self.alu_rst(7),
            _ => {},
        }
    }
}

// Decoding and the host's interface.
impl<M: Memory> Cpu<M> {
    /// Runs the instruction that `opcode` stands for. The opcode itself has
    /// been fetched already: the program counter points at what follows it.
    /// `input` is the byte that the bus delivers if the instruction is IN.
    /// An opcode outside the published set does nothing.
    pub fn execute(&mut self, opcode: u8, input: u8)
        requires
            old(self).wf(),
        ensures
            final(self)@ == old(self)@.execute(opcode, input),
            final(self).wf(),
    {
        match opcode {
            0x00..=0x3f => self.execute_00(opcode),
            0x40..=0x7f => self.execute_40(opcode),
            0x80..=0xbf => self.execute_80(opcode),
            _ => self.execute_c0(opcode, input),
        }
    }

    /// Runs one instruction with `input` as the byte that the bus delivers
    /// if the instruction is IN. A halted processor does nothing.
    pub fn next_with_input(&mut self, input: u8)
        requires
            old(self).wf(),
        ensures
            final(self)@ == old(self)@.step(input),
            final(self).wf(),
    {
        if !self.halted {
            let opcode = self.get_next_byte();
            self.execute(opcode, input);
        }
    }

    /// Runs one instruction with no bus attached: IN reads 0 and OUT is
    /// discarded. A halted processor does nothing.
    pub fn next(&mut self)
        requires
            old(self).wf(),
        ensures
            final(self)@ == old(self)@.step(0),
            final(self).wf(),
    {
        self.next_with_input(0);
    }

    /// Requests an interrupt that supplies `opcode`, most often an RST.
    /// Returns whether it was taken, which is whether interrupts were
    /// enabled. A request that is taken disables interrupts, ends a halt
    /// and runs the opcode without fetching it, with no bus attached.
    pub fn interrupt(&mut self, opcode: u8) -> (accepted: bool)
        requires
            old(self).wf(),
        ensures
            accepted == old(self).interrupts_enabled,
            final(self)@ == old(self)@.interrupt(opcode),
            final(self).wf(),
    {
        if self.interrupts_enabled {
            self.interrupts_enabled = false;
            self.halted = false;
            self.execute(opcode, 0);
            true
        } else {
            false
        }
    }

    /// Returns what the next step asks of the I/O bus. For a read, the host
    /// fetches the byte from the port and hands it to `next_with_input`; for
    /// a write, it sends the value to the port and then steps.
    pub fn port_request(&self) -> (request: PortRequest)
        requires
            self.wf(),
        ensures
            request == self@.port_request(),
    {
        if self.halted {
            PortRequest::Idle
        } else {
            let pc = self.register.pc;
            let opcode = self.memory.get(pc as usize);
            match Instruction::decode(opcode) {
                Instruction::In => PortRequest::Read {
                    port: self.memory.get(pc.wrapping_add(1) as usize),
                },
                Instruction::Out => PortRequest::Write {
                    port: self.memory.get(pc.wrapping_add(1) as usize),
                    value: self.register.a,
                },
                _ => PortRequest::Idle,
            }
        }
    }
}

} // verus!
