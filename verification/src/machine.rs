//! The processor as a mathematical object: its whole state as one value,
//! and the state that each instruction leaves.

use vstd::prelude::*;
use crate::alu;
use crate::instruction::{decode, AluOp, Condition, Instruction, Reg, RegPair, StackPair};
use crate::memory::{store_word, word_at};
use crate::register::{normalized, Flags, Register};
use crate::word;

verus! {

/// The state of the processor and its memory.
pub ghost struct Machine {
    pub register: Register,
    /// The memory cells, indexed by address.
    pub memory: Seq<u8>,
    /// Set by HLT, cleared by an interrupt.
    pub halted: bool,
    /// Set by EI, cleared by DI and by an interrupt that is taken.
    pub interrupts_enabled: bool,
}

/// What the instruction about to run asks of the I/O bus.
#[derive(Clone, Copy, Debug, PartialEq, Eq, Structural)]
pub enum PortRequest {
    /// Nothing: the instruction is neither IN nor OUT, or the processor is
    /// halted.
    Idle,
    /// IN: the bus is to deliver the byte of `port`.
    Read { port: u8 },
    /// OUT: the bus is to take `value` for `port`.
    Write { port: u8, value: u8 },
}

impl Machine {
    /// Every address has a cell.
    pub open spec fn wf(self) -> bool {
        self.memory.len() == 0x10000
    }

    /// The machine with the registers `register`.
    pub open spec fn with_register(self, register: Register) -> Machine {
        Machine { register, ..self }
    }

    /// The machine with the memory cells `memory`.
    pub open spec fn with_memory(self, memory: Seq<u8>) -> Machine {
        Machine { memory, ..self }
    }

    /// The machine with the accumulator holding `value`.
    pub open spec fn with_a(self, value: u8) -> Machine {
        self.with_register(Register { a: value, ..self.register })
    }

    /// The machine with the program counter at `address`.
    pub open spec fn with_pc(self, address: u16) -> Machine {
        self.with_register(Register { pc: address, ..self.register })
    }

    /// The machine with the stack pointer at `address`.
    pub open spec fn with_sp(self, address: u16) -> Machine {
        self.with_register(Register { sp: address, ..self.register })
    }

    /// The machine with the program counter `count` bytes further on,
    /// wrapping at the end of the address space.
    pub open spec fn advance(self, count: u16) -> Machine {
        self.with_pc(self.register.pc.wrapping_add(count))
    }

    /// The byte at the program counter.
    pub open spec fn next_byte(self) -> u8 {
        self.memory[self.register.pc as int]
    }

    /// The little-endian word at the program counter.
    pub open spec fn next_word(self) -> u16 {
        word_at(self.memory, self.register.pc as int)
    }

    /// The memory cell that HL addresses.
    pub open spec fn m(self) -> u8 {
        self.memory[self.register.hl() as int]
    }

    /// The value of an 8-bit operand.
    pub open spec fn reg(self, reg: Reg) -> u8 {
        match reg {
            Reg::B => self.register.b,
            Reg::C => self.register.c,
            Reg::D => self.register.d,
            Reg::E => self.register.e,
            Reg::H => self.register.h,
            Reg::L => self.register.l,
            Reg::M => self.m(),
            Reg::A => self.register.a,
        }
    }

    /// The machine with an 8-bit operand holding `value`.
    pub open spec fn with_reg(self, reg: Reg, value: u8) -> Machine {
        match reg {
            Reg::B => self.with_register(Register { b: value, ..self.register }),
            Reg::C => self.with_register(Register { c: value, ..self.register }),
            Reg::D => self.with_register(Register { d: value, ..self.register }),
            Reg::E => self.with_register(Register { e: value, ..self.register }),
            Reg::H => self.with_register(Register { h: value, ..self.register }),
            Reg::L => self.with_register(Register { l: value, ..self.register }),
            Reg::M => self.with_memory(self.memory.update(self.register.hl() as int, value)),
            Reg::A => self.with_register(Register { a: value, ..self.register }),
        }
    }

    /// The value of a register pair.
    pub open spec fn pair(self, pair: RegPair) -> u16 {
        match pair {
            RegPair::BC => self.register.bc(),
            RegPair::DE => self.register.de(),
            RegPair::HL => self.register.hl(),
            RegPair::SP => self.register.sp,
        }
    }

    /// The machine with a register pair holding `value`.
    pub open spec fn with_pair(self, pair: RegPair, value: u16) -> Machine {
        match pair {
            RegPair::BC => self.with_register(self.register.with_bc(value)),
            RegPair::DE => self.with_register(self.register.with_de(value)),
            RegPair::HL => self.with_register(self.register.with_hl(value)),
            RegPair::SP => self.with_sp(value),
        }
    }

    /// The word that PUSH stores for a pair. The status word goes out with
    /// the bits of `f` that are no flags at their fixed values.
    pub open spec fn stack_pair(self, pair: StackPair) -> u16 {
        match pair {
            StackPair::BC => self.register.bc(),
            StackPair::DE => self.register.de(),
            StackPair::HL => self.register.hl(),
            StackPair::PSW => word::pair(self.register.a, normalized(self.register.f)),
        }
    }

    /// The machine after POP has loaded a pair with `value`.
    pub open spec fn with_stack_pair(self, pair: StackPair, value: u16) -> Machine {
        match pair {
            StackPair::BC => self.with_register(self.register.with_bc(value)),
            StackPair::DE => self.with_register(self.register.with_de(value)),
            StackPair::HL => self.with_register(self.register.with_hl(value)),
            StackPair::PSW => self.with_register(self.register.with_af(value)),
        }
    }

    /// The machine after `value` is pushed: the stack pointer goes down by
    /// two, wrapping, and the word is stored where it then points.
    pub open spec fn push(self, value: u16) -> Machine {
        let sp = self.register.sp.wrapping_sub(2);
        self.with_sp(sp).with_memory(store_word(self.memory, sp as int, value))
    }

    /// The word on top of the stack.
    pub open spec fn top(self) -> u16 {
        word_at(self.memory, self.register.sp as int)
    }

    /// The machine after the top of the stack is taken off: the stack
    /// pointer goes up by two, wrapping.
    pub open spec fn drop_top(self) -> Machine {
        self.with_sp(self.register.sp.wrapping_add(2))
    }

    /// Whether a branch condition holds.
    pub open spec fn holds(self, condition: Condition) -> bool {
        match condition {
            Condition::NotZero => !self.register.flag(Flags::Zero),
            Condition::Zero => self.register.flag(Flags::Zero),
            Condition::NoCarry => !self.register.flag(Flags::Carry),
            Condition::Carry => self.register.flag(Flags::Carry),
            Condition::ParityOdd => !self.register.flag(Flags::Parity),
            Condition::ParityEven => self.register.flag(Flags::Parity),
            Condition::Plus => !self.register.flag(Flags::Sign),
            Condition::Minus => self.register.flag(Flags::Sign),
        }
    }

    /// LDA: the accumulator is loaded from the immediate address.
    pub open spec fn lda(self) -> Machine {
        self.advance(2).with_a(self.memory[self.next_word() as int])
    }

    /// STA: the accumulator is stored at the immediate address.
    pub open spec fn sta(self) -> Machine {
        self.advance(2).with_memory(self.memory.update(self.next_word() as int, self.register.a))
    }

    /// LHLD: HL is loaded from the word at the immediate address.
    pub open spec fn lhld(self) -> Machine {
        self.advance(2).with_pair(RegPair::HL, word_at(self.memory, self.next_word() as int))
    }

    /// SHLD: HL is stored as a word at the immediate address.
    pub open spec fn shld(self) -> Machine {
        self.advance(2).with_memory(
            store_word(self.memory, self.next_word() as int, self.register.hl()),
        )
    }

    /// LDAX: the accumulator is loaded from `address`.
    pub open spec fn ldax(self, address: u16) -> Machine {
        self.with_a(self.memory[address as int])
    }

    /// STAX: the accumulator is stored at `address`.
    pub open spec fn stax(self, address: u16) -> Machine {
        self.with_memory(self.memory.update(address as int, self.register.a))
    }

    /// A jump: the immediate word is read, and where `taken` holds the
    /// program counter takes it.
    pub open spec fn jmp(self, taken: bool) -> Machine {
        if taken {
            self.with_pc(self.next_word())
        } else {
            self.advance(2)
        }
    }

    /// A call: the immediate word is read, and where `taken` holds the
    /// address that follows it is pushed and the program counter takes the
    /// word.
    pub open spec fn call(self, taken: bool) -> Machine {
        if taken {
            self.advance(2).push(self.register.pc.wrapping_add(2)).with_pc(self.next_word())
        } else {
            self.advance(2)
        }
    }

    /// A return: where `taken` holds the program counter takes the word
    /// popped off the stack.
    pub open spec fn ret(self, taken: bool) -> Machine {
        if taken {
            self.drop_top().with_pc(self.top())
        } else {
            self
        }
    }

    /// RST: the program counter is pushed and then set to 8 times `number`.
    pub open spec fn rst(self, number: u16) -> Machine {
        self.push(self.register.pc).with_pc((8 * number) as u16)
    }

    /// XTHL: HL and the word on top of the stack trade places.
    pub open spec fn xthl(self) -> Machine {
        self.with_pair(RegPair::HL, self.top()).with_memory(
            store_word(self.memory, self.register.sp as int, self.register.hl()),
        )
    }

    /// The machine after an instruction, where the program counter of `self`
    /// is already past the opcode. `input` is the byte that the bus delivers
    /// if the instruction is IN.
    pub open spec fn perform(self, instruction: Instruction, input: u8) -> Machine {
        match instruction {
            Instruction::Nop => self,
            Instruction::Lxi(pair) => self.advance(2).with_pair(pair, self.next_word()),
            Instruction::Stax(pair) => self.stax(self.pair(pair)),
            Instruction::Ldax(pair) => self.ldax(self.pair(pair)),
            Instruction::Shld => self.shld(),
            Instruction::Lhld => self.lhld(),
            Instruction::Sta => self.sta(),
            Instruction::Lda => self.lda(),
            Instruction::Inx(pair) => self.with_pair(pair, self.pair(pair).wrapping_add(1)),
            Instruction::Dcx(pair) => self.with_pair(pair, self.pair(pair).wrapping_sub(1)),
            Instruction::Dad(pair) => self.with_register(
                alu::spec_dad(self.register, self.pair(pair)),
            ),
            Instruction::Inr(reg) => self.with_register(
                alu::spec_inr(self.register, self.reg(reg)),
            ).with_reg(reg, alu::incremented(self.reg(reg))),
            Instruction::Dcr(reg) => self.with_register(
                alu::spec_dcr(self.register, self.reg(reg)),
            ).with_reg(reg, alu::decremented(self.reg(reg))),
            Instruction::Mvi(reg) => self.advance(1).with_reg(reg, self.next_byte()),
            Instruction::Rlc => self.with_register(alu::spec_rlc(self.register)),
            Instruction::Rrc => self.with_register(alu::spec_rrc(self.register)),
            Instruction::Ral => self.with_register(alu::spec_ral(self.register)),
            Instruction::Rar => self.with_register(alu::spec_rar(self.register)),
            Instruction::Daa => self.with_register(alu::spec_daa(self.register)),
            Instruction::Cma => self.with_register(alu::spec_cma(self.register)),
            Instruction::Stc => self.with_register(alu::spec_stc(self.register)),
            Instruction::Cmc => self.with_register(alu::spec_cmc(self.register)),
            Instruction::Mov(to, from) => self.with_reg(to, self.reg(from)),
            Instruction::Hlt => Machine { halted: true, ..self },
            Instruction::Alu(op, reg) => self.with_register(
                alu_result(op, self.register, self.reg(reg)),
            ),
            Instruction::AluImmediate(op) => self.with_register(
                alu_result(op, self.advance(1).register, self.next_byte()),
            ),
            Instruction::Jmp => self.jmp(true),
            Instruction::JmpIf(condition) => self.jmp(self.holds(condition)),
            Instruction::Call => self.call(true),
            Instruction::CallIf(condition) => self.call(self.holds(condition)),
            Instruction::Ret => self.ret(true),
            Instruction::RetIf(condition) => self.ret(self.holds(condition)),
            Instruction::Rst(number) => self.rst(number as u16),
            Instruction::Push(pair) => self.push(self.stack_pair(pair)),
            Instruction::Pop(pair) => self.drop_top().with_stack_pair(pair, self.top()),
            Instruction::Pchl => self.with_pc(self.register.hl()),
            Instruction::Sphl => self.with_sp(self.register.hl()),
            Instruction::Xthl => self.xthl(),
            Instruction::Xchg => self.with_register(alu::spec_xchg(self.register)),
            Instruction::In => self.advance(1).with_a(input),
            Instruction::Out => self.advance(1),
            Instruction::Ei => Machine { interrupts_enabled: true, ..self },
            Instruction::Di => Machine { interrupts_enabled: false, ..self },
        }
    }

    /// The machine after the instruction that `opcode` stands for, where the
    /// program counter of `self` is already past the opcode.
    pub open spec fn execute(self, opcode: u8, input: u8) -> Machine {
        self.perform(decode(opcode), input)
    }

    /// The machine after one step: halted, it stays as it is; else the
    /// instruction at the program counter is fetched and run.
    pub open spec fn step(self, input: u8) -> Machine {
        if self.halted {
            self
        } else {
            self.advance(1).execute(self.next_byte(), input)
        }
    }

    /// The machine after an interrupt request that supplies `opcode`. With
    /// interrupts disabled nothing happens. Else they are disabled, a halt
    /// ends, and the opcode runs without a fetch: the program counter moves
    /// only as the instruction itself moves it.
    pub open spec fn interrupt(self, opcode: u8) -> Machine {
        if self.interrupts_enabled {
            (Machine { halted: false, interrupts_enabled: false, ..self }).execute(opcode, 0)
        } else {
            self
        }
    }

    /// What the next step asks of the I/O bus.
    pub open spec fn port_request(self) -> PortRequest {
        if self.halted {
            PortRequest::Idle
        } else {
            match decode(self.next_byte()) {
                Instruction::In => PortRequest::Read { port: self.advance(1).next_byte() },
                Instruction::Out => PortRequest::Write {
                    port: self.advance(1).next_byte(),
                    value: self.register.a,
                },
                _ => PortRequest::Idle,
            }
        }
    }
}

/// The registers after an accumulator operation with the operand `value`.
pub open spec fn alu_result(op: AluOp, reg: Register, value: u8) -> Register {
    match op {
        AluOp::Add => alu::spec_add(reg, value),
        AluOp::Adc => alu::spec_adc(reg, value),
        AluOp::Sub => alu::spec_sub(reg, value),
        AluOp::Sbb => alu::spec_sbb(reg, value),
        AluOp::Ana => alu::spec_ana(reg, value),
        AluOp::Xra => alu::spec_xra(reg, value),
        AluOp::Ora => alu::spec_ora(reg, value),
        AluOp::Compare => alu::spec_compare(reg, value),
    }
}

} // verus!
