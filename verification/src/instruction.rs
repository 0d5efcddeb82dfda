//! The instruction set: what each of the 256 opcodes stands for, read off
//! the fields of the opcode byte, and how many bytes the instruction takes.

use vstd::prelude::*;

verus! {

/// An 8-bit operand named by a three-bit field. `M` is the memory cell that
/// HL addresses.
#[derive(Clone, Copy, Debug, PartialEq, Eq, Structural)]
pub enum Reg {
    B,
    C,
    D,
    E,
    H,
    L,
    M,
    A,
}

/// A 16-bit operand of the data-transfer and arithmetic instructions.
#[derive(Clone, Copy, Debug, PartialEq, Eq, Structural)]
pub enum RegPair {
    BC,
    DE,
    HL,
    SP,
}

/// A 16-bit operand of PUSH and POP. `PSW` is the accumulator over the flags.
#[derive(Clone, Copy, Debug, PartialEq, Eq, Structural)]
pub enum StackPair {
    BC,
    DE,
    HL,
    PSW,
}

/// The condition of a conditional jump, call or return.
#[derive(Clone, Copy, Debug, PartialEq, Eq, Structural)]
pub enum Condition {
    /// Zero flag clear.
    NotZero,
    /// Zero flag set.
    Zero,
    /// Carry flag clear.
    NoCarry,
    /// Carry flag set.
    Carry,
    /// Parity flag clear.
    ParityOdd,
    /// Parity flag set.
    ParityEven,
    /// Sign flag clear.
    Plus,
    /// Sign flag set.
    Minus,
}

/// An operation of the accumulator with an 8-bit operand.
#[derive(Clone, Copy, Debug, PartialEq, Eq, Structural)]
pub enum AluOp {
    Add,
    Adc,
    Sub,
    Sbb,
    Ana,
    Xra,
    Ora,
    Compare,
}

/// An instruction, without its immediate operand.
#[derive(Clone, Copy, Debug, PartialEq, Eq, Structural)]
pub enum Instruction {
    Nop,
    /// Load a pair with the immediate word.
    Lxi(RegPair),
    /// Store the accumulator where BC or DE points.
    Stax(RegPair),
    /// Load the accumulator from where BC or DE points.
    Ldax(RegPair),
    /// Store HL at the immediate address.
    Shld,
    /// Load HL from the immediate address.
    Lhld,
    /// Store the accumulator at the immediate address.
    Sta,
    /// Load the accumulator from the immediate address.
    Lda,
    Inx(RegPair),
    Dcx(RegPair),
    Dad(RegPair),
    Inr(Reg),
    Dcr(Reg),
    /// Load an operand with the immediate byte.
    Mvi(Reg),
    Rlc,
    Rrc,
    Ral,
    Rar,
    Daa,
    Cma,
    Stc,
    Cmc,
    /// Copy the second operand to the first.
    Mov(Reg, Reg),
    Hlt,
    /// Operate on the accumulator with a register or memory operand.
    Alu(AluOp, Reg),
    /// Operate on the accumulator with the immediate byte.
    AluImmediate(AluOp),
    Jmp,
    JmpIf(Condition),
    Call,
    CallIf(Condition),
    Ret,
    RetIf(Condition),
    /// Call the address 8 times the operand, which is below 8.
    Rst(u8),
    Push(StackPair),
    Pop(StackPair),
    Pchl,
    Sphl,
    Xthl,
    Xchg,
    /// Read the port named by the immediate byte into the accumulator.
    In,
    /// Write the accumulator to the port named by the immediate byte.
    Out,
    Ei,
    Di,
}

/// The operand that the three-bit field `code` names.
pub open spec fn reg_of(code: int) -> Reg {
    if code == 0 {
        Reg::B
    } else if code == 1 {
        Reg::C
    } else if code == 2 {
        Reg::D
    } else if code == 3 {
        Reg::E
    } else if code == 4 {
        Reg::H
    } else if code == 5 {
        Reg::L
    } else if code == 6 {
        Reg::M
    } else {
        Reg::A
    }
}

/// The pair that the two-bit field `code` names outside PUSH and POP.
pub open spec fn pair_of(code: int) -> RegPair {
    if code == 0 {
        RegPair::BC
    } else if code == 1 {
        RegPair::DE
    } else if code == 2 {
        RegPair::HL
    } else {
        RegPair::SP
    }
}

/// The pair that the two-bit field `code` names in PUSH and POP.
pub open spec fn stack_pair_of(code: int) -> StackPair {
    if code == 0 {
        StackPair::BC
    } else if code == 1 {
        StackPair::DE
    } else if code == 2 {
        StackPair::HL
    } else {
        StackPair::PSW
    }
}

/// The condition that the three-bit field `code` names.
pub open spec fn condition_of(code: int) -> Condition {
    if code == 0 {
        Condition::NotZero
    } else if code == 1 {
        Condition::Zero
    } else if code == 2 {
        Condition::NoCarry
    } else if code == 3 {
        Condition::Carry
    } else if code == 4 {
        Condition::ParityOdd
    } else if code == 5 {
        Condition::ParityEven
    } else if code == 6 {
        Condition::Plus
    } else {
        Condition::Minus
    }
}

/// The accumulator operation that the three-bit field `code` names.
pub open spec fn alu_op_of(code: int) -> AluOp {
    if code == 0 {
        AluOp::Add
    } else if code == 1 {
        AluOp::Adc
    } else if code == 2 {
        AluOp::Sub
    } else if code == 3 {
        AluOp::Sbb
    } else if code == 4 {
        AluOp::Ana
    } else if code == 5 {
        AluOp::Xra
    } else if code == 6 {
        AluOp::Ora
    } else {
        AluOp::Compare
    }
}

/// The instruction with opcodes 0x00 to 0x3f, by the middle field `y` and
/// the low field `z` of the opcode.
pub open spec fn decode_low(y: int, z: int) -> Instruction {
    if z == 0 {
        Instruction::Nop
    } else if z == 1 {
        if y % 2 == 0 {
            Instruction::Lxi(pair_of(y / 2))
        } else {
            Instruction::Dad(pair_of(y / 2))
        }
    } else if z == 2 {
        if y == 0 {
            Instruction::Stax(RegPair::BC)
        } else if y == 1 {
            Instruction::Ldax(RegPair::BC)
        } else if y == 2 {
            Instruction::Stax(RegPair::DE)
        } else if y == 3 {
            Instruction::Ldax(RegPair::DE)
        } else if y == 4 {
            Instruction::Shld
        } else if y == 5 {
            Instruction::Lhld
        } else if y == 6 {
            Instruction::Sta
        } else {
            Instruction::Lda
        }
    } else if z == 3 {
        if y % 2 == 0 {
            Instruction::Inx(pair_of(y / 2))
        } else {
            Instruction::Dcx(pair_of(y / 2))
        }
    } else if z == 4 {
        Instruction::Inr(reg_of(y))
    } else if z == 5 {
        Instruction::Dcr(reg_of(y))
    } else if z == 6 {
        Instruction::Mvi(reg_of(y))
    } else if y == 0 {
        Instruction::Rlc
    } else if y == 1 {
        Instruction::Rrc
    } else if y == 2 {
        Instruction::Ral
    } else if y == 3 {
        Instruction::Rar
    } else if y == 4 {
        Instruction::Daa
    } else if y == 5 {
        Instruction::Cma
    } else if y == 6 {
        Instruction::Stc
    } else {
        Instruction::Cmc
    }
}

/// The instruction with opcodes 0xc0 to 0xff, by the middle field `y` and
/// the low field `z` of the opcode.
pub open spec fn decode_high(y: int, z: int) -> Instruction {
    if z == 0 {
        Instruction::RetIf(condition_of(y))
    } else if z == 1 {
        if y % 2 == 0 {
            Instruction::Pop(stack_pair_of(y / 2))
        } else if y == 1 {
            Instruction::Ret
        } else if y == 5 {
            Instruction::Pchl
        } else if y == 7 {
            Instruction::Sphl
        } else {
            Instruction::Nop
        }
    } else if z == 2 {
        Instruction::JmpIf(condition_of(y))
    } else if z == 3 {
        if y == 0 {
            Instruction::Jmp
        } else if y == 2 {
            Instruction::Out
        } else if y == 3 {
            Instruction::In
        } else if y == 4 {
            Instruction::Xthl
        } else if y == 5 {
            Instruction::Xchg
        } else if y == 6 {
            Instruction::Di
        } else if y == 7 {
            Instruction::Ei
        } else {
            Instruction::Nop
        }
    } else if z == 4 {
        Instruction::CallIf(condition_of(y))
    } else if z == 5 {
        if y % 2 == 0 {
            Instruction::Push(stack_pair_of(y / 2))
        } else if y == 1 {
            Instruction::Call
        } else {
            Instruction::Nop
        }
    } else if z == 6 {
        Instruction::AluImmediate(alu_op_of(y))
    } else {
        Instruction::Rst(y as u8)
    }
}

/// The instruction that `opcode` stands for. Bits 6 and 7 select the block,
/// bits 3 to 5 and bits 0 to 2 the operation and its operands. An opcode
/// outside the published set is a `Nop`.
#[verifier::opaque]
pub open spec fn decode(opcode: u8) -> Instruction {
    let x = opcode / 64;
    let y = (opcode / 8) % 8;
    let z = opcode % 8;
    if x == 0 {
        decode_low(y as int, z as int)
    } else if x == 1 {
        if opcode == 0x76 {
            Instruction::Hlt
        } else {
            Instruction::Mov(reg_of(y as int), reg_of(z as int))
        }
    } else if x == 2 {
        Instruction::Alu(alu_op_of(y as int), reg_of(z as int))
    } else {
        decode_high(y as int, z as int)
    }
}

impl Reg {
    /// Returns the operand that the three-bit field `code` names.
    pub fn from_code(code: u8) -> (reg: Reg)
        ensures
            reg == reg_of(code as int),
    {
        match code {
            0 => Reg::B,
            1 => Reg::C,
            2 => Reg::D,
            3 => Reg::E,
            4 => Reg::H,
            5 => Reg::L,
            6 => Reg::M,
            _ => Reg::A,
        }
    }
}

impl RegPair {
    /// Returns the pair that the two-bit field `code` names outside PUSH and
    /// POP.
    pub fn from_code(code: u8) -> (pair: RegPair)
        ensures
            pair == pair_of(code as int),
    {
        match code {
            0 => RegPair::BC,
            1 => RegPair::DE,
            2 => RegPair::HL,
            _ => RegPair::SP,
        }
    }
}

impl StackPair {
    /// Returns the pair that the two-bit field `code` names in PUSH and POP.
    pub fn from_code(code: u8) -> (pair: StackPair)
        ensures
            pair == stack_pair_of(code as int),
    {
        match code {
            0 => StackPair::BC,
            1 => StackPair::DE,
            2 => StackPair::HL,
            _ => StackPair::PSW,
        }
    }
}

impl Condition {
    /// Returns the condition that the three-bit field `code` names.
    pub fn from_code(code: u8) -> (condition: Condition)
        ensures
            condition == condition_of(code as int),
    {
        match code {
            0 => Condition::NotZero,
            1 => Condition::Zero,
            2 => Condition::NoCarry,
            3 => Condition::Carry,
            4 => Condition::ParityOdd,
            5 => Condition::ParityEven,
            6 => Condition::Plus,
            _ => Condition::Minus,
        }
    }
}

impl AluOp {
    /// Returns the accumulator operation that the three-bit field `code`
    /// names.
    pub fn from_code(code: u8) -> (op: AluOp)
        ensures
            op == alu_op_of(code as int),
    {
        match code {
            0 => AluOp::Add,
            1 => AluOp::Adc,
            2 => AluOp::Sub,
            3 => AluOp::Sbb,
            4 => AluOp::Ana,
            5 => AluOp::Xra,
            6 => AluOp::Ora,
            _ => AluOp::Compare,
        }
    }
}

impl Instruction {
    /// Returns the instruction that `opcode` stands for.
    pub fn decode(opcode: u8) -> (instruction: Instruction)
        ensures
            instruction == decode(opcode),
    {
        reveal(decode);
        let y = (opcode / 8) % 8;
        let z = opcode % 8;
        match opcode / 64 {
            0 => match z {
                0 => Instruction::Nop,
                1 => if y % 2 == 0 {
                    Instruction::Lxi(RegPair::from_code(y / 2))
                } else {
                    Instruction::Dad(RegPair::from_code(y / 2))
                },
                2 => match y {
                    0 => Instruction::Stax(RegPair::BC),
                    1 => Instruction::Ldax(RegPair::BC),
                    2 => Instruction::Stax(RegPair::DE),
                    3 => Instruction::Ldax(RegPair::DE),
                    4 => Instruction::Shld,
                    5 => Instruction::Lhld,
                    6 => Instruction::Sta,
                    _ => Instruction::Lda,
                },
                3 => if y % 2 == 0 {
                    Instruction::Inx(RegPair::from_code(y / 2))
                } else {
                    Instruction::Dcx(RegPair::from_code(y / 2))
                },
                4 => Instruction::Inr(Reg::from_code(y)),
                5 => Instruction::Dcr(Reg::from_code(y)),
                6 => Instruction::Mvi(Reg::from_code(y)),
                _ => match y {
                    0 => Instruction::Rlc,
                    1 => Instruction::Rrc,
                    2 => Instruction::Ral,
                    3 => Instruction::Rar,
                    4 => Instruction::Daa,
                    5 => Instruction::Cma,
                    6 => Instruction::Stc,
                    _ => Instruction::Cmc,
                },
            },
            1 => if opcode == 0x76 {
                Instruction::Hlt
            } else {
                Instruction::Mov(Reg::from_code(y), Reg::from_code(z))
            },
            2 => Instruction::Alu(AluOp::from_code(y), Reg::from_code(z)),
            _ => match z {
                0 => Instruction::RetIf(Condition::from_code(y)),
                1 => if y % 2 == 0 {
                    Instruction::Pop(StackPair::from_code(y / 2))
                } else {
                    match y {
                        1 => Instruction::Ret,
                        5 => Instruction::Pchl,
                        7 => Instruction::Sphl,
                        _ => Instruction::Nop,
                    }
                },
                2 => Instruction::JmpIf(Condition::from_code(y)),
                3 => match y {
                    0 => Instruction::Jmp,
                    2 => Instruction::Out,
                    3 => Instruction::In,
                    4 => Instruction::Xthl,
                    5 => Instruction::Xchg,
                    6 => Instruction::Di,
                    7 => Instruction::Ei,
                    _ => Instruction::Nop,
                },
                4 => Instruction::CallIf(Condition::from_code(y)),
                5 => if y % 2 == 0 {
                    Instruction::Push(StackPair::from_code(y / 2))
                } else if y == 1 {
                    Instruction::Call
                } else {
                    Instruction::Nop
                },
                6 => Instruction::AluImmediate(AluOp::from_code(y)),
                _ => Instruction::Rst(y),
            },
        }
    }

    /// Returns the number of bytes of the instruction: 1, 2 or 3.
    pub fn length(&self) -> (length: u8)
        ensures
            length == self.len(),
            1 <= length <= 3,
    {
        match self {
            Instruction::Lxi(_)
            | Instruction::Shld
            | Instruction::Lhld
            | Instruction::Sta
            | Instruction::Lda
            | Instruction::Jmp
            | Instruction::JmpIf(_)
            | Instruction::Call
            | Instruction::CallIf(_) => 3,
            Instruction::Mvi(_)
            | Instruction::AluImmediate(_)
            | Instruction::In
            | Instruction::Out => 2,
            _ => 1,
        }
    }

    /// The number of bytes of the instruction, opcode and immediate operand.
    pub open spec fn len(self) -> int {
        match self {
            Instruction::Lxi(_)
            | Instruction::Shld
            | Instruction::Lhld
            | Instruction::Sta
            | Instruction::Lda
            | Instruction::Jmp
            | Instruction::JmpIf(_)
            | Instruction::Call
            | Instruction::CallIf(_) => 3,
            Instruction::Mvi(_)
            | Instruction::AluImmediate(_)
            | Instruction::In
            | Instruction::Out => 2,
            _ => 1,
        }
    }

    /// Whether the instruction may set the program counter to something else
    /// than the address of the instruction that follows it.
    pub open spec fn transfers_control(self) -> bool {
        match self {
            Instruction::Jmp
            | Instruction::JmpIf(_)
            | Instruction::Call
            | Instruction::CallIf(_)
            | Instruction::Ret
            | Instruction::RetIf(_)
            | Instruction::Rst(_)
            | Instruction::Pchl => true,
            _ => false,
        }
    }
}

/// The opcode map: the instruction that each opcode stands for.
pub proof fn lemma_opcode_map()
    ensures
        decode(0x00) == Instruction::Nop,
        decode(0x01) == Instruction::Lxi(RegPair::BC),
        decode(0x02) == Instruction::Stax(RegPair::BC),
        decode(0x03) == Instruction::Inx(RegPair::BC),
        decode(0x04) == Instruction::Inr(Reg::B),
        decode(0x05) == Instruction::Dcr(Reg::B),
        decode(0x06) == Instruction::Mvi(Reg::B),
        decode(0x07) == Instruction::Rlc,
        decode(0x08) == Instruction::Nop,
        decode(0x09) == Instruction::Dad(RegPair::BC),
        decode(0x0a) == Instruction::Ldax(RegPair::BC),
        decode(0x0b) == Instruction::Dcx(RegPair::BC),
        decode(0x0c) == Instruction::Inr(Reg::C),
        decode(0x0d) == Instruction::Dcr(Reg::C),
        decode(0x0e) == Instruction::Mvi(Reg::C),
        decode(0x0f) == Instruction::Rrc,
        decode(0x10) == Instruction::Nop,
        decode(0x11) == Instruction::Lxi(RegPair::DE),
        decode(0x12) == Instruction::Stax(RegPair::DE),
        decode(0x13) == Instruction::Inx(RegPair::DE),
        decode(0x14) == Instruction::Inr(Reg::D),
        decode(0x15) == Instruction::Dcr(Reg::D),
        decode(0x16) == Instruction::Mvi(Reg::D),
        decode(0x17) == Instruction::Ral,
        decode(0x18) == Instruction::Nop,
        decode(0x19) == Instruction::Dad(RegPair::DE),
        decode(0x1a) == Instruction::Ldax(RegPair::DE),
        decode(0x1b) == Instruction::Dcx(RegPair::DE),
        decode(0x1c) == Instruction::Inr(Reg::E),
        decode(0x1d) == Instruction::Dcr(Reg::E),
        decode(0x1e) == Instruction::Mvi(Reg::E),
        decode(0x1f) == Instruction::Rar,
        decode(0x20) == Instruction::Nop,
        decode(0x21) == Instruction::Lxi(RegPair::HL),
        decode(0x22) == Instruction::Shld,
        decode(0x23) == Instruction::Inx(RegPair::HL),
        decode(0x24) == Instruction::Inr(Reg::H),
        decode(0x25) == Instruction::Dcr(Reg::H),
        decode(0x26) == Instruction::Mvi(Reg::H),
        decode(0x27) == Instruction::Daa,
        decode(0x28) == Instruction::Nop,
        decode(0x29) == Instruction::Dad(RegPair::HL),
        decode(0x2a) == Instruction::Lhld,
        decode(0x2b) == Instruction::Dcx(RegPair::HL),
        decode(0x2c) == Instruction::Inr(Reg::L),
        decode(0x2d) == Instruction::Dcr(Reg::L),
        decode(0x2e) == Instruction::Mvi(Reg::L),
        decode(0x2f) == Instruction::Cma,
        decode(0x30) == Instruction::Nop,
        decode(0x31) == Instruction::Lxi(RegPair::SP),
        decode(0x32) == Instruction::Sta,
        decode(0x33) == Instruction::Inx(RegPair::SP),
        decode(0x34) == Instruction::Inr(Reg::M),
        decode(0x35) == Instruction::Dcr(Reg::M),
        decode(0x36) == Instruction::Mvi(Reg::M),
        decode(0x37) == Instruction::Stc,
        decode(0x38) == Instruction::Nop,
        decode(0x39) == Instruction::Dad(RegPair::SP),
        decode(0x3a) == Instruction::Lda,
        decode(0x3b) == Instruction::Dcx(RegPair::SP),
        decode(0x3c) == Instruction::Inr(Reg::A),
        decode(0x3d) == Instruction::Dcr(Reg::A),
        decode(0x3e) == Instruction::Mvi(Reg::A),
        decode(0x3f) == Instruction::Cmc,
        decode(0x40) == Instruction::Mov(Reg::B, Reg::B),
        decode(0x41) == Instruction::Mov(Reg::B, Reg::C),
        decode(0x42) == Instruction::Mov(Reg::B, Reg::D),
        decode(0x43) == Instruction::Mov(Reg::B, Reg::E),
        decode(0x44) == Instruction::Mov(Reg::B, Reg::H),
        decode(0x45) == Instruction::Mov(Reg::B, Reg::L),
        decode(0x46) == Instruction::Mov(Reg::B, Reg::M),
        decode(0x47) == Instruction::Mov(Reg::B, Reg::A),
        decode(0x48) == Instruction::Mov(Reg::C, Reg::B),
        decode(0x49) == Instruction::Mov(Reg::C, Reg::C),
        decode(0x4a) == Instruction::Mov(Reg::C, Reg::D),
        decode(0x4b) == Instruction::Mov(Reg::C, Reg::E),
        decode(0x4c) == Instruction::Mov(Reg::C, Reg::H),
        decode(0x4d) == Instruction::Mov(Reg::C, Reg::L),
        decode(0x4e) == Instruction::Mov(Reg::C, Reg::M),
        decode(0x4f) == Instruction::Mov(Reg::C, Reg::A),
        decode(0x50) == Instruction::Mov(Reg::D, Reg::B),
        decode(0x51) == Instruction::Mov(Reg::D, Reg::C),
        decode(0x52) == Instruction::Mov(Reg::D, Reg::D),
        decode(0x53) == Instruction::Mov(Reg::D, Reg::E),
        decode(0x54) == Instruction::Mov(Reg::D, Reg::H),
        decode(0x55) == Instruction::Mov(Reg::D, Reg::L),
        decode(0x56) == Instruction::Mov(Reg::D, Reg::M),
        decode(0x57) == Instruction::Mov(Reg::D, Reg::A),
        decode(0x58) == Instruction::Mov(Reg::E, Reg::B),
        decode(0x59) == Instruction::Mov(Reg::E, Reg::C),
        decode(0x5a) == Instruction::Mov(Reg::E, Reg::D),
        decode(0x5b) == Instruction::Mov(Reg::E, Reg::E),
        decode(0x5c) == Instruction::Mov(Reg::E, Reg::H),
        decode(0x5d) == Instruction::Mov(Reg::E, Reg::L),
        decode(0x5e) == Instruction::Mov(Reg::E, Reg::M),
        decode(0x5f) == Instruction::Mov(Reg::E, Reg::A),
        decode(0x60) == Instruction::Mov(Reg::H, Reg::B),
        decode(0x61) == Instruction::Mov(Reg::H, Reg::C),
        decode(0x62) == Instruction::Mov(Reg::H, Reg::D),
        decode(0x63) == Instruction::Mov(Reg::H, Reg::E),
        decode(0x64) == Instruction::Mov(Reg::H, Reg::H),
        decode(0x65) == Instruction::Mov(Reg::H, Reg::L),
        decode(0x66) == Instruction::Mov(Reg::H, Reg::M),
        decode(0x67) == Instruction::Mov(Reg::H, Reg::A),
        decode(0x68) == Instruction::Mov(Reg::L, Reg::B),
        decode(0x69) == Instruction::Mov(Reg::L, Reg::C),
        decode(0x6a) == Instruction::Mov(Reg::L, Reg::D),
        decode(0x6b) == Instruction::Mov(Reg::L, Reg::E),
        decode(0x6c) == Instruction::Mov(Reg::L, Reg::H),
        decode(0x6d) == Instruction::Mov(Reg::L, Reg::L),
        decode(0x6e) == Instruction::Mov(Reg::L, Reg::M),
        decode(0x6f) == Instruction::Mov(Reg::L, Reg::A),
        decode(0x70) == Instruction::Mov(Reg::M, Reg::B),
        decode(0x71) == Instruction::Mov(Reg::M, Reg::C),
        decode(0x72) == Instruction::Mov(Reg::M, Reg::D),
        decode(0x73) == Instruction::Mov(Reg::M, Reg::E),
        decode(0x74) == Instruction::Mov(Reg::M, Reg::H),
        decode(0x75) == Instruction::Mov(Reg::M, Reg::L),
        decode(0x76) == Instruction::Hlt,
        decode(0x77) == Instruction::Mov(Reg::M, Reg::A),
        decode(0x78) == Instruction::Mov(Reg::A, Reg::B),
        decode(0x79) == Instruction::Mov(Reg::A, Reg::C),
        decode(0x7a) == Instruction::Mov(Reg::A, Reg::D),
        decode(0x7b) == Instruction::Mov(Reg::A, Reg::E),
        decode(0x7c) == Instruction::Mov(Reg::A, Reg::H),
        decode(0x7d) == Instruction::Mov(Reg::A, Reg::L),
        decode(0x7e) == Instruction::Mov(Reg::A, Reg::M),
        decode(0x7f) == Instruction::Mov(Reg::A, Reg::A),
        decode(0x80) == Instruction::Alu(AluOp::Add, Reg::B),
        decode(0x81) == Instruction::Alu(AluOp::Add, Reg::C),
        decode(0x82) == Instruction::Alu(AluOp::Add, Reg::D),
        decode(0x83) == Instruction::Alu(AluOp::Add, Reg::E),
        decode(0x84) == Instruction::Alu(AluOp::Add, Reg::H),
        decode(0x85) == Instruction::Alu(AluOp::Add, Reg::L),
        decode(0x86) == Instruction::Alu(AluOp::Add, Reg::M),
        decode(0x87) == Instruction::Alu(AluOp::Add, Reg::A),
        decode(0x88) == Instruction::Alu(AluOp::Adc, Reg::B),
        decode(0x89) == Instruction::Alu(AluOp::Adc, Reg::C),
        decode(0x8a) == Instruction::Alu(AluOp::Adc, Reg::D),
        decode(0x8b) == Instruction::Alu(AluOp::Adc, Reg::E),
        decode(0x8c) == Instruction::Alu(AluOp::Adc, Reg::H),
        decode(0x8d) == Instruction::Alu(AluOp::Adc, Reg::L),
        decode(0x8e) == Instruction::Alu(AluOp::Adc, Reg::M),
        decode(0x8f) == Instruction::Alu(AluOp::Adc, Reg::A),
        decode(0x90) == Instruction::Alu(AluOp::Sub, Reg::B),
        decode(0x91) == Instruction::Alu(AluOp::Sub, Reg::C),
        decode(0x92) == Instruction::Alu(AluOp::Sub, Reg::D),
        decode(0x93) == Instruction::Alu(AluOp::Sub, Reg::E),
        decode(0x94) == Instruction::Alu(AluOp::Sub, Reg::H),
        decode(0x95) == Instruction::Alu(AluOp::Sub, Reg::L),
        decode(0x96) == Instruction::Alu(AluOp::Sub, Reg::M),
        decode(0x97) == Instruction::Alu(AluOp::Sub, Reg::A),
        decode(0x98) == Instruction::Alu(AluOp::Sbb, Reg::B),
        decode(0x99) == Instruction::Alu(AluOp::Sbb, Reg::C),
        decode(0x9a) == Instruction::Alu(AluOp::Sbb, Reg::D),
        decode(0x9b) == Instruction::Alu(AluOp::Sbb, Reg::E),
        decode(0x9c) == Instruction::Alu(AluOp::Sbb, Reg::H),
        decode(0x9d) == Instruction::Alu(AluOp::Sbb, Reg::L),
        decode(0x9e) == Instruction::Alu(AluOp::Sbb, Reg::M),
        decode(0x9f) == Instruction::Alu(AluOp::Sbb, Reg::A),
        decode(0xa0) == Instruction::Alu(AluOp::Ana, Reg::B),
        decode(0xa1) == Instruction::Alu(AluOp::Ana, Reg::C),
        decode(0xa2) == Instruction::Alu(AluOp::Ana, Reg::D),
        decode(0xa3) == Instruction::Alu(AluOp::Ana, Reg::E),
        decode(0xa4) == Instruction::Alu(AluOp::Ana, Reg::H),
        decode(0xa5) == Instruction::Alu(AluOp::Ana, Reg::L),
        decode(0xa6) == Instruction::Alu(AluOp::Ana, Reg::M),
        decode(0xa7) == Instruction::Alu(AluOp::Ana, Reg::A),
        decode(0xa8) == Instruction::Alu(AluOp::Xra, Reg::B),
        decode(0xa9) == Instruction::Alu(AluOp::Xra, Reg::C),
        decode(0xaa) == Instruction::Alu(AluOp::Xra, Reg::D),
        decode(0xab) == Instruction::Alu(AluOp::Xra, Reg::E),
        decode(0xac) == Instruction::Alu(AluOp::Xra, Reg::H),
        decode(0xad) == Instruction::Alu(AluOp::Xra, Reg::L),
        decode(0xae) == Instruction::Alu(AluOp::Xra, Reg::M),
        decode(0xaf) == Instruction::Alu(AluOp::Xra, Reg::A),
        decode(0xb0) == Instruction::Alu(AluOp::Ora, Reg::B),
        decode(0xb1) == Instruction::Alu(AluOp::Ora, Reg::C),
        decode(0xb2) == Instruction::Alu(AluOp::Ora, Reg::D),
        decode(0xb3) == Instruction::Alu(AluOp::Ora, Reg::E),
        decode(0xb4) == Instruction::Alu(AluOp::Ora, Reg::H),
        decode(0xb5) == Instruction::Alu(AluOp::Ora, Reg::L),
        decode(0xb6) == Instruction::Alu(AluOp::Ora, Reg::M),
        decode(0xb7) == Instruction::Alu(AluOp::Ora, Reg::A),
        decode(0xb8) == Instruction::Alu(AluOp::Compare, Reg::B),
        decode(0xb9) == Instruction::Alu(AluOp::Compare, Reg::C),
        decode(0xba) == Instruction::Alu(AluOp::Compare, Reg::D),
        decode(0xbb) == Instruction::Alu(AluOp::Compare, Reg::E),
        decode(0xbc) == Instruction::Alu(AluOp::Compare, Reg::H),
        decode(0xbd) == Instruction::Alu(AluOp::Compare, Reg::L),
        decode(0xbe) == Instruction::Alu(AluOp::Compare, Reg::M),
        decode(0xbf) == Instruction::Alu(AluOp::Compare, Reg::A),
        decode(0xc0) == Instruction::RetIf(Condition::NotZero),
        decode(0xc1) == Instruction::Pop(StackPair::BC),
        decode(0xc2) == Instruction::JmpIf(Condition::NotZero),
        decode(0xc3) == Instruction::Jmp,
        decode(0xc4) == Instruction::CallIf(Condition::NotZero),
        decode(0xc5) == Instruction::Push(StackPair::BC),
        decode(0xc6) == Instruction::AluImmediate(AluOp::Add),
        decode(0xc7) == Instruction::Rst(0),
        decode(0xc8) == Instruction::RetIf(Condition::Zero),
        decode(0xc9) == Instruction::Ret,
        decode(0xca) == Instruction::JmpIf(Condition::Zero),
        decode(0xcb) == Instruction::Nop,
        decode(0xcc) == Instruction::CallIf(Condition::Zero),
        decode(0xcd) == Instruction::Call,
        decode(0xce) == Instruction::AluImmediate(AluOp::Adc),
        decode(0xcf) == Instruction::Rst(1),
        decode(0xd0) == Instruction::RetIf(Condition::NoCarry),
        decode(0xd1) == Instruction::Pop(StackPair::DE),
        decode(0xd2) == Instruction::JmpIf(Condition::NoCarry),
        decode(0xd3) == Instruction::Out,
        decode(0xd4) == Instruction::CallIf(Condition::NoCarry),
        decode(0xd5) == Instruction::Push(StackPair::DE),
        decode(0xd6) == Instruction::AluImmediate(AluOp::Sub),
        decode(0xd7) == Instruction::Rst(2),
        decode(0xd8) == Instruction::RetIf(Condition::Carry),
        decode(0xd9) == Instruction::Nop,
        decode(0xda) == Instruction::JmpIf(Condition::Carry),
        decode(0xdb) == Instruction::In,
        decode(0xdc) == Instruction::CallIf(Condition::Carry),
        decode(0xdd) == Instruction::Nop,
        decode(0xde) == Instruction::AluImmediate(AluOp::Sbb),
        decode(0xdf) == Instruction::Rst(3),
        decode(0xe0) == Instruction::RetIf(Condition::ParityOdd),
        decode(0xe1) == Instruction::Pop(StackPair::HL),
        decode(0xe2) == Instruction::JmpIf(Condition::ParityOdd),
        decode(0xe3) == Instruction::Xthl,
        decode(0xe4) == Instruction::CallIf(Condition::ParityOdd),
        decode(0xe5) == Instruction::Push(StackPair::HL),
        decode(0xe6) == Instruction::AluImmediate(AluOp::Ana),
        decode(0xe7) == Instruction::Rst(4),
        decode(0xe8) == Instruction::RetIf(Condition::ParityEven),
        decode(0xe9) == Instruction::Pchl,
        decode(0xea) == Instruction::JmpIf(Condition::ParityEven),
        decode(0xeb) == Instruction::Xchg,
        decode(0xec) == Instruction::CallIf(Condition::ParityEven),
        decode(0xed) == Instruction::Nop,
        decode(0xee) == Instruction::AluImmediate(AluOp::Xra),
        decode(0xef) == Instruction::Rst(5),
        decode(0xf0) == Instruction::RetIf(Condition::Plus),
        decode(0xf1) == Instruction::Pop(StackPair::PSW),
        decode(0xf2) == Instruction::JmpIf(Condition::Plus),
        decode(0xf3) == Instruction::Di,
        decode(0xf4) == Instruction::CallIf(Condition::Plus),
        decode(0xf5) == Instruction::Push(StackPair::PSW),
        decode(0xf6) == Instruction::AluImmediate(AluOp::Ora),
        decode(0xf7) == Instruction::Rst(6),
        decode(0xf8) == Instruction::RetIf(Condition::Minus),
        decode(0xf9) == Instruction::Sphl,
        decode(0xfa) == Instruction::JmpIf(Condition::Minus),
        decode(0xfb) == Instruction::Ei,
        decode(0xfc) == Instruction::CallIf(Condition::Minus),
        decode(0xfd) == Instruction::Nop,
        decode(0xfe) == Instruction::AluImmediate(AluOp::Compare),
        decode(0xff) == Instruction::Rst(7),
{
    reveal(decode);
}

} // verus!
