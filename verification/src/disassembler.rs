//! The disassembler: the instruction at an address as text, and a sweep over
//! a range of memory.
//!
//! A line is the mnemonic, padded to six columns where operands follow, and
//! the operands: registers and pairs by their letters, an immediate value as
//! `#$` and its hexadecimal digits, an address as `$` and its digits.

use vstd::prelude::*;
use vstd::string::*;
use crate::instruction::{decode, AluOp, Condition, Instruction, Reg, RegPair, StackPair};
use crate::memory::{next_address, Memory, ADDRESS_SPACE};

verus! {

/// The hexadecimal digit for `nibble`, in lower case.
pub open spec fn hex_digit_text(nibble: u8) -> Seq<char> {
    match nibble {
        0 => "0"@,
        1 => "1"@,
        2 => "2"@,
        3 => "3"@,
        4 => "4"@,
        5 => "5"@,
        6 => "6"@,
        7 => "7"@,
        8 => "8"@,
        9 => "9"@,
        10 => "a"@,
        11 => "b"@,
        12 => "c"@,
        13 => "d"@,
        14 => "e"@,
        _ => "f"@,
    }
}

/// The two hexadecimal digits of `byte`.
pub open spec fn hex_byte_text(byte: u8) -> Seq<char> {
    hex_digit_text(byte / 16) + hex_digit_text(byte % 16)
}

/// The letter of an 8-bit operand.
pub open spec fn reg_text(reg: Reg) -> Seq<char> {
    match reg {
        Reg::B => "B"@,
        Reg::C => "C"@,
        Reg::D => "D"@,
        Reg::E => "E"@,
        Reg::H => "H"@,
        Reg::L => "L"@,
        Reg::M => "M"@,
        Reg::A => "A"@,
    }
}

/// The name of a register pair: the letter of its high register.
pub open spec fn pair_text(pair: RegPair) -> Seq<char> {
    match pair {
        RegPair::BC => "B"@,
        RegPair::DE => "D"@,
        RegPair::HL => "H"@,
        RegPair::SP => "SP"@,
    }
}

/// The name of a pair in PUSH and POP.
pub open spec fn stack_pair_text(pair: StackPair) -> Seq<char> {
    match pair {
        StackPair::BC => "B"@,
        StackPair::DE => "D"@,
        StackPair::HL => "H"@,
        StackPair::PSW => "PSW"@,
    }
}

/// The mnemonic of an instruction, with the padding that precedes its
/// operands where it has any.
pub open spec fn mnemonic_text(instruction: Instruction) -> Seq<char> {
    match instruction {
        Instruction::Nop => "NOP"@,
        Instruction::Lxi(_) => "LXI   "@,
        Instruction::Stax(_) => "STAX  "@,
        Instruction::Ldax(_) => "LDAX  "@,
        Instruction::Inx(_) => "INX   "@,
        Instruction::Dcx(_) => "DCX   "@,
        Instruction::Dad(_) => "DAD   "@,
        Instruction::Inr(_) => "INR   "@,
        Instruction::Dcr(_) => "DCR   "@,
        Instruction::Mvi(_) => "MVI   "@,
        Instruction::Shld => "SHLD  "@,
        Instruction::Lhld => "LHLD  "@,
        Instruction::Sta => "STA   "@,
        Instruction::Lda => "LDA   "@,
        Instruction::Rlc => "RLC"@,
        Instruction::Rrc => "RRC"@,
        Instruction::Ral => "RAL"@,
        Instruction::Rar => "RAR"@,
        Instruction::Daa => "DAA"@,
        Instruction::Cma => "CMA"@,
        Instruction::Stc => "STC"@,
        Instruction::Cmc => "CMC"@,
        Instruction::Mov(_, _) => "MOV   "@,
        Instruction::Hlt => "HLT"@,
        Instruction::Alu(AluOp::Add, _) => "ADD   "@,
        Instruction::Alu(AluOp::Adc, _) => "ADC   "@,
        Instruction::Alu(AluOp::Sub, _) => "SUB   "@,
        Instruction::Alu(AluOp::Sbb, _) => "SBB   "@,
        Instruction::Alu(AluOp::Ana, _) => "ANA   "@,
        Instruction::Alu(AluOp::Xra, _) => "XRA   "@,
        Instruction::Alu(AluOp::Ora, _) => "ORA   "@,
        Instruction::Alu(AluOp::Compare, _) => "CMP   "@,
        Instruction::AluImmediate(AluOp::Add) => "ADI   "@,
        Instruction::AluImmediate(AluOp::Adc) => "ACI   "@,
        Instruction::AluImmediate(AluOp::Sub) => "SUI   "@,
        Instruction::AluImmediate(AluOp::Sbb) => "SBI   "@,
        Instruction::AluImmediate(AluOp::Ana) => "ANI   "@,
        Instruction::AluImmediate(AluOp::Xra) => "XRI   "@,
        Instruction::AluImmediate(AluOp::Ora) => "ORI   "@,
        Instruction::AluImmediate(AluOp::Compare) => "CPI   "@,
        Instruction::Jmp => "JMP   "@,
        Instruction::JmpIf(Condition::NotZero) => "JNZ   "@,
        Instruction::JmpIf(Condition::Zero) => "JZ    "@,
        Instruction::JmpIf(Condition::NoCarry) => "JNC   "@,
        Instruction::JmpIf(Condition::Carry) => "JC    "@,
        Instruction::JmpIf(Condition::ParityOdd) => "JPO   "@,
        Instruction::JmpIf(Condition::ParityEven) => "JPE   "@,
        Instruction::JmpIf(Condition::Plus) => "JP    "@,
        Instruction::JmpIf(Condition::Minus) => "JM    "@,
        Instruction::Call => "CALL  "@,
        Instruction::CallIf(Condition::NotZero) => "CNZ   "@,
        Instruction::CallIf(Condition::Zero) => "CZ    "@,
        Instruction::CallIf(Condition::NoCarry) => "CNC   "@,
        Instruction::CallIf(Condition::Carry) => "CC    "@,
        Instruction::CallIf(Condition::ParityOdd) => "CPO   "@,
        Instruction::CallIf(Condition::ParityEven) => "CPE   "@,
        Instruction::CallIf(Condition::Plus) => "CP    "@,
        Instruction::CallIf(Condition::Minus) => "CM    "@,
        Instruction::Ret => "RET"@,
        Instruction::RetIf(Condition::NotZero) => "RNZ"@,
        Instruction::RetIf(Condition::Zero) => "RZ"@,
        Instruction::RetIf(Condition::NoCarry) => "RNC"@,
        Instruction::RetIf(Condition::Carry) => "RC"@,
        Instruction::RetIf(Condition::ParityOdd) => "RPO"@,
        Instruction::RetIf(Condition::ParityEven) => "RPE"@,
        Instruction::RetIf(Condition::Plus) => "RP"@,
        Instruction::RetIf(Condition::Minus) => "RM"@,
        Instruction::Rst(_) => "RST   "@,
        Instruction::Push(_) => "PUSH  "@,
        Instruction::Pop(_) => "POP   "@,
        Instruction::Pchl => "PCHL"@,
        Instruction::Sphl => "SPHL"@,
        Instruction::Xthl => "XTHL"@,
        Instruction::Xchg => "XCHG"@,
        Instruction::In => "IN    "@,
        Instruction::Out => "OUT   "@,
        Instruction::Ei => "EI"@,
        Instruction::Di => "DI"@,
    }
}

/// The operands of an instruction, where `low` and `high` are the two bytes
/// that follow the opcode.
pub open spec fn operand_text(instruction: Instruction, low: u8, high: u8) -> Seq<char> {
    match instruction {
        Instruction::Lxi(pair) => pair_text(pair) + ",#$"@ + hex_byte_text(high) + hex_byte_text(
            low,
        ),
        Instruction::Stax(pair)
        | Instruction::Ldax(pair)
        | Instruction::Inx(pair)
        | Instruction::Dcx(pair)
        | Instruction::Dad(pair) => pair_text(pair),
        Instruction::Inr(reg) | Instruction::Dcr(reg) | Instruction::Alu(_, reg) => reg_text(reg),
        Instruction::Mvi(reg) => reg_text(reg) + ",#$"@ + hex_byte_text(low),
        Instruction::Mov(to, from) => reg_text(to) + ","@ + reg_text(from),
        Instruction::Shld
        | Instruction::Lhld
        | Instruction::Sta
        | Instruction::Lda
        | Instruction::Jmp
        | Instruction::JmpIf(_)
        | Instruction::Call
        | Instruction::CallIf(_) => "$"@ + hex_byte_text(high) + hex_byte_text(low),
        Instruction::AluImmediate(_) | Instruction::In | Instruction::Out => "#$"@
            + hex_byte_text(low),
        Instruction::Rst(number) => hex_digit_text(number),
        Instruction::Push(pair) | Instruction::Pop(pair) => stack_pair_text(pair),
        _ => Seq::empty(),
    }
}

/// The text of an instruction, where `low` and `high` are the two bytes that
/// follow the opcode.
pub open spec fn instruction_text(instruction: Instruction, low: u8, high: u8) -> Seq<char> {
    mnemonic_text(instruction) + operand_text(instruction, low, high)
}

/// The text of the instruction at `addr`.
#[verifier::opaque]
pub open spec fn text_at(cells: Seq<u8>, addr: int) -> Seq<char> {
    instruction_text(
        decode(cells[addr]),
        cells[next_address(addr)],
        cells[next_address(next_address(addr))],
    )
}

/// The address `offset` bytes after `start`, wrapping at the end of the
/// address space.
#[verifier::opaque]
pub open spec fn address_after(start: u16, offset: int) -> u16 {
    ((start + offset) % 0x10000) as u16
}

/// One line of a listing.
#[derive(Debug, PartialEq, Eq)]
pub struct Line {
    /// Where the instruction starts.
    pub address: u16,
    /// The number of bytes of the instruction.
    pub length: u8,
    /// The instruction as text.
    pub text: String,
}

/// The sum of the lengths of the first `count` lines.
pub open spec fn lengths_before(lines: Seq<Line>, count: int) -> int
    decreases count,
{
    if count <= 0 {
        0
    } else {
        lengths_before(lines, count - 1) + lines[count - 1].length
    }
}

/// Returns the hexadecimal digit for `nibble`, in lower case.
fn hex_digit(nibble: u8) -> (text: &'static str)
    ensures
        text@ == hex_digit_text(nibble),
{
    match nibble {
        0 => "0",
        1 => "1",
        2 => "2",
        3 => "3",
        4 => "4",
        5 => "5",
        6 => "6",
        7 => "7",
        8 => "8",
        9 => "9",
        10 => "a",
        11 => "b",
        12 => "c",
        13 => "d",
        14 => "e",
        _ => "f",
    }
}

/// Appends the two hexadecimal digits of `byte` to `text`.
fn append_hex_byte(text: &mut String, byte: u8)
    ensures
        final(text)@ == old(text)@ + hex_byte_text(byte),
{
    text.append(hex_digit(byte / 16));
    text.append(hex_digit(byte % 16));
}

/// Returns the letter of an 8-bit operand.
fn reg_name(reg: Reg) -> (text: &'static str)
    ensures
        text@ == reg_text(reg),
{
    match reg {
        Reg::B => "B",
        Reg::C => "C",
        Reg::D => "D",
        Reg::E => "E",
        Reg::H => "H",
        Reg::L => "L",
        Reg::M => "M",
        Reg::A => "A",
    }
}

/// Returns the name of a register pair.
fn pair_name(pair: RegPair) -> (text: &'static str)
    ensures
        text@ == pair_text(pair),
{
    match pair {
        RegPair::BC => "B",
        RegPair::DE => "D",
        RegPair::HL => "H",
        RegPair::SP => "SP",
    }
}

/// Returns the name of a pair in PUSH and POP.
fn stack_pair_name(pair: StackPair) -> (text: &'static str)
    ensures
        text@ == stack_pair_text(pair),
{
    match pair {
        StackPair::BC => "B",
        StackPair::DE => "D",
        StackPair::HL => "H",
        StackPair::PSW => "PSW",
    }
}

/// Returns the mnemonic of an instruction, with the padding that precedes
/// its operands where it has any.
pub fn mnemonic(instruction: Instruction) -> (text: &'static str)
    ensures
        text@ == mnemonic_text(instruction),
{
    match instruction {
        Instruction::Nop => "NOP",
        Instruction::Lxi(_) => "LXI   ",
        Instruction::Stax(_) => "STAX  ",
        Instruction::Ldax(_) => "LDAX  ",
        Instruction::Inx(_) => "INX   ",
        Instruction::Dcx(_) => "DCX   ",
        Instruction::Dad(_) => "DAD   ",
        Instruction::Inr(_) => "INR   ",
        Instruction::Dcr(_) => "DCR   ",
        Instruction::Mvi(_) => "MVI   ",
        Instruction::Shld => "SHLD  ",
        Instruction::Lhld => "LHLD  ",
        Instruction::Sta => "STA   ",
        Instruction::Lda => "LDA   ",
        Instruction::Rlc => "RLC",
        Instruction::Rrc => "RRC",
        Instruction::Ral => "RAL",
        Instruction::Rar => "RAR",
        Instruction::Daa => "DAA",
        Instruction::Cma => "CMA",
        Instruction::Stc => "STC",
        Instruction::Cmc => "CMC",
        Instruction::Mov(_, _) => "MOV   ",
        Instruction::Hlt => "HLT",
        Instruction::Alu(AluOp::Add, _) => "ADD   ",
        Instruction::Alu(AluOp::Adc, _) => "ADC   ",
        Instruction::Alu(AluOp::Sub, _) => "SUB   ",
        Instruction::Alu(AluOp::Sbb, _) => "SBB   ",
        Instruction::Alu(AluOp::Ana, _) => "ANA   ",
        Instruction::Alu(AluOp::Xra, _) => "XRA   ",
        Instruction::Alu(AluOp::Ora, _) => "ORA   ",
        Instruction::Alu(AluOp::Compare, _) => "CMP   ",
        Instruction::AluImmediate(AluOp::Add) => "ADI   ",
        Instruction::AluImmediate(AluOp::Adc) => "ACI   ",
        Instruction::AluImmediate(AluOp::Sub) => "SUI   ",
        Instruction::AluImmediate(AluOp::Sbb) => "SBI   ",
        Instruction::AluImmediate(AluOp::Ana) => "ANI   ",
        Instruction::AluImmediate(AluOp::Xra) => "XRI   ",
        Instruction::AluImmediate(AluOp::Ora) => "ORI   ",
        Instruction::AluImmediate(AluOp::Compare) => "CPI   ",
        Instruction::Jmp => "JMP   ",
        Instruction::JmpIf(Condition::NotZero) => "JNZ   ",
        Instruction::JmpIf(Condition::Zero) => "JZ    ",
        Instruction::JmpIf(Condition::NoCarry) => "JNC   ",
        Instruction::JmpIf(Condition::Carry) => "JC    ",
        Instruction::JmpIf(Condition::ParityOdd) => "JPO   ",
        Instruction::JmpIf(Condition::ParityEven) => "JPE   ",
        Instruction::JmpIf(Condition::Plus) => "JP    ",
        Instruction::JmpIf(Condition::Minus) => "JM    ",
        Instruction::Call => "CALL  ",
        Instruction::CallIf(Condition::NotZero) => "CNZ   ",
        Instruction::CallIf(Condition::Zero) => "CZ    ",
        Instruction::CallIf(Condition::NoCarry) => "CNC   ",
        Instruction::CallIf(Condition::Carry) => "CC    ",
        Instruction::CallIf(Condition::ParityOdd) => "CPO   ",
        Instruction::CallIf(Condition::ParityEven) => "CPE   ",
        Instruction::CallIf(Condition::Plus) => "CP    ",
        Instruction::CallIf(Condition::Minus) => "CM    ",
        Instruction::Ret => "RET",
        Instruction::RetIf(Condition::NotZero) => "RNZ",
        Instruction::RetIf(Condition::Zero) => "RZ",
        Instruction::RetIf(Condition::NoCarry) => "RNC",
        Instruction::RetIf(Condition::Carry) => "RC",
        Instruction::RetIf(Condition::ParityOdd) => "RPO",
        Instruction::RetIf(Condition::ParityEven) => "RPE",
        Instruction::RetIf(Condition::Plus) => "RP",
        Instruction::RetIf(Condition::Minus) => "RM",
        Instruction::Rst(_) => "RST   ",
        Instruction::Push(_) => "PUSH  ",
        Instruction::Pop(_) => "POP   ",
        Instruction::Pchl => "PCHL",
        Instruction::Sphl => "SPHL",
        Instruction::Xthl => "XTHL",
        Instruction::Xchg => "XCHG",
        Instruction::In => "IN    ",
        Instruction::Out => "OUT   ",
        Instruction::Ei => "EI",
        Instruction::Di => "DI",
    }
}

/// Returns the text of an instruction, where `low` and `high` are the two
/// bytes that follow the opcode.
pub fn render(instruction: Instruction, low: u8, high: u8) -> (text: String)
    ensures
        text@ == instruction_text(instruction, low, high),
{
    let mut text = String::from_str(mnemonic(instruction));
    match instruction {
        Instruction::Lxi(pair) => {
            text.append(pair_name(pair));
            text.append(",#$");
            append_hex_byte(&mut text, high);
            append_hex_byte(&mut text, low);
        },
        Instruction::Stax(pair)
        | Instruction::Ldax(pair)
        | Instruction::Inx(pair)
        | Instruction::Dcx(pair)
        | Instruction::Dad(pair) => {
            text.append(pair_name(pair));
        },
        Instruction::Inr(reg) | Instruction::Dcr(reg) | Instruction::Alu(_, reg) => {
            text.append(reg_name(reg));
        },
        Instruction::Mvi(reg) => {
            text.append(reg_name(reg));
            text.append(",#$");
            append_hex_byte(&mut text, low);
        },
        Instruction::Mov(to, from) => {
            text.append(reg_name(to));
            text.append(",");
            text.append(reg_name(from));
        },
        Instruction::Shld
        | Instruction::Lhld
        | Instruction::Sta
        | Instruction::Lda
        | Instruction::Jmp
        | Instruction::JmpIf(_)
        | Instruction::Call
        | Instruction::CallIf(_) => {
            text.append("$");
            append_hex_byte(&mut text, high);
            append_hex_byte(&mut text, low);
        },
        Instruction::AluImmediate(_) | Instruction::In | Instruction::Out => {
            text.append("#$");
            append_hex_byte(&mut text, low);
        },
        Instruction::Rst(number) => {
            text.append(hex_digit(number));
        },
        Instruction::Push(pair) | Instruction::Pop(pair) => {
            text.append(stack_pair_name(pair));
        },
        _ => {},
    }
    text
}

/// Returns the instruction at `addr` as text, and its length in bytes. An
/// opcode outside the published set reads as `NOP`, of length 1.
pub fn disassemble<M: Memory>(memory: &M, addr: u16) -> (result: (String, u8))
    requires
        memory@.len() == ADDRESS_SPACE,
    ensures
        result.0@ == text_at(memory@, addr as int),
        result.1 == decode(memory@[addr as int]).len(),
        1 <= result.1 <= 3,
{
    reveal(text_at);
    let instruction = Instruction::decode(memory.get(addr as usize));
    let low = memory.get(addr.wrapping_add(1) as usize);
    let high = memory.get(addr.wrapping_add(2) as usize);
    (render(instruction, low, high), instruction.length())
}

/// Returns the listing of the instructions from `start` on that cover
/// `size` bytes. Each line starts where the lengths of the lines before it
/// end, wrapping at the end of the address space, and the listing stops with
/// the first line that reaches or passes `size` bytes.
pub fn disassemble_range<M: Memory>(memory: &M, start: u16, size: usize) -> (lines: Vec<Line>)
    requires
        memory@.len() == ADDRESS_SPACE,
        size <= ADDRESS_SPACE,
    ensures
        forall|i: int|
            0 <= i < lines@.len() ==> {
                &&& (#[trigger] lines@[i]).address == address_after(start, lengths_before(lines@, i))
                &&& lines@[i].length == decode(memory@[lines@[i].address as int]).len()
                &&& lines@[i].text@ == text_at(memory@, lines@[i].address as int)
                &&& lengths_before(lines@, i) < size
            },
        size <= lengths_before(lines@, lines@.len() as int) <= size + 2,
{
    let mut lines: Vec<Line> = Vec::new();
    let mut addr = start;
    let mut consumed: usize = 0;
    proof {
        lemma_wrapping_sum(start, 0, 0);
    }
    while consumed < size
        invariant
            memory@.len() == ADDRESS_SPACE,
            size <= ADDRESS_SPACE,
            consumed == lengths_before(lines@, lines@.len() as int),
            consumed <= size + 2,
            addr == address_after(start, consumed as int),
            forall|i: int|
                0 <= i < lines@.len() ==> {
                    &&& (#[trigger] lines@[i]).address == address_after(
                        start,
                        lengths_before(lines@, i),
                    )
                    &&& lines@[i].length == decode(memory@[lines@[i].address as int]).len()
                    &&& lines@[i].text@ == text_at(memory@, lines@[i].address as int)
                    &&& lengths_before(lines@, i) < size
                },
        decreases size + 2 - consumed,
    {
        let (text, length) = disassemble(memory, addr);
        let ghost before = lines@;
        let ghost count = before.len() as int;
        lines.push(Line { address: addr, length, text });
        proof {
            assert forall|i: int| 0 <= i <= count implies lengths_before(lines@, i)
                == lengths_before(before, i) by {
                lemma_lengths_before_push(before, lines@[count], i);
            }
            lemma_wrapping_sum(start, consumed as int, length);
        }
        addr = addr.wrapping_add(length as u16);
        consumed = consumed + length as usize;
    }
    lines
}

/// The address 0 bytes after `start` is `start`, and adding a length to an
/// address that wraps is adding it before wrapping.
proof fn lemma_wrapping_sum(start: u16, consumed: int, length: u8)
    requires
        0 <= consumed,
    ensures
        address_after(start, 0) == start,
        address_after(start, consumed).wrapping_add(length as u16) == address_after(
            start,
            consumed + length,
        ),
{
    reveal(address_after);
}

/// The sum of the lengths of the first lines is the same after one more
/// line is added at the end.
proof fn lemma_lengths_before_push(lines: Seq<Line>, line: Line, count: int)
    requires
        0 <= count <= lines.len(),
    ensures
        lengths_before(lines.push(line), count) == lengths_before(lines, count),
    decreases count,
{
    if count > 0 {
        lemma_lengths_before_push(lines, line, count - 1);
    }
}

} // verus!
