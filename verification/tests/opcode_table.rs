use intel8080::disassembler::disassemble;
use intel8080::instruction::{AluOp, Condition, Instruction, Reg, RegPair, StackPair};
use intel8080::memory::{Linear, Memory};

/// The opcode map, row by row. `d8` is an immediate byte, `d16` an
/// immediate word, `adr` an address.
const TABLE: [&str; 256] = [
    "NOP", "LXI B,d16", "STAX B", "INX B", "INR B", "DCR B", "MVI B,d8", "RLC",
    "NOP", "DAD B", "LDAX B", "DCX B", "INR C", "DCR C", "MVI C,d8", "RRC",
    "NOP", "LXI D,d16", "STAX D", "INX D", "INR D", "DCR D", "MVI D,d8", "RAL",
    "NOP", "DAD D", "LDAX D", "DCX D", "INR E", "DCR E", "MVI E,d8", "RAR",
    "NOP", "LXI H,d16", "SHLD adr", "INX H", "INR H", "DCR H", "MVI H,d8", "DAA",
    "NOP", "DAD H", "LHLD adr", "DCX H", "INR L", "DCR L", "MVI L,d8", "CMA",
    "NOP", "LXI SP,d16", "STA adr", "INX SP", "INR M", "DCR M", "MVI M,d8", "STC",
    "NOP", "DAD SP", "LDA adr", "DCX SP", "INR A", "DCR A", "MVI A,d8", "CMC",
    "MOV B,B", "MOV B,C", "MOV B,D", "MOV B,E", "MOV B,H", "MOV B,L", "MOV B,M", "MOV B,A",
    "MOV C,B", "MOV C,C", "MOV C,D", "MOV C,E", "MOV C,H", "MOV C,L", "MOV C,M", "MOV C,A",
    "MOV D,B", "MOV D,C", "MOV D,D", "MOV D,E", "MOV D,H", "MOV D,L", "MOV D,M", "MOV D,A",
    "MOV E,B", "MOV E,C", "MOV E,D", "MOV E,E", "MOV E,H", "MOV E,L", "MOV E,M", "MOV E,A",
    "MOV H,B", "MOV H,C", "MOV H,D", "MOV H,E", "MOV H,H", "MOV H,L", "MOV H,M", "MOV H,A",
    "MOV L,B", "MOV L,C", "MOV L,D", "MOV L,E", "MOV L,H", "MOV L,L", "MOV L,M", "MOV L,A",
    "MOV M,B", "MOV M,C", "MOV M,D", "MOV M,E", "MOV M,H", "MOV M,L", "HLT", "MOV M,A",
    "MOV A,B", "MOV A,C", "MOV A,D", "MOV A,E", "MOV A,H", "MOV A,L", "MOV A,M", "MOV A,A",
    "ADD B", "ADD C", "ADD D", "ADD E", "ADD H", "ADD L", "ADD M", "ADD A",
    "ADC B", "ADC C", "ADC D", "ADC E", "ADC H", "ADC L", "ADC M", "ADC A",
    "SUB B", "SUB C", "SUB D", "SUB E", "SUB H", "SUB L", "SUB M", "SUB A",
    "SBB B", "SBB C", "SBB D", "SBB E", "SBB H", "SBB L", "SBB M", "SBB A",
    "ANA B", "ANA C", "ANA D", "ANA E", "ANA H", "ANA L", "ANA M", "ANA A",
    "XRA B", "XRA C", "XRA D", "XRA E", "XRA H", "XRA L", "XRA M", "XRA A",
    "ORA B", "ORA C", "ORA D", "ORA E", "ORA H", "ORA L", "ORA M", "ORA A",
    "CMP B", "CMP C", "CMP D", "CMP E", "CMP H", "CMP L", "CMP M", "CMP A",
    "RNZ", "POP B", "JNZ adr", "JMP adr", "CNZ adr", "PUSH B", "ADI d8", "RST 0",
    "RZ", "RET", "JZ adr", "NOP", "CZ adr", "CALL adr", "ACI d8", "RST 1",
    "RNC", "POP D", "JNC adr", "OUT d8", "CNC adr", "PUSH D", "SUI d8", "RST 2",
    "RC", "NOP", "JC adr", "IN d8", "CC adr", "NOP", "SBI d8", "RST 3",
    "RPO", "POP H", "JPO adr", "XTHL", "CPO adr", "PUSH H", "ANI d8", "RST 4",
    "RPE", "PCHL", "JPE adr", "XCHG", "CPE adr", "NOP", "XRI d8", "RST 5",
    "RP", "POP PSW", "JP adr", "DI", "CP adr", "PUSH PSW", "ORI d8", "RST 6",
    "RM", "SPHL", "JM adr", "EI", "CM adr", "NOP", "CPI d8", "RST 7",
];

/// The text and the length that an entry of the table stands for, where the
/// opcode is followed by the bytes 0x34 and 0x12.
fn expected(entry: &str) -> (String, u8) {
    let length = if entry.contains("d16") || entry.contains("adr") {
        3
    } else if entry.contains("d8") {
        2
    } else {
        1
    };
    let text = match entry.split_once(' ') {
        None => entry.to_string(),
        Some((mnemonic, operands)) => {
            let operands =
                operands.replace("d16", "#$1234").replace("d8", "#$34").replace("adr", "$1234");
            format!("{:<6}{}", mnemonic, operands)
        }
    };
    (text, length)
}

#[test]
fn disassembly_agrees_with_the_opcode_map() {
    for opcode in 0..=255u8 {
        let mut memory = Linear::new();
        memory.set(0x0100, opcode);
        memory.set(0x0101, 0x34);
        memory.set(0x0102, 0x12);
        assert_eq!(
            disassemble(&memory, 0x0100),
            expected(TABLE[opcode as usize]),
            "opcode {:#04x}",
            opcode
        );
    }
}

#[test]
fn decode_of_chosen_opcodes() {
    assert_eq!(Instruction::decode(0x00), Instruction::Nop);
    assert_eq!(Instruction::decode(0x01), Instruction::Lxi(RegPair::BC));
    assert_eq!(Instruction::decode(0x31), Instruction::Lxi(RegPair::SP));
    assert_eq!(Instruction::decode(0x12), Instruction::Stax(RegPair::DE));
    assert_eq!(Instruction::decode(0x0a), Instruction::Ldax(RegPair::BC));
    assert_eq!(Instruction::decode(0x2b), Instruction::Dcx(RegPair::HL));
    assert_eq!(Instruction::decode(0x39), Instruction::Dad(RegPair::SP));
    assert_eq!(Instruction::decode(0x34), Instruction::Inr(Reg::M));
    assert_eq!(Instruction::decode(0x3e), Instruction::Mvi(Reg::A));
    assert_eq!(Instruction::decode(0x41), Instruction::Mov(Reg::B, Reg::C));
    assert_eq!(Instruction::decode(0x76), Instruction::Hlt);
    assert_eq!(Instruction::decode(0x77), Instruction::Mov(Reg::M, Reg::A));
    assert_eq!(Instruction::decode(0x80), Instruction::Alu(AluOp::Add, Reg::B));
    assert_eq!(Instruction::decode(0xbf), Instruction::Alu(AluOp::Compare, Reg::A));
    assert_eq!(Instruction::decode(0xd6), Instruction::AluImmediate(AluOp::Sub));
    assert_eq!(Instruction::decode(0xde), Instruction::AluImmediate(AluOp::Sbb));
    assert_eq!(Instruction::decode(0xc3), Instruction::Jmp);
    assert_eq!(Instruction::decode(0xca), Instruction::JmpIf(Condition::Zero));
    assert_eq!(Instruction::decode(0xe4), Instruction::CallIf(Condition::ParityOdd));
    assert_eq!(Instruction::decode(0xf8), Instruction::RetIf(Condition::Minus));
    assert_eq!(Instruction::decode(0xc9), Instruction::Ret);
    assert_eq!(Instruction::decode(0xcd), Instruction::Call);
    assert_eq!(Instruction::decode(0xef), Instruction::Rst(5));
    assert_eq!(Instruction::decode(0xf5), Instruction::Push(StackPair::PSW));
    assert_eq!(Instruction::decode(0xd1), Instruction::Pop(StackPair::DE));
    assert_eq!(Instruction::decode(0xe9), Instruction::Pchl);
    assert_eq!(Instruction::decode(0xf9), Instruction::Sphl);
    assert_eq!(Instruction::decode(0xe3), Instruction::Xthl);
    assert_eq!(Instruction::decode(0xeb), Instruction::Xchg);
    assert_eq!(Instruction::decode(0xdb), Instruction::In);
    assert_eq!(Instruction::decode(0xd3), Instruction::Out);
    assert_eq!(Instruction::decode(0xfb), Instruction::Ei);
    assert_eq!(Instruction::decode(0xf3), Instruction::Di);
    assert_eq!(Instruction::decode(0xdd), Instruction::Nop);
}

#[test]
fn fields_name_operands() {
    assert_eq!(Reg::from_code(0), Reg::B);
    assert_eq!(Reg::from_code(6), Reg::M);
    assert_eq!(Reg::from_code(7), Reg::A);
    assert_eq!(RegPair::from_code(1), RegPair::DE);
    assert_eq!(RegPair::from_code(3), RegPair::SP);
    assert_eq!(StackPair::from_code(2), StackPair::HL);
    assert_eq!(StackPair::from_code(3), StackPair::PSW);
    assert_eq!(Condition::from_code(0), Condition::NotZero);
    assert_eq!(Condition::from_code(5), Condition::ParityEven);
    assert_eq!(Condition::from_code(7), Condition::Minus);
    assert_eq!(AluOp::from_code(1), AluOp::Adc);
    assert_eq!(AluOp::from_code(7), AluOp::Compare);
}
