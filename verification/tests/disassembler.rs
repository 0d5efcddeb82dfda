use intel8080::disassembler::{disassemble, disassemble_range, mnemonic, render, Line};
use intel8080::instruction::{AluOp, Condition, Instruction, Reg, RegPair, StackPair};
use intel8080::memory::{Linear, Memory};

fn memory_with(program: &[u8], at: u16) -> Linear {
    let mut memory = Linear::new();
    for (i, byte) in program.iter().enumerate() {
        memory.set((at as usize + i) % 0x10000, *byte);
    }
    memory
}

fn text_of(program: &[u8]) -> (String, u8) {
    disassemble(&memory_with(program, 0x0100), 0x0100)
}

#[test]
fn lxi_is_rendered_with_its_word() {
    assert_eq!(text_of(&[0x01, 0x12, 0x34]), ("LXI   B,#$3412".to_string(), 3));
    assert_eq!(text_of(&[0x31, 0x00, 0x24]), ("LXI   SP,#$2400".to_string(), 3));
}

#[test]
fn instructions_without_operands() {
    assert_eq!(text_of(&[0x00]), ("NOP".to_string(), 1));
    assert_eq!(text_of(&[0x76]), ("HLT".to_string(), 1));
    assert_eq!(text_of(&[0xc9]), ("RET".to_string(), 1));
    assert_eq!(text_of(&[0x27]), ("DAA".to_string(), 1));
    assert_eq!(text_of(&[0xeb]), ("XCHG".to_string(), 1));
    assert_eq!(text_of(&[0xe3]), ("XTHL".to_string(), 1));
    assert_eq!(text_of(&[0xfb]), ("EI".to_string(), 1));
    assert_eq!(text_of(&[0xf3]), ("DI".to_string(), 1));
    assert_eq!(text_of(&[0xc8]), ("RZ".to_string(), 1));
    assert_eq!(text_of(&[0xf0]), ("RP".to_string(), 1));
}

#[test]
fn undocumented_opcodes_read_as_nop() {
    for opcode in [0x08u8, 0x10, 0x18, 0x20, 0x28, 0x30, 0x38, 0xcb, 0xd9, 0xdd, 0xed, 0xfd] {
        assert_eq!(text_of(&[opcode, 0xff, 0xff]), ("NOP".to_string(), 1));
    }
}

#[test]
fn register_operands() {
    assert_eq!(text_of(&[0x41]), ("MOV   B,C".to_string(), 1));
    assert_eq!(text_of(&[0x77]), ("MOV   M,A".to_string(), 1));
    assert_eq!(text_of(&[0x7e]), ("MOV   A,M".to_string(), 1));
    assert_eq!(text_of(&[0x80]), ("ADD   B".to_string(), 1));
    assert_eq!(text_of(&[0x8e]), ("ADC   M".to_string(), 1));
    assert_eq!(text_of(&[0x97]), ("SUB   A".to_string(), 1));
    assert_eq!(text_of(&[0x9d]), ("SBB   L".to_string(), 1));
    assert_eq!(text_of(&[0xa2]), ("ANA   D".to_string(), 1));
    assert_eq!(text_of(&[0xab]), ("XRA   E".to_string(), 1));
    assert_eq!(text_of(&[0xb4]), ("ORA   H".to_string(), 1));
    assert_eq!(text_of(&[0xb9]), ("CMP   C".to_string(), 1));
    assert_eq!(text_of(&[0x34]), ("INR   M".to_string(), 1));
    assert_eq!(text_of(&[0x3d]), ("DCR   A".to_string(), 1));
}

#[test]
fn pair_operands() {
    assert_eq!(text_of(&[0x02]), ("STAX  B".to_string(), 1));
    assert_eq!(text_of(&[0x1a]), ("LDAX  D".to_string(), 1));
    assert_eq!(text_of(&[0x23]), ("INX   H".to_string(), 1));
    assert_eq!(text_of(&[0x3b]), ("DCX   SP".to_string(), 1));
    assert_eq!(text_of(&[0x19]), ("DAD   D".to_string(), 1));
    assert_eq!(text_of(&[0xc5]), ("PUSH  B".to_string(), 1));
    assert_eq!(text_of(&[0xf5]), ("PUSH  PSW".to_string(), 1));
    assert_eq!(text_of(&[0xe1]), ("POP   H".to_string(), 1));
    assert_eq!(text_of(&[0xf1]), ("POP   PSW".to_string(), 1));
}

#[test]
fn immediate_bytes() {
    assert_eq!(text_of(&[0x06, 0x0a]), ("MVI   B,#$0a".to_string(), 2));
    assert_eq!(text_of(&[0x36, 0xff]), ("MVI   M,#$ff".to_string(), 2));
    assert_eq!(text_of(&[0xc6, 0x01]), ("ADI   #$01".to_string(), 2));
    assert_eq!(text_of(&[0xce, 0x10]), ("ACI   #$10".to_string(), 2));
    assert_eq!(text_of(&[0xd6, 0x9c]), ("SUI   #$9c".to_string(), 2));
    assert_eq!(text_of(&[0xde, 0x00]), ("SBI   #$00".to_string(), 2));
    assert_eq!(text_of(&[0xe6, 0xf0]), ("ANI   #$f0".to_string(), 2));
    assert_eq!(text_of(&[0xee, 0x5b]), ("XRI   #$5b".to_string(), 2));
    assert_eq!(text_of(&[0xf6, 0x7d]), ("ORI   #$7d".to_string(), 2));
    assert_eq!(text_of(&[0xfe, 0xe8]), ("CPI   #$e8".to_string(), 2));
    assert_eq!(text_of(&[0xdb, 0x02]), ("IN    #$02".to_string(), 2));
    assert_eq!(text_of(&[0xd3, 0x06]), ("OUT   #$06".to_string(), 2));
}

#[test]
fn addresses() {
    assert_eq!(text_of(&[0xc3, 0xd4, 0x18]), ("JMP   $18d4".to_string(), 3));
    assert_eq!(text_of(&[0xc2, 0x00, 0x02]), ("JNZ   $0200".to_string(), 3));
    assert_eq!(text_of(&[0xfa, 0xcd, 0xab]), ("JM    $abcd".to_string(), 3));
    assert_eq!(text_of(&[0xcd, 0x05, 0x00]), ("CALL  $0005".to_string(), 3));
    assert_eq!(text_of(&[0xc4, 0x00, 0x02]), ("CNZ   $0200".to_string(), 3));
    assert_eq!(text_of(&[0xec, 0x34, 0x12]), ("CPE   $1234".to_string(), 3));
    assert_eq!(text_of(&[0x32, 0x00, 0x20]), ("STA   $2000".to_string(), 3));
    assert_eq!(text_of(&[0x3a, 0xef, 0xbe]), ("LDA   $beef".to_string(), 3));
    assert_eq!(text_of(&[0x22, 0x01, 0x30]), ("SHLD  $3001".to_string(), 3));
    assert_eq!(text_of(&[0x2a, 0x10, 0x30]), ("LHLD  $3010".to_string(), 3));
}

#[test]
fn restarts() {
    assert_eq!(text_of(&[0xc7]), ("RST   0".to_string(), 1));
    assert_eq!(text_of(&[0xd7]), ("RST   2".to_string(), 1));
    assert_eq!(text_of(&[0xff]), ("RST   7".to_string(), 1));
}

#[test]
fn operands_are_read_around_the_end_of_memory() {
    let memory = memory_with(&[0xc3, 0x34, 0x12], 0xffff);
    assert_eq!(disassemble(&memory, 0xffff), ("JMP   $1234".to_string(), 3));
    let memory = memory_with(&[0x3e, 0x77], 0xffff);
    assert_eq!(disassemble(&memory, 0xffff), ("MVI   A,#$77".to_string(), 2));
}

#[test]
fn disassembly_leaves_memory_alone() {
    let memory = memory_with(&[0x32, 0x00, 0x20, 0x77], 0x0100);
    let copy = memory.data.clone();
    let _ = disassemble(&memory, 0x0100);
    let _ = disassemble_range(&memory, 0x0100, 4);
    assert_eq!(memory.data, copy);
}

#[test]
fn render_and_mnemonic() {
    assert_eq!(mnemonic(Instruction::Nop), "NOP");
    assert_eq!(mnemonic(Instruction::Mov(Reg::A, Reg::B)), "MOV   ");
    assert_eq!(mnemonic(Instruction::Alu(AluOp::Compare, Reg::A)), "CMP   ");
    assert_eq!(mnemonic(Instruction::RetIf(Condition::ParityOdd)), "RPO");
    assert_eq!(render(Instruction::Lxi(RegPair::HL), 0xcd, 0xab), "LXI   H,#$abcd");
    assert_eq!(render(Instruction::Push(StackPair::DE), 0, 0), "PUSH  D");
    assert_eq!(render(Instruction::CallIf(Condition::Carry), 0x01, 0x02), "CC    $0201");
    assert_eq!(render(Instruction::JmpIf(Condition::NoCarry), 0x01, 0x02), "JNC   $0201");
    assert_eq!(render(Instruction::Cma, 0x01, 0x02), "CMA");
}

#[test]
fn a_listing_walks_the_instructions() {
    let memory = memory_with(&[0x3e, 0x07, 0x01, 0x34, 0x12, 0x80, 0x76], 0x0200);
    let lines = disassemble_range(&memory, 0x0200, 7);
    assert_eq!(
        lines,
        vec![
            Line { address: 0x0200, length: 2, text: "MVI   A,#$07".to_string() },
            Line { address: 0x0202, length: 3, text: "LXI   B,#$1234".to_string() },
            Line { address: 0x0205, length: 1, text: "ADD   B".to_string() },
            Line { address: 0x0206, length: 1, text: "HLT".to_string() },
        ]
    );
}

#[test]
fn a_listing_ends_with_the_instruction_that_passes_the_size() {
    let memory = memory_with(&[0x00, 0xc3, 0x00, 0x10], 0x0200);
    assert_eq!(disassemble_range(&memory, 0x0200, 0), vec![]);
    assert_eq!(disassemble_range(&memory, 0x0200, 1).len(), 1);
    let lines = disassemble_range(&memory, 0x0200, 2);
    assert_eq!(lines.len(), 2);
    assert_eq!(lines[1], Line { address: 0x0201, length: 3, text: "JMP   $1000".to_string() });
    assert_eq!(disassemble_range(&memory, 0x0200, 4).len(), 2);
    assert_eq!(disassemble_range(&memory, 0x0200, 5).len(), 3);
}

#[test]
fn a_listing_wraps_around_the_end_of_memory() {
    let memory = memory_with(&[0x00, 0x3e, 0x01, 0x76], 0xfffe);
    let lines = disassemble_range(&memory, 0xfffe, 4);
    let addresses: Vec<u16> = lines.iter().map(|line| line.address).collect();
    assert_eq!(addresses, vec![0xfffe, 0xffff, 0x0001]);
    assert_eq!(lines[1].text, "MVI   A,#$01");
    assert_eq!(lines[2].text, "HLT");
}

#[test]
fn a_listing_of_the_whole_address_space() {
    let memory = Linear::new();
    let lines = disassemble_range(&memory, 0x0000, 0x10000);
    assert_eq!(lines.len(), 0x10000);
    assert_eq!(lines[0xffff].address, 0xffff);
    assert_eq!(lines[0xffff].text, "NOP");
}
