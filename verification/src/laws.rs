//! What holds of every state and every instruction.

use vstd::prelude::*;
use crate::alu;
use crate::disassembler::address_after;
use crate::instruction::{decode, AluOp, Condition, Instruction, StackPair};
use crate::machine::{alu_result, Machine};
use crate::memory::lemma_store_word;
use crate::register::{is_normalized, lemma_reserved_bits, normalized, Flags, Register};
use crate::word;

verus! {

/// No instruction takes a cell away from the memory or adds one: a machine
/// with a cell for every address has one after every step and every
/// interrupt request.
pub proof fn lemma_wf_is_kept(m: Machine, opcode: u8, input: u8)
    requires
        m.wf(),
    ensures
        m.perform(decode(opcode), input).wf(),
        m.execute(opcode, input).wf(),
        m.step(input).wf(),
        m.interrupt(opcode).wf(),
{
    lemma_perform_keeps_wf(m, decode(opcode), input);
    lemma_perform_keeps_wf(m.advance(1), decode(m.next_byte()), input);
    lemma_perform_keeps_wf(
        Machine { halted: false, interrupts_enabled: false, ..m },
        decode(opcode),
        0,
    );
}

/// No instruction changes the number of memory cells.
pub proof fn lemma_perform_keeps_wf(m: Machine, instruction: Instruction, input: u8)
    requires
        m.wf(),
    ensures
        m.perform(instruction, input).wf(),
{
}

/// The processor is running or halted. Running, it halts with HLT and with
/// nothing else. Halted, it stays as it is through every step, whatever the
/// memory holds, and only an interrupt request that is taken sets it
/// running again: one that supplies any opcode but HLT.
pub proof fn lemma_halt_transitions(m: Machine, opcode: u8, input: u8)
    ensures
        !m.halted ==> (m.step(input).halted <==> decode(m.next_byte()) == Instruction::Hlt),
        m.halted ==> m.step(input) == m,
        !m.interrupts_enabled ==> m.interrupt(opcode) == m,
        m.interrupts_enabled ==> (m.interrupt(opcode).halted <==> decode(opcode)
            == Instruction::Hlt),
{
    lemma_perform_keeps_halt(m.advance(1), decode(m.next_byte()), input);
    lemma_perform_keeps_halt(
        Machine { halted: false, interrupts_enabled: false, ..m },
        decode(opcode),
        0,
    );
}

/// HLT halts the processor, and no other instruction changes whether it is
/// halted.
pub proof fn lemma_perform_keeps_halt(m: Machine, instruction: Instruction, input: u8)
    ensures
        instruction == Instruction::Hlt ==> m.perform(instruction, input).halted,
        instruction != Instruction::Hlt ==> m.perform(instruction, input).halted == m.halted,
{
}

/// The program counter after a step stands past the instruction that ran:
/// further on by the length of the instruction, wrapping at the end of the
/// address space. This holds of every instruction that transfers no
/// control, and of a conditional jump, call or return whose condition does
/// not hold.
pub proof fn lemma_step_advances_pc(m: Machine, input: u8)
    requires
        !m.halted,
    ensures
        ({
            let instruction = decode(m.next_byte());
            !instruction.transfers_control() || !branch_taken(m, instruction) ==> m.step(
                input,
            ).register.pc == m.register.pc.wrapping_add(instruction.len() as u16)
        }),
{
    let fetched = m.advance(1);
    let instruction = decode(m.next_byte());
    lemma_perform_advances_pc(fetched, instruction, input);
}

/// A listing and the processor agree on where instructions start: the line
/// that follows the instruction at the program counter starts where a step
/// leaves the program counter, unless the instruction transfers control.
pub proof fn lemma_step_reaches_next_line(m: Machine, input: u8)
    requires
        !m.halted,
    ensures
        ({
            let instruction = decode(m.next_byte());
            !instruction.transfers_control() || !branch_taken(m, instruction) ==> m.step(
                input,
            ).register.pc == address_after(m.register.pc, instruction.len())
        }),
{
    reveal(address_after);
    lemma_step_advances_pc(m, input);
}

/// Whether a jump, call or return happens: it is unconditional, or its
/// condition holds.
pub open spec fn branch_taken(m: Machine, instruction: Instruction) -> bool {
    match instruction {
        Instruction::JmpIf(condition)
        | Instruction::CallIf(condition)
        | Instruction::RetIf(condition) => m.holds(condition),
        _ => instruction.transfers_control(),
    }
}

/// An instruction that transfers no control leaves the program counter
/// past its operand; so does a conditional branch that is not taken.
pub proof fn lemma_perform_advances_pc(m: Machine, instruction: Instruction, input: u8)
    ensures
        !instruction.transfers_control() || !branch_taken(m, instruction) ==> m.perform(
            instruction,
            input,
        ).register.pc == m.register.pc.wrapping_add((instruction.len() - 1) as u16),
{
    match instruction {
        Instruction::Alu(op, reg) => {
            lemma_alu_changes_a_and_f(op, m.register, m.reg(reg));
        },
        Instruction::AluImmediate(op) => {
            lemma_alu_changes_a_and_f(op, m.advance(1).register, m.next_byte());
        },
        Instruction::Dad(pair) => {
            alu::lemma_only_carry_affected(m.register, m.pair(pair), Flags::Zero);
        },
        Instruction::Inr(reg) => {
            alu::lemma_inr_dcr(m.register, m.reg(reg));
        },
        Instruction::Dcr(reg) => {
            alu::lemma_inr_dcr(m.register, m.reg(reg));
        },
        Instruction::Rlc | Instruction::Rrc | Instruction::Ral | Instruction::Rar => {
            alu::lemma_only_carry_affected(m.register, 0, Flags::Zero);
        },
        Instruction::Stc | Instruction::Cmc => {
            alu::lemma_only_carry_affected(m.register, 0, Flags::Zero);
        },
        Instruction::Daa => {
            alu::lemma_daa(m.register);
        },
        Instruction::Cma => {
            alu::lemma_cma_twice(m.register);
        },
        _ => {},
    }
}

/// An accumulator operation changes no register but `a` and `f`, and in
/// `f` no bit that is no flag.
pub proof fn lemma_alu_changes_a_and_f(op: AluOp, reg: Register, value: u8)
    ensures
        alu::only_accumulator_and_flags_differ(reg, alu_result(op, reg, value)),
{
    alu::lemma_add_with_carry(reg, value, false);
    alu::lemma_add_with_carry(reg, value, reg.flag(Flags::Carry));
    alu::lemma_sub_with_borrow(reg, value, false);
    alu::lemma_sub_with_borrow(reg, value, reg.flag(Flags::Carry));
    alu::lemma_logic(reg, value);
    alu::lemma_compare(reg, value);
}

/// A conditional jump, call or return whose condition holds does what the
/// unconditional instruction does. One whose condition does not hold does
/// what a NOP of its length does: nothing, but that the program counter
/// passes the operand.
pub proof fn lemma_conditional_branch(m: Machine, condition: Condition, input: u8)
    ensures
        m.holds(condition) ==> {
            &&& m.perform(Instruction::JmpIf(condition), input) == m.perform(
                Instruction::Jmp,
                input,
            )
            &&& m.perform(Instruction::CallIf(condition), input) == m.perform(
                Instruction::Call,
                input,
            )
            &&& m.perform(Instruction::RetIf(condition), input) == m.perform(
                Instruction::Ret,
                input,
            )
        },
        !m.holds(condition) ==> {
            &&& m.perform(Instruction::JmpIf(condition), input) == m.perform(
                Instruction::Nop,
                input,
            ).advance(2)
            &&& m.perform(Instruction::CallIf(condition), input) == m.perform(
                Instruction::Nop,
                input,
            ).advance(2)
            &&& m.perform(Instruction::RetIf(condition), input) == m.perform(
                Instruction::Nop,
                input,
            )
        },
{
}

/// Each condition is the negation of its neighbour, and tests one flag.
pub proof fn lemma_conditions(m: Machine)
    ensures
        m.holds(Condition::Zero) == m.register.flag(Flags::Zero),
        m.holds(Condition::Carry) == m.register.flag(Flags::Carry),
        m.holds(Condition::ParityEven) == m.register.flag(Flags::Parity),
        m.holds(Condition::Minus) == m.register.flag(Flags::Sign),
        m.holds(Condition::NotZero) == !m.holds(Condition::Zero),
        m.holds(Condition::NoCarry) == !m.holds(Condition::Carry),
        m.holds(Condition::ParityOdd) == !m.holds(Condition::ParityEven),
        m.holds(Condition::Plus) == !m.holds(Condition::Minus),
{
}

/// A jump that is taken leaves the program counter at the target. A call
/// that is taken does so too, after pushing the address of the instruction
/// that follows it, which RET then returns to with the stack pointer where
/// it was.
pub proof fn lemma_call_and_return(m: Machine, input: u8)
    requires
        m.wf(),
    ensures
        m.perform(Instruction::Jmp, input).register.pc == m.next_word(),
        ({
            let called = m.perform(Instruction::Call, input);
            let returned = called.perform(Instruction::Ret, input);
            &&& called.register.pc == m.next_word()
            &&& called.register.sp == m.register.sp.wrapping_sub(2)
            &&& called.top() == m.register.pc.wrapping_add(2)
            &&& returned.register.pc == m.register.pc.wrapping_add(2)
            &&& returned.register.sp == m.register.sp
        }),
{
    let sp = m.register.sp.wrapping_sub(2);
    lemma_store_word(m.memory, sp as int, m.register.pc.wrapping_add(2), 0);
}

/// RST pushes the program counter and goes to 8 times its number.
pub proof fn lemma_restart(m: Machine, number: u8, input: u8)
    requires
        m.wf(),
        number < 8,
    ensures
        ({
            let restarted = m.perform(Instruction::Rst(number), input);
            &&& restarted.register.pc == 8 * number
            &&& restarted.register.sp == m.register.sp.wrapping_sub(2)
            &&& restarted.top() == m.register.pc
        }),
{
    let sp = m.register.sp.wrapping_sub(2);
    lemma_store_word(m.memory, sp as int, m.register.pc, 0);
}

/// PUSH of a pair and then POP into a pair leaves the stack pointer where it
/// was and the second pair with the word that PUSH stored for the first.
/// Where the second pair is the status word, this asks that the low byte of
/// that word has the bits that are no flags at their fixed values, as it has
/// where the first pair is the status word too: POP forces them.
pub proof fn lemma_push_pop(m: Machine, from: StackPair, to: StackPair, input: u8)
    requires
        m.wf(),
        to == StackPair::PSW ==> is_normalized(word::low_byte(m.stack_pair(from))),
    ensures
        ({
            let pushed = m.perform(Instruction::Push(from), input);
            let popped = pushed.perform(Instruction::Pop(to), input);
            &&& popped.register.sp == m.register.sp
            &&& popped.stack_pair(to) == m.stack_pair(from)
            &&& popped.memory == pushed.memory
        }),
{
    let value = m.stack_pair(from);
    let sp = m.register.sp.wrapping_sub(2);
    lemma_store_word(m.memory, sp as int, value, 0);
    word::lemma_split_then_join(value);
    lemma_reserved_bits(word::low_byte(value));
}

/// Whatever the pairs, POP after PUSH loads the word that PUSH stored, and
/// the stack pointer is where it was.
pub proof fn lemma_pop_loads_pushed(m: Machine, from: StackPair, to: StackPair, input: u8)
    requires
        m.wf(),
    ensures
        ({
            let pushed = m.perform(Instruction::Push(from), input);
            let popped = pushed.perform(Instruction::Pop(to), input);
            &&& pushed.top() == m.stack_pair(from)
            &&& popped == pushed.with_sp(m.register.sp).with_stack_pair(to, m.stack_pair(from))
        }),
{
    let sp = m.register.sp.wrapping_sub(2);
    lemma_store_word(m.memory, sp as int, m.stack_pair(from), 0);
}

/// The status word that PUSH stores has the bits of the low byte that are
/// no flags at their fixed values.
pub proof fn lemma_pushed_status_word(m: Machine)
    ensures
        is_normalized(word::low_byte(m.stack_pair(StackPair::PSW))),
        word::high_byte(m.stack_pair(StackPair::PSW)) == m.register.a,
{
    word::lemma_join_then_split(m.register.a, normalized(m.register.f));
    lemma_reserved_bits(m.register.f);
}

/// XCHG twice, and CMA twice, leave the machine as it was; CMA changes
/// nothing but the accumulator.
pub proof fn lemma_involutions(m: Machine, input: u8)
    ensures
        m.perform(Instruction::Xchg, input).perform(Instruction::Xchg, input) == m,
        m.perform(Instruction::Cma, input).perform(Instruction::Cma, input) == m,
        m.perform(Instruction::Cma, input).register.f == m.register.f,
        m.perform(Instruction::Cma, input) == m.with_a(
            m.perform(Instruction::Cma, input).register.a,
        ),
{
    alu::lemma_cma_twice(m.register);
    alu::lemma_cma_twice(alu::spec_cma(m.register));
}

/// XTHL trades HL for the word on top of the stack, and twice it changes
/// nothing.
pub proof fn lemma_xthl(m: Machine, input: u8)
    requires
        m.wf(),
    ensures
        ({
            let exchanged = m.perform(Instruction::Xthl, input);
            &&& exchanged.register.hl() == m.top()
            &&& exchanged.top() == m.register.hl()
            &&& exchanged.register.sp == m.register.sp
            &&& exchanged.perform(Instruction::Xthl, input).register == m.register
            &&& exchanged.perform(Instruction::Xthl, input).memory =~= m.memory
        }),
{
    let exchanged = m.perform(Instruction::Xthl, input);
    let sp = m.register.sp as int;
    lemma_store_word(m.memory, sp, m.register.hl(), 0);
    lemma_store_word(exchanged.memory, sp, exchanged.register.hl(), 0);
    m.register.lemma_pairs(m.top());
    exchanged.register.lemma_pairs(m.register.hl());
    word::lemma_split_then_join(m.top());
}

/// The bits of `f` that are no flags have their fixed values on power-up,
/// and a machine in which they have them has them after every step and
/// every interrupt request.
pub proof fn lemma_flags_stay_normalized(m: Machine, opcode: u8, input: u8)
    requires
        is_normalized(m.register.f),
    ensures
        is_normalized(Register::initial().f),
        is_normalized(m.step(input).register.f),
        is_normalized(m.interrupt(opcode).register.f),
{
    lemma_reserved_bits(m.register.f);
    lemma_perform_keeps_normalized(m.advance(1), decode(m.next_byte()), input);
    lemma_perform_keeps_normalized(
        Machine { halted: false, interrupts_enabled: false, ..m },
        decode(opcode),
        0,
    );
}

/// The bits of `f` that are no flags keep their fixed values through every
/// instruction.
pub proof fn lemma_perform_keeps_normalized(m: Machine, instruction: Instruction, input: u8)
    requires
        is_normalized(m.register.f),
    ensures
        is_normalized(m.perform(instruction, input).register.f),
{
    lemma_reserved_bits(m.register.f);
    lemma_reserved_bits(m.perform(instruction, input).register.f);
    match instruction {
        Instruction::Alu(op, reg) => {
            lemma_alu_changes_a_and_f(op, m.register, m.reg(reg));
        },
        Instruction::AluImmediate(op) => {
            lemma_alu_changes_a_and_f(op, m.advance(1).register, m.next_byte());
        },
        Instruction::Dad(pair) => {
            alu::lemma_only_carry_affected(m.register, m.pair(pair), Flags::Zero);
        },
        Instruction::Inr(reg) => {
            alu::lemma_inr_dcr(m.register, m.reg(reg));
        },
        Instruction::Dcr(reg) => {
            alu::lemma_inr_dcr(m.register, m.reg(reg));
        },
        Instruction::Rlc | Instruction::Rrc | Instruction::Ral | Instruction::Rar => {
            alu::lemma_only_carry_affected(m.register, 0, Flags::Zero);
        },
        Instruction::Stc | Instruction::Cmc => {
            alu::lemma_only_carry_affected(m.register, 0, Flags::Zero);
        },
        Instruction::Daa => {
            alu::lemma_daa(m.register);
        },
        Instruction::Cma => {
            alu::lemma_cma_twice(m.register);
        },
        Instruction::Pop(pair) => {
            lemma_reserved_bits(word::low_byte(m.top()));
        },
        _ => {},
    }
}

/// An interrupt request is dropped where interrupts are disabled. Where they
/// are enabled and the opcode is an RST, the processor is running with
/// interrupts disabled at 8 times the number of the RST, and the program
/// counter it had, which did not move for the opcode, is on top of the
/// stack.
pub proof fn lemma_interrupt(m: Machine, number: u8)
    requires
        m.wf(),
        number < 8,
    ensures
        !m.interrupts_enabled ==> m.interrupt((0xc7 + 8 * number) as u8) == m,
        m.interrupts_enabled ==> ({
            let taken = m.interrupt((0xc7 + 8 * number) as u8);
            &&& !taken.halted
            &&& !taken.interrupts_enabled
            &&& taken.register.pc == 8 * number
            &&& taken.register.sp == m.register.sp.wrapping_sub(2)
            &&& taken.top() == m.register.pc
        }),
{
    reveal(decode);
    let running = Machine { halted: false, interrupts_enabled: false, ..m };
    lemma_restart(running, number, 0);
}

} // verus!
