use intel8080::cpu::Cpu;
use intel8080::memory::{Linear, Memory};
use intel8080::register::Flags;

fn cpu_with(program: &[u8], at: u16) -> Cpu<Linear> {
    let mut memory = Linear::new();
    for (i, byte) in program.iter().enumerate() {
        memory.set(at as usize + i, *byte);
    }
    let mut cpu = Cpu::new(memory);
    cpu.register.pc = at;
    cpu
}

#[test]
fn add_sets_all_flags() {
    let mut cpu = cpu_with(&[0x80], 0);
    cpu.register.a = 0x3a;
    cpu.register.b = 0xc6;
    cpu.register.f = 0;
    cpu.next();
    assert_eq!(cpu.register.a, 0x00);
    assert!(cpu.register.get_flag(Flags::Zero));
    assert!(cpu.register.get_flag(Flags::Carry));
    assert!(cpu.register.get_flag(Flags::AC));
    assert!(cpu.register.get_flag(Flags::Parity));
    assert!(!cpu.register.get_flag(Flags::Sign));
    assert_eq!(cpu.register.pc, 1);
}

#[test]
fn daa_adjusts_both_digits() {
    let mut cpu = cpu_with(&[0x27], 0);
    cpu.register.a = 0x9b;
    cpu.register.f = 0x02;
    cpu.next();
    assert_eq!(cpu.register.a, 0x01);
    assert!(cpu.register.get_flag(Flags::Carry));
    assert!(cpu.register.get_flag(Flags::AC));
    assert!(!cpu.register.get_flag(Flags::Zero));
    assert!(!cpu.register.get_flag(Flags::Parity));
    assert!(!cpu.register.get_flag(Flags::Sign));
}

#[test]
fn dad_h_doubles_hl_and_touches_only_carry() {
    let mut cpu = cpu_with(&[0x29], 0);
    cpu.register.h = 0x33;
    cpu.register.l = 0x9f;
    cpu.register.f = 0;
    cpu.next();
    assert_eq!(cpu.register.h, 0x67);
    assert_eq!(cpu.register.l, 0x3e);
    assert!(!cpu.register.get_flag(Flags::Carry));
    assert_eq!(cpu.register.f, 0);
}

#[test]
fn push_bc_then_pop_de() {
    let mut cpu = cpu_with(&[0xc5, 0xd1], 0);
    cpu.register.sp = 0x2400;
    cpu.register.b = 0x12;
    cpu.register.c = 0x34;
    cpu.next();
    assert_eq!(cpu.register.sp, 0x23fe);
    assert_eq!(cpu.memory.get_word(0x23fe), 0x1234);
    cpu.next();
    assert_eq!(cpu.register.d, 0x12);
    assert_eq!(cpu.register.e, 0x34);
    assert_eq!(cpu.register.sp, 0x2400);
}

#[test]
fn conditional_call_and_return() {
    let mut cpu = cpu_with(&[0xc4, 0x00, 0x02], 0x0100);
    cpu.memory.set(0x0200, 0xc8);
    cpu.memory.set(0x0201, 0xc0);
    cpu.register.sp = 0x2400;
    cpu.register.set_flag(Flags::Zero, false);
    cpu.next();
    assert_eq!(cpu.register.pc, 0x0200);
    assert_eq!(cpu.register.sp, 0x23fe);
    assert_eq!(cpu.memory.get_word(0x23fe), 0x0103);
    cpu.next();
    assert_eq!(cpu.register.pc, 0x0201);
    assert_eq!(cpu.register.sp, 0x23fe);
    cpu.next();
    assert_eq!(cpu.register.pc, 0x0103);
    assert_eq!(cpu.register.sp, 0x2400);
}

#[test]
fn xthl_exchanges_hl_with_stack_top() {
    let mut cpu = cpu_with(&[0xe3], 0);
    cpu.register.sp = 0x10ad;
    cpu.memory.set(0x10ad, 0xf0);
    cpu.memory.set(0x10ae, 0x0d);
    cpu.register.h = 0x0b;
    cpu.register.l = 0x3c;
    cpu.next();
    assert_eq!(cpu.register.h, 0x0d);
    assert_eq!(cpu.register.l, 0xf0);
    assert_eq!(cpu.memory.get(0x10ad), 0x3c);
    assert_eq!(cpu.memory.get(0x10ae), 0x0b);
    assert_eq!(cpu.register.sp, 0x10ad);
}
