use intel8080::alu::parity;
use intel8080::cpu::Cpu;
use intel8080::memory::Linear;
use intel8080::register::Flags;

fn fresh() -> Cpu<Linear> {
    Cpu::new(Linear::new())
}

/// The flags as (S, Z, AC, P, CY).
fn flags(cpu: &Cpu<Linear>) -> (bool, bool, bool, bool, bool) {
    (
        cpu.register.get_flag(Flags::Sign),
        cpu.register.get_flag(Flags::Zero),
        cpu.register.get_flag(Flags::AC),
        cpu.register.get_flag(Flags::Parity),
        cpu.register.get_flag(Flags::Carry),
    )
}

#[test]
fn parity_is_even_popcount() {
    assert!(parity(0x00));
    assert!(!parity(0x01));
    assert!(parity(0x03));
    assert!(!parity(0x80));
    assert!(parity(0xff));
    assert!(!parity(0x7f));
    assert!(parity(0x9a));
    for byte in 0..=255u8 {
        assert_eq!(parity(byte), byte.count_ones() % 2 == 0);
    }
}

#[test]
fn add_without_carry_out() {
    let mut cpu = fresh();
    cpu.register.a = 0x6c;
    cpu.alu_add(0x2e);
    assert_eq!(cpu.register.a, 0x9a);
    assert_eq!(flags(&cpu), (true, false, true, true, false));
}

#[test]
fn add_with_carry_out() {
    let mut cpu = fresh();
    cpu.register.a = 0x3a;
    cpu.alu_add(0xc6);
    assert_eq!(cpu.register.a, 0x00);
    assert_eq!(flags(&cpu), (false, true, true, true, true));
    cpu.register.a = 0xff;
    cpu.alu_add(0xff);
    assert_eq!(cpu.register.a, 0xfe);
    assert_eq!(flags(&cpu), (true, false, true, false, true));
}

#[test]
fn add_ignores_the_carry_in() {
    let mut cpu = fresh();
    cpu.register.a = 0x01;
    cpu.register.set_flag(Flags::Carry, true);
    cpu.alu_add(0x01);
    assert_eq!(cpu.register.a, 0x02);
    assert_eq!(flags(&cpu), (false, false, false, false, false));
}

#[test]
fn adc_adds_the_carry() {
    let mut cpu = fresh();
    cpu.register.a = 0x42;
    cpu.register.set_flag(Flags::Carry, true);
    cpu.alu_adc(0x3d);
    assert_eq!(cpu.register.a, 0x80);
    assert_eq!(flags(&cpu), (true, false, true, false, false));

    let mut cpu = fresh();
    cpu.register.a = 0x42;
    cpu.alu_adc(0x3d);
    assert_eq!(cpu.register.a, 0x7f);
    assert_eq!(flags(&cpu), (false, false, false, false, false));
}

#[test]
fn adc_carries_out_through_the_carry_in() {
    let mut cpu = fresh();
    cpu.register.a = 0xff;
    cpu.register.set_flag(Flags::Carry, true);
    cpu.alu_adc(0x00);
    assert_eq!(cpu.register.a, 0x00);
    assert_eq!(flags(&cpu), (false, true, true, true, true));
    cpu.alu_adc(0xff);
    assert_eq!(cpu.register.a, 0x00);
    assert_eq!(flags(&cpu), (false, true, true, true, true));
}

#[test]
fn sub_of_equal_values() {
    let mut cpu = fresh();
    cpu.register.a = 0x3e;
    cpu.alu_sub(0x3e);
    assert_eq!(cpu.register.a, 0x00);
    assert_eq!(flags(&cpu), (false, true, true, true, false));
}

#[test]
fn sub_with_borrow_out() {
    let mut cpu = fresh();
    cpu.register.a = 0x00;
    cpu.alu_sub(0x01);
    assert_eq!(cpu.register.a, 0xff);
    assert_eq!(flags(&cpu), (true, false, false, true, true));
    cpu.register.a = 0x20;
    cpu.alu_sub(0x01);
    assert_eq!(cpu.register.a, 0x1f);
    assert_eq!(flags(&cpu), (false, false, false, false, false));
}

#[test]
fn sbb_subtracts_the_carry() {
    let mut cpu = fresh();
    cpu.register.a = 0x04;
    cpu.register.set_flag(Flags::Carry, true);
    cpu.alu_sbb(0x02);
    assert_eq!(cpu.register.a, 0x01);
    assert_eq!(flags(&cpu), (false, false, true, false, false));

    let mut cpu = fresh();
    cpu.register.a = 0x04;
    cpu.alu_sbb(0x02);
    assert_eq!(cpu.register.a, 0x02);
    assert_eq!(flags(&cpu), (false, false, true, false, false));
}

#[test]
fn sbb_borrows_through_the_carry_in() {
    let mut cpu = fresh();
    cpu.register.a = 0x00;
    cpu.register.set_flag(Flags::Carry, true);
    cpu.alu_sbb(0xff);
    assert_eq!(cpu.register.a, 0x00);
    assert_eq!(flags(&cpu), (false, true, false, true, true));

    let mut cpu = fresh();
    cpu.register.a = 0x10;
    cpu.register.set_flag(Flags::Carry, true);
    cpu.alu_sbb(0x00);
    assert_eq!(cpu.register.a, 0x0f);
    assert_eq!(flags(&cpu), (false, false, false, true, false));
}

#[test]
fn inr_leaves_the_carry() {
    let mut cpu = fresh();
    cpu.register.set_flag(Flags::Carry, true);
    assert_eq!(cpu.alu_inr(0xff), 0x00);
    assert_eq!(flags(&cpu), (false, true, true, true, true));
    assert_eq!(cpu.alu_inr(0x0f), 0x10);
    assert_eq!(flags(&cpu), (false, false, true, false, true));
    cpu.register.set_flag(Flags::Carry, false);
    assert_eq!(cpu.alu_inr(0x7f), 0x80);
    assert_eq!(flags(&cpu), (true, false, true, false, false));
    assert_eq!(cpu.alu_inr(0x02), 0x03);
    assert_eq!(flags(&cpu), (false, false, false, true, false));
}

#[test]
fn dcr_leaves_the_carry() {
    let mut cpu = fresh();
    cpu.register.set_flag(Flags::Carry, true);
    assert_eq!(cpu.alu_dcr(0x00), 0xff);
    assert_eq!(flags(&cpu), (true, false, false, true, true));
    assert_eq!(cpu.alu_dcr(0x01), 0x00);
    assert_eq!(flags(&cpu), (false, true, true, true, true));
    cpu.register.set_flag(Flags::Carry, false);
    assert_eq!(cpu.alu_dcr(0x10), 0x0f);
    assert_eq!(flags(&cpu), (false, false, false, true, false));
    assert_eq!(cpu.alu_dcr(0x80), 0x7f);
    assert_eq!(flags(&cpu), (false, false, false, false, false));
}

#[test]
fn dad_sets_only_the_carry() {
    let mut cpu = fresh();
    cpu.register.f = 0xd6;
    cpu.register.set_hl(0xa17b);
    cpu.alu_dad(0x339f);
    assert_eq!(cpu.register.get_hl(), 0xd51a);
    assert_eq!(cpu.register.f, 0xd6);
    cpu.register.set_hl(0xffff);
    cpu.alu_dad(0x0001);
    assert_eq!(cpu.register.get_hl(), 0x0000);
    assert_eq!(cpu.register.f, 0xd7);
    cpu.alu_dad(0xffff);
    assert_eq!(cpu.register.get_hl(), 0xffff);
    assert_eq!(cpu.register.f, 0xd6);
}

#[test]
fn daa_leaves_decimal_digits_alone() {
    let mut cpu = fresh();
    cpu.register.a = 0x15;
    cpu.alu_daa();
    assert_eq!(cpu.register.a, 0x15);
    assert_eq!(flags(&cpu), (false, false, false, false, false));
}

#[test]
fn daa_corrects_the_low_digit() {
    let mut cpu = fresh();
    cpu.register.a = 0x0a;
    cpu.alu_daa();
    assert_eq!(cpu.register.a, 0x10);
    assert_eq!(flags(&cpu), (false, false, true, false, false));

    let mut cpu = fresh();
    cpu.register.a = 0x11;
    cpu.register.set_flag(Flags::AC, true);
    cpu.alu_daa();
    assert_eq!(cpu.register.a, 0x17);
    assert_eq!(flags(&cpu), (false, false, false, true, false));
}

#[test]
fn daa_corrects_the_high_digit() {
    let mut cpu = fresh();
    cpu.register.a = 0xa0;
    cpu.alu_daa();
    assert_eq!(cpu.register.a, 0x00);
    assert_eq!(flags(&cpu), (false, true, false, true, true));

    let mut cpu = fresh();
    cpu.register.a = 0x12;
    cpu.register.set_flag(Flags::Carry, true);
    cpu.alu_daa();
    assert_eq!(cpu.register.a, 0x72);
    assert_eq!(flags(&cpu), (false, false, false, true, true));
}

#[test]
fn daa_corrects_both_digits() {
    let mut cpu = fresh();
    cpu.register.a = 0x9b;
    cpu.alu_daa();
    assert_eq!(cpu.register.a, 0x01);
    assert_eq!(flags(&cpu), (false, false, true, false, true));

    let mut cpu = fresh();
    cpu.register.a = 0x9a;
    cpu.alu_daa();
    assert_eq!(cpu.register.a, 0x00);
    assert_eq!(flags(&cpu), (false, true, true, true, true));
}

#[test]
fn ana_clears_the_carry() {
    let mut cpu = fresh();
    cpu.register.a = 0xfc;
    cpu.register.set_flag(Flags::Carry, true);
    cpu.alu_ana(0x0f);
    assert_eq!(cpu.register.a, 0x0c);
    assert_eq!(flags(&cpu), (false, false, true, true, false));
    cpu.register.a = 0xf0;
    cpu.alu_ana(0x07);
    assert_eq!(cpu.register.a, 0x00);
    assert_eq!(flags(&cpu), (false, true, false, true, false));
    cpu.register.a = 0x80;
    cpu.alu_ana(0x88);
    assert_eq!(cpu.register.a, 0x80);
    assert_eq!(flags(&cpu), (true, false, true, false, false));
}

#[test]
fn xra_clears_carry_and_auxiliary_carry() {
    let mut cpu = fresh();
    cpu.register.a = 0xff;
    cpu.register.f = 0xd7;
    cpu.alu_xra(0xff);
    assert_eq!(cpu.register.a, 0x00);
    assert_eq!(flags(&cpu), (false, true, false, true, false));
    cpu.register.a = 0x5c;
    cpu.alu_xra(0x78);
    assert_eq!(cpu.register.a, 0x24);
    assert_eq!(flags(&cpu), (false, false, false, true, false));
    cpu.register.a = 0x0f;
    cpu.alu_xra(0x80);
    assert_eq!(cpu.register.a, 0x8f);
    assert_eq!(flags(&cpu), (true, false, false, false, false));
}

#[test]
fn ora_clears_carry_and_auxiliary_carry() {
    let mut cpu = fresh();
    cpu.register.a = 0x33;
    cpu.register.f = 0xd7;
    cpu.alu_ora(0x0f);
    assert_eq!(cpu.register.a, 0x3f);
    assert_eq!(flags(&cpu), (false, false, false, true, false));
    cpu.register.a = 0x00;
    cpu.alu_ora(0x00);
    assert_eq!(cpu.register.a, 0x00);
    assert_eq!(flags(&cpu), (false, true, false, true, false));
    cpu.register.a = 0x80;
    cpu.alu_ora(0x01);
    assert_eq!(cpu.register.a, 0x81);
    assert_eq!(flags(&cpu), (true, false, false, true, false));
}

#[test]
fn cmp_keeps_the_accumulator() {
    let mut cpu = fresh();
    cpu.register.a = 0x0a;
    cpu.alu_cmp(0x05);
    assert_eq!(cpu.register.a, 0x0a);
    assert_eq!(flags(&cpu), (false, false, true, true, false));
    cpu.register.a = 0x02;
    cpu.alu_cmp(0x05);
    assert_eq!(cpu.register.a, 0x02);
    assert_eq!(flags(&cpu), (true, false, false, false, true));
    cpu.register.a = 0x77;
    cpu.alu_cmp(0x77);
    assert_eq!(cpu.register.a, 0x77);
    assert_eq!(flags(&cpu), (false, true, true, true, false));
}

#[test]
fn rlc_rotates_left() {
    let mut cpu = fresh();
    cpu.register.a = 0xf2;
    cpu.alu_rlc();
    assert_eq!(cpu.register.a, 0xe5);
    assert_eq!(cpu.register.f, 0x03);
    cpu.register.a = 0x40;
    cpu.alu_rlc();
    assert_eq!(cpu.register.a, 0x80);
    assert_eq!(cpu.register.f, 0x02);
}

#[test]
fn rrc_rotates_right() {
    let mut cpu = fresh();
    cpu.register.a = 0xf2;
    cpu.alu_rrc();
    assert_eq!(cpu.register.a, 0x79);
    assert_eq!(cpu.register.f, 0x02);
    cpu.register.a = 0x01;
    cpu.alu_rrc();
    assert_eq!(cpu.register.a, 0x80);
    assert_eq!(cpu.register.f, 0x03);
}

#[test]
fn ral_rotates_left_through_the_carry() {
    let mut cpu = fresh();
    cpu.register.a = 0xb5;
    cpu.alu_ral();
    assert_eq!(cpu.register.a, 0x6a);
    assert_eq!(cpu.register.f, 0x03);
    cpu.alu_ral();
    assert_eq!(cpu.register.a, 0xd5);
    assert_eq!(cpu.register.f, 0x02);
}

#[test]
fn rar_rotates_right_through_the_carry() {
    let mut cpu = fresh();
    cpu.register.a = 0x6a;
    cpu.register.set_flag(Flags::Carry, true);
    cpu.alu_rar();
    assert_eq!(cpu.register.a, 0xb5);
    assert_eq!(cpu.register.f, 0x02);
    cpu.register.a = 0x03;
    cpu.alu_rar();
    assert_eq!(cpu.register.a, 0x01);
    assert_eq!(cpu.register.f, 0x03);
    cpu.alu_rar();
    assert_eq!(cpu.register.a, 0x80);
    assert_eq!(cpu.register.f, 0x03);
}

#[test]
fn rotates_leave_the_other_flags() {
    let mut cpu = fresh();
    cpu.register.f = 0xd6;
    cpu.register.a = 0x81;
    cpu.alu_rlc();
    assert_eq!(cpu.register.f, 0xd7);
    cpu.register.a = 0x02;
    cpu.alu_rrc();
    assert_eq!(cpu.register.f, 0xd6);
    cpu.register.a = 0x80;
    cpu.alu_ral();
    assert_eq!(cpu.register.f, 0xd7);
    cpu.register.a = 0x02;
    cpu.alu_rar();
    assert_eq!(cpu.register.f, 0xd6);
}

#[test]
fn cma_complements_the_accumulator() {
    let mut cpu = fresh();
    cpu.register.a = 0x51;
    cpu.register.f = 0xd7;
    cpu.alu_cma();
    assert_eq!(cpu.register.a, 0xae);
    assert_eq!(cpu.register.f, 0xd7);
}

#[test]
fn cmc_and_stc() {
    let mut cpu = fresh();
    cpu.register.f = 0xd6;
    cpu.alu_cmc();
    assert_eq!(cpu.register.f, 0xd7);
    cpu.alu_cmc();
    assert_eq!(cpu.register.f, 0xd6);
    cpu.alu_stc();
    assert_eq!(cpu.register.f, 0xd7);
    cpu.alu_stc();
    assert_eq!(cpu.register.f, 0xd7);
}

#[test]
fn xchg_swaps_hl_and_de() {
    let mut cpu = fresh();
    cpu.register.set_hl(0x1234);
    cpu.register.set_de(0xabcd);
    cpu.alu_xchg();
    assert_eq!(cpu.register.get_hl(), 0xabcd);
    assert_eq!(cpu.register.get_de(), 0x1234);
}
