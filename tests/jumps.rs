use z80_jumps::environment::Environment;
use z80_jumps::opcode::Action;
use z80_jumps::opcode_jumps::{
    build_call, build_call_eq, build_djnz, build_jp_eq, build_jp_hl, build_jp_unconditional,
    build_jr_eq, build_jr_unconditional, build_ret, build_ret_eq, build_reti, build_retn,
    build_rst, relative_jump,
};
use z80_jumps::registers::{Flag, Index, Registers};

fn machine(pc: u16, sp: u16) -> Environment {
    let mut reg = Registers::new();
    reg.pc = pc;
    reg.sp = sp;
    Environment::new(reg)
}

#[test]
fn relative_jump_forward_and_backward() {
    let mut env = machine(0x1000, 0);
    relative_jump(&mut env, 0x7f);
    assert_eq!(env.reg.pc, 0x107f);
    relative_jump(&mut env, 0x80);
    assert_eq!(env.reg.pc, 0x0fff);
    relative_jump(&mut env, 0xff);
    assert_eq!(env.reg.pc, 0x0ffe);
    relative_jump(&mut env, 0x00);
    assert_eq!(env.reg.pc, 0x0ffe);
}

#[test]
fn relative_jump_wraps_at_sixteen_bits() {
    let mut env = machine(0xffff, 0);
    relative_jump(&mut env, 0x02);
    assert_eq!(env.reg.pc, 0x0001);
    relative_jump(&mut env, 0xfd);
    assert_eq!(env.reg.pc, 0xfffe);
}

#[test]
fn relative_jump_every_displacement() {
    for d in 0u16..256 {
        let mut env = machine(0x8000, 0);
        relative_jump(&mut env, d as u8);
        let delta: i32 = if d < 128 { d as i32 } else { d as i32 - 256 };
        assert_eq!(env.reg.pc as i32, 0x8000 + delta);
    }
}

#[test]
fn jr_unconditional_jumps_past_displacement() {
    let mut env = machine(0x0200, 0);
    env.poke(0x0200, 0x10);
    build_jr_unconditional().execute(&mut env);
    assert_eq!(env.reg.pc, 0x0211);
}

#[test]
fn djnz_counter_one_does_not_jump() {
    let mut env = machine(0x0100, 0);
    env.reg.b = 1;
    env.poke(0x0100, 0xfd);
    build_djnz().execute(&mut env);
    assert_eq!(env.reg.b, 0);
    assert_eq!(env.reg.pc, 0x0101);
}

#[test]
fn djnz_counter_zero_wraps_and_jumps() {
    let mut env = machine(0x0100, 0);
    env.reg.b = 0;
    env.poke(0x0100, 0x05);
    build_djnz().execute(&mut env);
    assert_eq!(env.reg.b, 255);
    assert_eq!(env.reg.pc, 0x0106);
}

#[test]
fn djnz_backward_loop() {
    let mut env = machine(0x0100, 0);
    env.reg.b = 5;
    env.poke(0x0100, 0xfd);
    build_djnz().execute(&mut env);
    assert_eq!(env.reg.b, 4);
    assert_eq!(env.reg.pc, 0x00fe);
}

#[test]
fn jr_eq_not_taken_consumes_displacement() {
    let mut env = machine(0x0300, 0);
    env.poke(0x0300, 0x20);
    env.reg.f = 0x00;
    build_jr_eq((Flag::Z, true, "Z")).execute(&mut env);
    assert_eq!(env.reg.pc, 0x0301);
}

#[test]
fn jr_eq_taken_jumps() {
    let mut env = machine(0x0300, 0);
    env.poke(0x0300, 0x20);
    env.reg.f = 0x40;
    build_jr_eq((Flag::Z, true, "Z")).execute(&mut env);
    assert_eq!(env.reg.pc, 0x0321);
}

#[test]
fn jp_unconditional_reads_little_endian() {
    let mut env = machine(0x0400, 0);
    env.poke(0x0400, 0x34);
    env.poke(0x0401, 0x12);
    build_jp_unconditional().execute(&mut env);
    assert_eq!(env.reg.pc, 0x1234);
}

#[test]
fn jp_operand_wraps_at_end_of_memory() {
    let mut env = machine(0xffff, 0);
    env.poke(0xffff, 0x78);
    env.poke(0x0000, 0x56);
    build_jp_unconditional().execute(&mut env);
    assert_eq!(env.reg.pc, 0x5678);
}

#[test]
fn jp_eq_on_each_flag() {
    let flags = [(Flag::S, 0x80u8), (Flag::Z, 0x40), (Flag::P, 0x04), (Flag::C, 0x01)];
    for (flag, mask) in flags {
        let mut env = machine(0x0400, 0);
        env.poke(0x0400, 0x34);
        env.poke(0x0401, 0x12);
        env.reg.f = mask;
        build_jp_eq((flag, false, "N")).execute(&mut env);
        assert_eq!(env.reg.pc, 0x0402);

        let mut env = machine(0x0400, 0);
        env.poke(0x0400, 0x34);
        env.poke(0x0401, 0x12);
        env.reg.f = mask;
        build_jp_eq((flag, true, "Y")).execute(&mut env);
        assert_eq!(env.reg.pc, 0x1234);

        let mut env = machine(0x0400, 0);
        env.poke(0x0400, 0x34);
        env.poke(0x0401, 0x12);
        env.reg.f = !mask;
        build_jp_eq((flag, true, "Y")).execute(&mut env);
        assert_eq!(env.reg.pc, 0x0402);
    }
}

#[test]
fn jp_hl_uses_index_register_without_displacement() {
    let mut env = machine(0x0500, 0);
    env.poke(0x0500, 0x7f);
    env.reg.h = 0xab;
    env.reg.l = 0xcd;
    build_jp_hl().execute(&mut env);
    assert_eq!(env.reg.pc, 0xabcd);

    let mut env = machine(0x0500, 0);
    env.reg.index = Index::IX;
    env.reg.ix = 0x4321;
    build_jp_hl().execute(&mut env);
    assert_eq!(env.reg.pc, 0x4321);

    let mut env = machine(0x0500, 0);
    env.reg.index = Index::IY;
    env.reg.iy = 0x0042;
    build_jp_hl().execute(&mut env);
    assert_eq!(env.reg.pc, 0x0042);
}

#[test]
fn call_pushes_return_address() {
    let mut env = machine(0x0600, 0xf000);
    env.poke(0x0600, 0x00);
    env.poke(0x0601, 0x20);
    build_call().execute(&mut env);
    assert_eq!(env.reg.pc, 0x2000);
    assert_eq!(env.reg.sp, 0xeffe);
    assert_eq!(env.peek(0xeffe), 0x02);
    assert_eq!(env.peek(0xefff), 0x06);
}

#[test]
fn call_then_ret_round_trip() {
    let mut env = machine(0x0600, 0xf000);
    env.poke(0x0600, 0x00);
    env.poke(0x0601, 0x20);
    build_call().execute(&mut env);
    build_ret().execute(&mut env);
    assert_eq!(env.reg.pc, 0x0602);
    assert_eq!(env.reg.sp, 0xf000);
}

#[test]
fn call_with_stack_at_zero_wraps() {
    let mut env = machine(0x0600, 0x0000);
    env.poke(0x0600, 0x00);
    env.poke(0x0601, 0x20);
    build_call().execute(&mut env);
    assert_eq!(env.reg.sp, 0xfffe);
    assert_eq!(env.peek(0xfffe), 0x02);
    assert_eq!(env.peek(0xffff), 0x06);
    build_ret().execute(&mut env);
    assert_eq!(env.reg.pc, 0x0602);
    assert_eq!(env.reg.sp, 0x0000);
}

#[test]
fn call_eq_not_taken_consumes_address() {
    let mut env = machine(0x0700, 0xf000);
    env.poke(0x0700, 0x00);
    env.poke(0x0701, 0x30);
    env.reg.f = 0x01;
    build_call_eq((Flag::C, false, "NC")).execute(&mut env);
    assert_eq!(env.reg.pc, 0x0702);
    assert_eq!(env.reg.sp, 0xf000);
    assert_eq!(env.peek(0xefff), 0);
}

#[test]
fn call_eq_taken_calls() {
    let mut env = machine(0x0700, 0xf000);
    env.poke(0x0700, 0x00);
    env.poke(0x0701, 0x30);
    env.reg.f = 0x01;
    build_call_eq((Flag::C, true, "C")).execute(&mut env);
    assert_eq!(env.reg.pc, 0x3000);
    assert_eq!(env.reg.sp, 0xeffe);
}

#[test]
fn ret_eq_taken_and_not_taken() {
    let mut env = machine(0x0800, 0xeffe);
    env.poke(0xeffe, 0x34);
    env.poke(0xefff, 0x12);
    env.reg.f = 0x80;
    build_ret_eq((Flag::S, false, "P")).execute(&mut env);
    assert_eq!(env.reg.pc, 0x0800);
    assert_eq!(env.reg.sp, 0xeffe);
    build_ret_eq((Flag::S, true, "M")).execute(&mut env);
    assert_eq!(env.reg.pc, 0x1234);
    assert_eq!(env.reg.sp, 0xf000);
}

#[test]
fn retn_clears_nmi_flag() {
    let mut env = machine(0x0900, 0xeffe);
    env.poke(0xeffe, 0x34);
    env.poke(0xefff, 0x12);
    env.reg.in_nmi = true;
    build_retn().execute(&mut env);
    assert!(!env.reg.in_nmi);
    assert_eq!(env.reg.pc, 0x1234);
    assert_eq!(env.reg.sp, 0xf000);
}

#[test]
fn reti_and_ret_keep_nmi_flag() {
    let mut env = machine(0x0900, 0xeffe);
    env.poke(0xeffe, 0x34);
    env.poke(0xefff, 0x12);
    env.reg.in_nmi = true;
    build_reti().execute(&mut env);
    assert!(env.reg.in_nmi);
    assert_eq!(env.reg.pc, 0x1234);

    let mut env = machine(0x0900, 0xeffe);
    env.reg.in_nmi = true;
    build_ret().execute(&mut env);
    assert!(env.reg.in_nmi);
    assert_eq!(env.reg.sp, 0xf000);
}

#[test]
fn rst_38_name_and_call() {
    let op = build_rst(0x38);
    assert!(op.disasm().contains("38h"));
    assert_eq!(op.name, "RST 38h");
    let mut env = machine(0x0a00, 0xf000);
    op.execute(&mut env);
    assert_eq!(env.reg.pc, 0x0038);
    assert_eq!(env.reg.sp, 0xeffe);
    build_ret().execute(&mut env);
    assert_eq!(env.reg.pc, 0x0a00);
}

#[test]
fn rst_names_are_two_lowercase_digits() {
    assert_eq!(build_rst(0x08).name, "RST 08h");
    assert_eq!(build_rst(0x00).name, "RST 00h");
    assert_eq!(build_rst(0xfa).name, "RST fah");
    assert!(matches!(build_rst(0x28).action, Action::Rst(0x28)));
}

#[test]
fn display_names() {
    assert_eq!(build_djnz().name, "DJNZ d");
    assert_eq!(build_jr_unconditional().name, "JR d");
    assert_eq!(build_jr_eq((Flag::Z, false, "NZ")).name, "JR NZ, d");
    assert_eq!(build_jp_unconditional().name, "JP nn");
    assert_eq!(build_jp_eq((Flag::P, true, "PE")).name, "JP PE, nn");
    assert_eq!(build_jp_hl().name, "JP HL");
    assert_eq!(build_call().name, "CALL nn");
    assert_eq!(build_call_eq((Flag::Z, true, "Z")).name, "CALL Z, nn");
    assert_eq!(build_ret().name, "RET");
    assert_eq!(build_reti().name, "RETI");
    assert_eq!(build_retn().name, "RETN");
    assert_eq!(build_ret_eq((Flag::C, false, "NC")).name, "RET NC");
}
