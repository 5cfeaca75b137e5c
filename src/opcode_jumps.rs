use vstd::prelude::*;
use crate::registers::{Registers, Flag};
use crate::environment::{Environment, wrap16, sign_extend};
use crate::opcode::{Opcode, Action};

verus! {

/// The lowercase hexadecimal digit of `n`, for `n` below 16.
pub open spec fn hex_digit(n: u8) -> char {
    if n < 10 {
        (48 + n) as char
    } else {
        (87 + n) as char
    }
}

/// Relies on std's `format!` with three `{}` placeholders: the characters of
/// the three strings, one after the other.
#[verifier::external_body]
fn concat3(a: &str, b: &str, c: &str) -> (r: String)
    ensures
        r@ == a@ + b@ + c@,
{
    format!("{}{}{}", a, b, c)
}

/// Relies on std's `format!` with `{:02x}`: the byte as two lowercase
/// hexadecimal digits, high digit first, zero-padded.
#[verifier::external_body]
fn hex_byte(d: u8) -> (r: String)
    ensures
        r@ == seq![hex_digit(d / 16), hex_digit(d % 16)],
{
    format!("{:02x}", d)
}

/// `DJNZ d`: decrements B, then jumps by the displacement unless B is zero.
pub fn build_djnz() -> (r: Opcode)
    ensures
        r.name@ == "DJNZ d"@,
        r.action == Action::Djnz,
{
    Opcode { name: "DJNZ d".to_string(), action: Action::Djnz }
}

/// `JR d`: jumps by the displacement.
pub fn build_jr_unconditional() -> (r: Opcode)
    ensures
        r.name@ == "JR d"@,
        r.action == Action::Jr,
{
    Opcode { name: "JR d".to_string(), action: Action::Jr }
}

/// `JR cc, d`: jumps by the displacement when the flag `cond.0` equals
/// `cond.1`; `cond.2` is the condition's mnemonic.
pub fn build_jr_eq(cond: (Flag, bool, &str)) -> (r: Opcode)
    ensures
        r.name@ == "JR "@ + cond.2@ + ", d"@,
        r.action == Action::JrIf(cond.0, cond.1),
{
    Opcode { name: concat3("JR ", cond.2, ", d"), action: Action::JrIf(cond.0, cond.1) }
}

/// Adds the signed displacement `offset` to the program counter, wrapping
/// around at 16 bits.
pub fn relative_jump(env: &mut Environment, offset: u8)
    requires
        old(env).wf(),
    ensures
        final(env).wf(),
        final(env).reg == (Registers {
            pc: wrap16(old(env).reg.pc + sign_extend(offset)),
            ..old(env).reg
        }),
        final(env).mem@ == old(env).mem@,
{
    let pc = env.reg.pc();
    let target = if offset < 128 {
        pc.wrapping_add(offset as u16)
    } else {
        pc.wrapping_sub(256 - offset as u16)
    };
    env.reg.set_pc(target);
}

/// `JP nn`: jumps to the immediate address.
pub fn build_jp_unconditional() -> (r: Opcode)
    ensures
        r.name@ == "JP nn"@,
        r.action == Action::Jp,
{
    Opcode { name: "JP nn".to_string(), action: Action::Jp }
}

/// `JP cc, nn`: jumps to the immediate address when the flag `cond.0` equals
/// `cond.1`; the address is fetched either way.
pub fn build_jp_eq(cond: (Flag, bool, &str)) -> (r: Opcode)
    ensures
        r.name@ == "JP "@ + cond.2@ + ", nn"@,
        r.action == Action::JpIf(cond.0, cond.1),
{
    Opcode { name: concat3("JP ", cond.2, ", nn"), action: Action::JpIf(cond.0, cond.1) }
}

/// `JP HL` (usually written `JP (HL)`): jumps to the value of the index
/// register, with no displacement.
pub fn build_jp_hl() -> (r: Opcode)
    ensures
        r.name@ == "JP HL"@,
        r.action == Action::JpIndex,
{
    Opcode { name: "JP HL".to_string(), action: Action::JpIndex }
}

/// `CALL nn`: calls the subroutine at the immediate address.
pub fn build_call() -> (r: Opcode)
    ensures
        r.name@ == "CALL nn"@,
        r.action == Action::Call,
{
    Opcode { name: "CALL nn".to_string(), action: Action::Call }
}

/// `CALL cc, nn`: calls the subroutine at the immediate address when the flag
/// `cond.0` equals `cond.1`; the address is fetched either way.
pub fn build_call_eq(cond: (Flag, bool, &str)) -> (r: Opcode)
    ensures
        r.name@ == "CALL "@ + cond.2@ + ", nn"@,
        r.action == Action::CallIf(cond.0, cond.1),
{
    Opcode { name: concat3("CALL ", cond.2, ", nn"), action: Action::CallIf(cond.0, cond.1) }
}

/// `RST xxh`: calls the subroutine at the vector `d`.
pub fn build_rst(d: u8) -> (r: Opcode)
    ensures
        r.name@ == "RST "@ + seq![hex_digit(d / 16), hex_digit(d % 16)] + "h"@,
        r.action == Action::Rst(d),
{
    let digits = hex_byte(d);
    Opcode { name: concat3("RST ", digits.as_str(), "h"), action: Action::Rst(d) }
}

/// `RET`: returns from a subroutine.
pub fn build_ret() -> (r: Opcode)
    ensures
        r.name@ == "RET"@,
        r.action == Action::Ret,
{
    Opcode { name: "RET".to_string(), action: Action::Ret }
}

/// `RETI`: returns from an interrupt; the stack effect is that of `RET`.
pub fn build_reti() -> (r: Opcode)
    ensures
        r.name@ == "RETI"@,
        r.action == Action::Reti,
{
    Opcode { name: "RETI".to_string(), action: Action::Reti }
}

/// `RETN`: returns from a non-maskable interrupt and ends its service.
pub fn build_retn() -> (r: Opcode)
    ensures
        r.name@ == "RETN"@,
        r.action == Action::Retn,
{
    Opcode { name: "RETN".to_string(), action: Action::Retn }
}

/// `RET cc`: returns from a subroutine when the flag `cond.0` equals `cond.1`.
pub fn build_ret_eq(cond: (Flag, bool, &str)) -> (r: Opcode)
    ensures
        r.name@ == "RET "@ + cond.2@,
        r.action == Action::RetIf(cond.0, cond.1),
{
    let name = concat3("RET ", cond.2, "");
    proof {
        reveal_strlit("");
        assert(name@ =~= "RET "@ + cond.2@);
    }
    Opcode { name, action: Action::RetIf(cond.0, cond.1) }
}

} // verus!
