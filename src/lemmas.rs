use vstd::prelude::*;
use crate::registers::{Registers, Flag, index_of};
use crate::registers::word;
use crate::environment::{
    MEMORY_SIZE, wrap16, sign_extend, mem_byte, mem_word, push, pop_pc, low, high,
};
use crate::opcode::{Action, step, taken};

verus! {

/// DJNZ with B equal to 1 leaves B at zero and does not jump: the program
/// counter only moves past the displacement.
pub proof fn lemma_djnz_last_count(r: Registers, mem: Seq<u8>)
    requires
        r.b == 1,
    ensures
        step(Action::Djnz, r, mem) == (Registers { b: 0, pc: wrap16(r.pc + 1), ..r }, mem),
{
}

/// DJNZ with B equal to 0 wraps B around to 255 and jumps by the displacement.
pub proof fn lemma_djnz_count_wraps(r: Registers, mem: Seq<u8>)
    requires
        r.b == 0,
    ensures
        step(Action::Djnz, r, mem) == (
            Registers { b: 255, pc: wrap16(r.pc + 1 + sign_extend(mem_byte(mem, r.pc))), ..r },
            mem,
        ),
{
}

/// A conditional jump, call or return whose condition fails only consumes its
/// operands: the program counter moves past them and nothing else changes.
pub proof fn lemma_condition_false(r: Registers, mem: Seq<u8>, flag: Flag, expected: bool)
    requires
        !taken(r, flag, expected),
    ensures
        step(Action::JrIf(flag, expected), r, mem) == (Registers { pc: wrap16(r.pc + 1), ..r }, mem),
        step(Action::JpIf(flag, expected), r, mem) == (Registers { pc: wrap16(r.pc + 2), ..r }, mem),
        step(Action::CallIf(flag, expected), r, mem) == (Registers { pc: wrap16(r.pc + 2), ..r }, mem),
        step(Action::RetIf(flag, expected), r, mem) == (r, mem),
{
}

/// A conditional jump, call or return whose condition holds transfers control
/// as its unconditional form does: to the displacement past the operand, to
/// the immediate address, or to the address on top of the stack.
pub proof fn lemma_condition_true(r: Registers, mem: Seq<u8>, flag: Flag, expected: bool)
    requires
        taken(r, flag, expected),
    ensures
        step(Action::JrIf(flag, expected), r, mem) == step(Action::Jr, r, mem),
        step(Action::JpIf(flag, expected), r, mem) == step(Action::Jp, r, mem),
        step(Action::CallIf(flag, expected), r, mem) == step(Action::Call, r, mem),
        step(Action::RetIf(flag, expected), r, mem) == step(Action::Ret, r, mem),
        step(Action::Jr, r, mem).0.pc == wrap16(r.pc + 1 + sign_extend(mem_byte(mem, r.pc))),
        step(Action::Jp, r, mem).0.pc == mem_word(mem, r.pc),
        step(Action::Call, r, mem).0.pc == mem_word(mem, r.pc),
        step(Action::Ret, r, mem).0.pc == mem_word(mem, r.sp),
{
}

/// Splitting a value into its two bytes and joining them gives it back.
proof fn lemma_word_of_bytes(v: u16)
    ensures
        word(low(v), high(v)) == v,
{
    assert(v % 256 + 256 * (v / 256) == v) by (nonlinear_arith);
}

/// Popping right after a push gives back the pushed value and the stack
/// pointer from before the push.
proof fn lemma_push_then_pop(r: Registers, mem: Seq<u8>, v: u16)
    requires
        mem.len() == MEMORY_SIZE,
    ensures
        ({
            let (r1, m1) = push(r, mem, v);
            pop_pc(r1, m1) == (Registers { pc: v, ..r })
        }),
{
    let (r1, m1) = push(r, mem, v);
    let sp = wrap16(r.sp - 2);
    let hi_addr = wrap16(r.sp - 1);
    assert(wrap16(sp + 1) == hi_addr);
    assert(wrap16(sp + 2) == r.sp);
    assert(m1[sp as int] == low(v));
    assert(m1[hi_addr as int] == high(v));
    lemma_word_of_bytes(v);
}

/// A call followed by a return resumes at the address after the call's
/// operand, with every register as before the call.
pub proof fn lemma_call_then_return(r: Registers, mem: Seq<u8>)
    requires
        mem.len() == MEMORY_SIZE,
    ensures
        ({
            let (r1, m1) = step(Action::Call, r, mem);
            let (r2, m2) = step(Action::Ret, r1, m1);
            r2 == (Registers { pc: wrap16(r.pc + 2), ..r }) && m2 == m1
        }),
{
    let past_nn = Registers { pc: wrap16(r.pc + 2), ..r };
    lemma_push_then_pop(past_nn, mem, past_nn.pc);
}

/// A restart followed by a return resumes at the address it was taken from,
/// with every register as before.
pub proof fn lemma_rst_then_return(r: Registers, mem: Seq<u8>, v: u8)
    requires
        mem.len() == MEMORY_SIZE,
    ensures
        ({
            let (r1, m1) = step(Action::Rst(v), r, mem);
            let (r2, m2) = step(Action::Ret, r1, m1);
            r1.pc == v as u16 && r2 == r && m2 == m1
        }),
{
    lemma_push_then_pop(r, mem, r.pc);
}

/// RETN ends the service of a non-maskable interrupt; RETI and RET leave the
/// in-NMI flag as it was. All three pop the same return address.
pub proof fn lemma_return_nmi_flag(r: Registers, mem: Seq<u8>)
    ensures
        !step(Action::Retn, r, mem).0.in_nmi,
        step(Action::Reti, r, mem).0.in_nmi == r.in_nmi,
        step(Action::Ret, r, mem).0.in_nmi == r.in_nmi,
        step(Action::Retn, r, mem).0 == (Registers { in_nmi: false, ..step(Action::Ret, r, mem).0 }),
        step(Action::Reti, r, mem) == step(Action::Ret, r, mem),
{
}

/// The indirect jump sets the program counter to the index register's value,
/// with no displacement, and changes nothing else.
pub proof fn lemma_jump_index(r: Registers, mem: Seq<u8>)
    ensures
        step(Action::JpIndex, r, mem) == (Registers { pc: index_of(r), ..r }, mem),
{
}

} // verus!
