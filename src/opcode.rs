use vstd::prelude::*;
use crate::registers::{Registers, Flag, Reg8, flag_set, index_of};
use crate::environment::{
    Environment, wrap16, wrap8, sign_extend, mem_byte, mem_word, push, pop_pc,
};
use crate::opcode_jumps::relative_jump;

verus! {

/// What an instruction does when executed. The conditional forms carry the
/// flag they test and the value it must have for the branch to be taken.
#[derive(Clone, Copy, Debug, PartialEq, Eq, Structural)]
pub enum Action {
    /// Decrement B, jump by a displacement unless it became zero.
    Djnz,
    /// Jump by a displacement.
    Jr,
    /// Jump by a displacement when the flag has the given value.
    JrIf(Flag, bool),
    /// Jump to an immediate address.
    Jp,
    /// Jump to an immediate address when the flag has the given value.
    JpIf(Flag, bool),
    /// Jump to the value of the index register.
    JpIndex,
    /// Call the subroutine at an immediate address.
    Call,
    /// Call the subroutine at an immediate address when the flag has the given value.
    CallIf(Flag, bool),
    /// Call the subroutine at the given restart vector.
    Rst(u8),
    /// Return from a subroutine.
    Ret,
    /// Return from an interrupt.
    Reti,
    /// Return from a non-maskable interrupt.
    Retn,
    /// Return from a subroutine when the flag has the given value.
    RetIf(Flag, bool),
}

/// An executable instruction: its display name and what it does.
pub struct Opcode {
    pub name: String,
    pub action: Action,
}

/// Whether a conditional instruction on `flag` and `expected` takes its branch.
pub open spec fn taken(r: Registers, flag: Flag, expected: bool) -> bool {
    flag_set(r.f, flag) == expected
}

/// Registers after a jump by the signed displacement `d`.
pub open spec fn jump_relative(r: Registers, d: u8) -> Registers {
    Registers { pc: wrap16(r.pc + sign_extend(d)), ..r }
}

/// Registers and memory after a call to `target`, the program counter being
/// the return address.
pub open spec fn call_to(r: Registers, mem: Seq<u8>, target: u16) -> (Registers, Seq<u8>) {
    let (r1, m1) = push(r, mem, r.pc);
    (Registers { pc: target, ..r1 }, m1)
}

/// Registers and memory after one execution of `a` on registers `r` and memory
/// `mem`, where the program counter addresses the instruction's operands.
pub open spec fn step(a: Action, r: Registers, mem: Seq<u8>) -> (Registers, Seq<u8>) {
    let d = mem_byte(mem, r.pc);
    let past_d = Registers { pc: wrap16(r.pc + 1), ..r };
    let nn = mem_word(mem, r.pc);
    let past_nn = Registers { pc: wrap16(r.pc + 2), ..r };
    match a {
        Action::Djnz => {
            let counted = Registers { b: wrap8(r.b - 1), ..past_d };
            if counted.b != 0 {
                (jump_relative(counted, d), mem)
            } else {
                (counted, mem)
            }
        },
        Action::Jr => (jump_relative(past_d, d), mem),
        Action::JrIf(flag, expected) => {
            if taken(r, flag, expected) {
                (jump_relative(past_d, d), mem)
            } else {
                (past_d, mem)
            }
        },
        Action::Jp => (Registers { pc: nn, ..r }, mem),
        Action::JpIf(flag, expected) => {
            if taken(r, flag, expected) {
                (Registers { pc: nn, ..r }, mem)
            } else {
                (past_nn, mem)
            }
        },
        Action::JpIndex => (Registers { pc: index_of(r), ..r }, mem),
        Action::Call => call_to(past_nn, mem, nn),
        Action::CallIf(flag, expected) => {
            if taken(r, flag, expected) {
                call_to(past_nn, mem, nn)
            } else {
                (past_nn, mem)
            }
        },
        Action::Rst(v) => call_to(r, mem, v as u16),
        Action::Ret => (pop_pc(r, mem), mem),
        Action::Reti => (pop_pc(r, mem), mem),
        Action::Retn => (Registers { in_nmi: false, ..pop_pc(r, mem) }, mem),
        Action::RetIf(flag, expected) => {
            if taken(r, flag, expected) {
                (pop_pc(r, mem), mem)
            } else {
                (r, mem)
            }
        },
    }
}

impl Opcode {
    /// The name shown by a disassembler or a trace.
    pub fn disasm(&self) -> (r: &String)
        ensures
            r@ == self.name@,
    {
        &self.name
    }

    /// Executes the instruction once against `env`.
    pub fn execute(&self, env: &mut Environment)
        requires
            old(env).wf(),
        ensures
            final(env).wf(),
            (final(env).reg, final(env).mem@) == step(self.action, old(env).reg, old(env).mem@),
    {
        match self.action {
            Action::Djnz => {
                let offset = env.advance_pc();
                let b = env.reg.get8(Reg8::B).wrapping_add(0xff);
                env.reg.set8(Reg8::B, b);
                if b != 0 {
                    relative_jump(env, offset);
                }
            },
            Action::Jr => {
                let offset = env.advance_pc();
                relative_jump(env, offset);
            },
            Action::JrIf(flag, expected) => {
                let offset = env.advance_pc();
                if env.reg.get_flag(flag) == expected {
                    relative_jump(env, offset);
                }
            },
            Action::Jp => {
                let address = env.advance_immediate16();
                env.reg.set_pc(address);
            },
            Action::JpIf(flag, expected) => {
                let address = env.advance_immediate16();
                if env.reg.get_flag(flag) == expected {
                    env.reg.set_pc(address);
                }
            },
            Action::JpIndex => {
                let address = env.index_value();
                env.reg.set_pc(address);
            },
            Action::Call => {
                let address = env.advance_immediate16();
                env.subroutine_call(address);
            },
            Action::CallIf(flag, expected) => {
                let address = env.advance_immediate16();
                if env.reg.get_flag(flag) == expected {
                    env.subroutine_call(address);
                }
            },
            Action::Rst(v) => {
                env.subroutine_call(v as u16);
            },
            Action::Ret => {
                env.subroutine_return();
            },
            Action::Reti => {
                env.subroutine_return();
            },
            Action::Retn => {
                env.subroutine_return();
                env.reg.end_nmi();
            },
            Action::RetIf(flag, expected) => {
                if env.reg.get_flag(flag) == expected {
                    env.subroutine_return();
                }
            },
        }
    }
}

} // verus!
