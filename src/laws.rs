use vstd::prelude::*;

use crate::flags::{
    even_parity_spec, flag_set, lemma_flags_after, lemma_with_flag, CARRY_FLAG, PARITY_FLAG,
};
use crate::instr::{AluOp, Instr, Reg8, RegPair, StackPair};
use crate::machine::{lemma_wrap16, alu_result, execute_spec, interrupt_spec, step_spec, wrap16, wrap8, Machine};
use crate::memory::ROM_SIZE;

verus! {

/// No instruction changes the program image or the size of memory.
pub proof fn execute_keeps_rom(s: Machine, i: Instr)
    requires
        s.wf(),
    ensures
        execute_spec(s, i).0.wf(),
        forall|a: int| 0 <= a < ROM_SIZE ==> #[trigger] execute_spec(s, i).0.mem[a] == s.mem[a],
{
    match i {
        Instr::Nop => {},
        Instr::Hlt => {},
        Instr::Out => {},
        Instr::In => {},
        Instr::Di => {},
        Instr::Ei => {},
        Instr::Mov(..) => {},
        Instr::Mvi(..) => {},
        Instr::Lxi(..) => {},
        Instr::Stax(..) => {},
        Instr::Ldax(..) => {},
        Instr::Sta => {},
        Instr::Lda => {},
        Instr::Shld => {},
        Instr::Lhld => {},
        Instr::Push(..) => {},
        Instr::Pop(..) => {},
        Instr::Xthl => {},
        Instr::Sphl => {},
        Instr::Xchg => {},
        Instr::Pchl => {},
        Instr::Inr(..) => {},
        Instr::Dcr(..) => {},
        Instr::Inx(..) => {},
        Instr::Dcx(..) => {},
        Instr::Dad(..) => {},
        Instr::Alu(..) => {},
        Instr::AluImm(..) => {},
        Instr::Rlc => {},
        Instr::Rrc => {},
        Instr::Ral => {},
        Instr::Rar => {},
        Instr::Daa => {},
        Instr::Cma => {},
        Instr::Stc => {},
        Instr::Cmc => {},
        Instr::Jmp => {},
        Instr::Jcc(..) => {},
        Instr::Call => {},
        Instr::Ccc(..) => {},
        Instr::Ret => {},
        Instr::Rcc(..) => {},
        Instr::Rst(..) => {},
    }
}

/// After any step the program counter and stack pointer are 16-bit values,
/// the image is unchanged and memory keeps its size.
pub proof fn step_keeps_rom(s: Machine)
    requires
        s.wf(),
    ensures
        step_spec(s).0.wf(),
        0 <= step_spec(s).0.pc < 0x10000,
        0 <= step_spec(s).0.sp < 0x10000,
        forall|a: int| 0 <= a < ROM_SIZE ==> #[trigger] step_spec(s).0.mem[a] == s.mem[a],
{
    execute_keeps_rom(s.skip(1), crate::instr::decode_spec(s.mem[s.pc as int]));
}

/// An interrupt leaves the image unchanged too.
pub proof fn interrupt_keeps_rom(s: Machine, n: u8)
    requires
        s.wf(),
        n <= 7,
    ensures
        interrupt_spec(s, n).wf(),
        forall|a: int| 0 <= a < ROM_SIZE ==> #[trigger] interrupt_spec(s, n).mem[a] == s.mem[a],
{
}

/// `PUSH p` then `POP p` gives back the pair bit for bit, and the stack
/// pointer, when the two stack bytes lie in RAM.
pub proof fn push_pop_restores_pair(s: Machine, p: StackPair)
    requires
        s.wf(),
        wrap16(s.sp - 1) >= ROM_SIZE,
        wrap16(s.sp - 2) >= ROM_SIZE,
    ensures
        execute_spec(execute_spec(s, Instr::Push(p)).0, Instr::Pop(p)).0.stack_pair(p)
            == s.stack_pair(p),
        execute_spec(execute_spec(s, Instr::Push(p)).0, Instr::Pop(p)).0.sp == s.sp,
{
    let (hi, lo) = s.stack_pair(p);
    let s1 = s.push(hi);
    let t = s1.push(lo);
    let up = wrap16(s.sp - 1);
    let down = wrap16(s.sp - 2);
    lemma_wrap16(s.sp - 1);
    lemma_wrap16(s.sp - 2);
    lemma_wrap16(up - 1);
    lemma_wrap16(down + 1);
    lemma_wrap16(down + 2);
    assert(s1.sp == up);
    assert(wrap16(s1.sp - 1) == down);
    assert(t.sp == down);
    assert(up != down);
    assert(s1.mem[up as int] == hi);
    assert(t.mem[down as int] == lo);
    assert(t.mem[up as int] == hi);
    assert(wrap16(t.sp + 1) == up);
    assert(wrap16(t.sp + 2) == s.sp);
    assert(execute_spec(s, Instr::Push(p)).0 == t);
}

/// `PUSH PSW` then `POP PSW` gives back the accumulator and all eight flag bits.
pub proof fn push_pop_restores_psw(s: Machine)
    requires
        s.wf(),
        wrap16(s.sp - 1) >= ROM_SIZE,
        wrap16(s.sp - 2) >= ROM_SIZE,
    ensures
        execute_spec(execute_spec(s, Instr::Push(StackPair::PSW)).0, Instr::Pop(StackPair::PSW)).0.a
            == s.a,
        execute_spec(
            execute_spec(s, Instr::Push(StackPair::PSW)).0,
            Instr::Pop(StackPair::PSW),
        ).0.flags == s.flags,
{
    push_pop_restores_pair(s, StackPair::PSW);
}

/// Two `XCHG`s give back the state.
pub proof fn xchg_twice(s: Machine)
    ensures
        execute_spec(execute_spec(s, Instr::Xchg).0, Instr::Xchg).0 == s,
{
}

/// Two `CMA`s give back the state: the accumulator, and flags never touched.
pub proof fn cma_twice(s: Machine)
    ensures
        execute_spec(execute_spec(s, Instr::Cma).0, Instr::Cma).0 == s,
        execute_spec(s, Instr::Cma).0.flags == s.flags,
{
    let a = s.a;
    assert(!(!a) == a) by (bit_vector);
}

/// Every accumulator operation leaves the parity flag equal to the parity of
/// its result.
pub proof fn alu_sets_parity(s: Machine, op: AluOp, v: u8)
    ensures
        flag_set(s.alu(op, v).flags, PARITY_FLAG) == even_parity_spec(
            alu_result(op, s.a, v, s.flag(CARRY_FLAG)).0,
        ),
{
    let (r, c) = alu_result(op, s.a, v, s.flag(CARRY_FLAG));
    lemma_flags_after(s.flags, r, c);
}

/// `INR` and `DCR` leave the parity flag equal to the parity of their result,
/// and never change the carry.
pub proof fn inr_dcr_flags(s: Machine, r: Reg8)
    requires
        s.wf(),
    ensures
        flag_set(execute_spec(s, Instr::Inr(r)).0.flags, PARITY_FLAG) == even_parity_spec(
            wrap8(s.reg(r) + 1),
        ),
        flag_set(execute_spec(s, Instr::Dcr(r)).0.flags, PARITY_FLAG) == even_parity_spec(
            wrap8(s.reg(r) - 1),
        ),
        execute_spec(s, Instr::Inr(r)).0.flag(CARRY_FLAG) == s.flag(CARRY_FLAG),
        execute_spec(s, Instr::Dcr(r)).0.flag(CARRY_FLAG) == s.flag(CARRY_FLAG),
{
    lemma_flags_after(s.flags, wrap8(s.reg(r) + 1), s.flag(CARRY_FLAG));
    lemma_flags_after(s.flags, wrap8(s.reg(r) - 1), s.flag(CARRY_FLAG));
}

/// `DAA` leaves the parity flag equal to the parity of the adjusted accumulator.
pub proof fn daa_sets_parity(s: Machine)
    ensures
        flag_set(execute_spec(s, Instr::Daa).0.flags, PARITY_FLAG) == even_parity_spec(
            execute_spec(s, Instr::Daa).0.a,
        ),
{
    let a1: u8 = if s.a % 16 > 9 { wrap8(s.a + 6) } else { s.a };
    lemma_flags_after(s.flags, wrap8(a1 + 0x60), a1 + 0x60 > 0xFF);
    lemma_flags_after(s.flags, a1, s.flag(CARRY_FLAG));
}

/// `ANA`, `XRA` and `ORA` always clear the carry.
pub proof fn logic_clears_carry(s: Machine, op: AluOp, v: u8)
    requires
        op == AluOp::Ana || op == AluOp::Xra || op == AluOp::Ora,
    ensures
        !s.alu(op, v).flag(CARRY_FLAG),
{
    let (r, c) = alu_result(op, s.a, v, s.flag(CARRY_FLAG));
    lemma_flags_after(s.flags, r, c);
}

/// `JMP`, `CALL` and `RET` change only `PC`, `SP` and (for `CALL`) the stack
/// bytes: registers, flags, latch and event stay.
pub proof fn jumps_keep_registers(s: Machine, i: Instr)
    requires
        i == Instr::Jmp || i == Instr::Call || i == Instr::Ret,
    ensures
        ({
            let t = execute_spec(s, i).0;
            &&& t.a == s.a
            &&& t.b == s.b
            &&& t.c == s.c
            &&& t.d == s.d
            &&& t.e == s.e
            &&& t.h == s.h
            &&& t.l == s.l
            &&& t.flags == s.flags
            &&& t.interrupts == s.interrupts
            &&& t.event == s.event
        }),
        i != Instr::Call ==> execute_spec(s, i).0.mem == s.mem,
{
}

/// `STAX B` then `LDAX B` leaves the accumulator as it was when `(B,C)`
/// addresses RAM.
pub proof fn stax_ldax_bc(s: Machine)
    requires
        s.wf(),
        s.bc() >= ROM_SIZE,
    ensures
        execute_spec(execute_spec(s, Instr::Stax(RegPair::BC)).0, Instr::Ldax(RegPair::BC)).0.a
            == s.a,
{
}

/// `SHLD adr` then `LHLD adr` leaves `(H,L)` as it was when both bytes at
/// `adr` lie in RAM.
pub proof fn shld_lhld(s: Machine, adr: u16)
    requires
        s.wf(),
        ROM_SIZE <= adr < 0xFFFF,
        s.imm16() == adr,
        execute_spec(s, Instr::Shld).0.imm16() == adr,
    ensures
        execute_spec(execute_spec(s, Instr::Shld).0, Instr::Lhld).0.h == s.h,
        execute_spec(execute_spec(s, Instr::Shld).0, Instr::Lhld).0.l == s.l,
{
    let t = execute_spec(s, Instr::Shld).0;
    let next = wrap16(adr + 1);
    lemma_wrap16(adr + 1);
    assert(next == adr + 1);
    assert(t.mem[adr as int] == s.l);
    assert(t.mem[next as int] == s.h);
}

} // verus!
