use vstd::prelude::*;

use crate::flags::{flag_set, flags_after, with_flag, CARRY_FLAG, PARITY_FLAG, SIGN_FLAG, ZERO_FLAG};
use crate::instr::{decode_spec, AluOp, Cond, Instr, Reg8, RegPair, StackPair};
use crate::memory::{mem_store, MEMORY_SIZE};

verus! {

/// Whether the processor accepts interrupts.
#[derive(Clone, Copy, Debug, PartialEq, Eq)]
pub enum InterruptStatus {
    Enabled,
    Disabled,
}

/// What an instruction reports to the host.
#[derive(Clone, Copy, Debug, PartialEq, Eq)]
pub enum Event {
    Halt,
    /// Port, then the byte written to it.
    PortWrite(u8, u8),
    PortRead(u8),
}

/// The whole visible state of the processor, as mathematical values.
pub struct Machine {
    pub mem: Seq<u8>,
    pub interrupts: InterruptStatus,
    pub event: Option<Event>,
    pub flags: u8,
    pub pc: u16,
    pub sp: u16,
    pub a: u8,
    pub b: u8,
    pub c: u8,
    pub d: u8,
    pub e: u8,
    pub h: u8,
    pub l: u8,
}

/// `x` reduced modulo 2^16.
pub open spec fn wrap16(x: int) -> u16 {
    (x % 0x10000) as u16
}

/// `wrap16` on values at most one period away from the 16-bit range.
pub proof fn lemma_wrap16(x: int)
    ensures
        0 <= x < 0x10000 ==> wrap16(x) == x,
        0x10000 <= x < 0x20000 ==> wrap16(x) == x - 0x10000,
        -0x10000 <= x < 0 ==> wrap16(x) == x + 0x10000,
{
}

/// `x` reduced modulo 2^8.
pub open spec fn wrap8(x: int) -> u8 {
    (x % 0x100) as u8
}

/// The 16-bit value with high byte `hi` and low byte `lo`.
pub open spec fn join(hi: u8, lo: u8) -> u16 {
    (hi as int * 256 + lo as int) as u16
}

pub open spec fn high(v: u16) -> u8 {
    (v / 256) as u8
}

pub open spec fn low(v: u16) -> u8 {
    (v % 256) as u8
}

/// The result of an accumulator operation on `a` and `v`, and its carry out;
/// `carry` is the carry in, used by `ADC` and `SBB`. Those two are single
/// 9-bit operations (`a + v + carry`, `a - v - carry`), so an operand of 0xFF
/// with a carry in still carries out.
pub open spec fn alu_result(op: AluOp, a: u8, v: u8, carry: bool) -> (u8, bool) {
    let c: int = if carry { 1 } else { 0 };
    match op {
        AluOp::Add => (wrap8(a + v), a + v > 0xFF),
        AluOp::Adc => (wrap8(a + v + c), a + v + c > 0xFF),
        AluOp::Sub => (wrap8(a - v), a < v),
        AluOp::Sbb => (wrap8(a - v - c), a < v + c),
        AluOp::Ana => (a & v, false),
        AluOp::Xra => (a ^ v, false),
        AluOp::Ora => (a | v, false),
        AluOp::Cmp => (wrap8(a - v), a < v),
    }
}

/// Accumulator after a left rotate, and the carry out (old bit 7).
pub open spec fn rotate_left_spec(a: u8, through: bool, carry: bool) -> (u8, bool) {
    let in_bit: int = if through {
        if carry { 1 } else { 0 }
    } else {
        (a / 128) as int
    };
    (wrap8(a * 2 + in_bit), a >= 0x80)
}

/// Accumulator after a right rotate, and the carry out (old bit 0).
pub open spec fn rotate_right_spec(a: u8, through: bool, carry: bool) -> (u8, bool) {
    let in_bit: int = if through {
        if carry { 1 } else { 0 }
    } else {
        (a % 2) as int
    };
    ((a / 2 + in_bit * 128) as u8, a % 2 == 1)
}

impl Machine {
    pub open spec fn wf(self) -> bool {
        self.mem.len() == MEMORY_SIZE
    }

    pub open spec fn bc(self) -> u16 {
        join(self.b, self.c)
    }

    pub open spec fn de(self) -> u16 {
        join(self.d, self.e)
    }

    pub open spec fn hl(self) -> u16 {
        join(self.h, self.l)
    }

    pub open spec fn flag(self, mask: u8) -> bool {
        flag_set(self.flags, mask)
    }

    pub open spec fn reg(self, r: Reg8) -> u8 {
        match r {
            Reg8::B => self.b,
            Reg8::C => self.c,
            Reg8::D => self.d,
            Reg8::E => self.e,
            Reg8::H => self.h,
            Reg8::L => self.l,
            Reg8::M => self.mem[self.hl() as int],
            Reg8::A => self.a,
        }
    }

    pub open spec fn set_reg(self, r: Reg8, v: u8) -> Machine {
        match r {
            Reg8::B => Machine { b: v, ..self },
            Reg8::C => Machine { c: v, ..self },
            Reg8::D => Machine { d: v, ..self },
            Reg8::E => Machine { e: v, ..self },
            Reg8::H => Machine { h: v, ..self },
            Reg8::L => Machine { l: v, ..self },
            Reg8::M => Machine { mem: mem_store(self.mem, self.hl(), v), ..self },
            Reg8::A => Machine { a: v, ..self },
        }
    }

    pub open spec fn pair(self, p: RegPair) -> u16 {
        match p {
            RegPair::BC => self.bc(),
            RegPair::DE => self.de(),
            RegPair::HL => self.hl(),
            RegPair::SP => self.sp,
        }
    }

    pub open spec fn set_pair(self, p: RegPair, v: u16) -> Machine {
        match p {
            RegPair::BC => Machine { b: high(v), c: low(v), ..self },
            RegPair::DE => Machine { d: high(v), e: low(v), ..self },
            RegPair::HL => Machine { h: high(v), l: low(v), ..self },
            RegPair::SP => Machine { sp: v, ..self },
        }
    }

    /// High byte, then low byte, of a pair as `PUSH` stores it.
    pub open spec fn stack_pair(self, p: StackPair) -> (u8, u8) {
        match p {
            StackPair::BC => (self.b, self.c),
            StackPair::DE => (self.d, self.e),
            StackPair::HL => (self.h, self.l),
            StackPair::PSW => (self.a, self.flags),
        }
    }

    pub open spec fn set_stack_pair(self, p: StackPair, hi: u8, lo: u8) -> Machine {
        match p {
            StackPair::BC => Machine { b: hi, c: lo, ..self },
            StackPair::DE => Machine { d: hi, e: lo, ..self },
            StackPair::HL => Machine { h: hi, l: lo, ..self },
            StackPair::PSW => Machine { a: hi, flags: lo, ..self },
        }
    }

    /// The byte operand at `pc`.
    pub open spec fn imm8(self) -> u8 {
        self.mem[self.pc as int]
    }

    /// The little-endian 16-bit operand at `pc`.
    pub open spec fn imm16(self) -> u16 {
        join(self.mem[wrap16(self.pc + 1) as int], self.mem[self.pc as int])
    }

    /// Moves `pc` past `n` bytes.
    pub open spec fn skip(self, n: int) -> Machine {
        Machine { pc: wrap16(self.pc + n), ..self }
    }

    /// Pushes one byte: `SP` goes down by one, then the byte is stored there.
    pub open spec fn push(self, v: u8) -> Machine {
        let sp = wrap16(self.sp - 1);
        Machine { sp: sp, mem: mem_store(self.mem, sp, v), ..self }
    }

    /// Pushes the high byte of `v`, then its low byte.
    pub open spec fn push16(self, v: u16) -> Machine {
        self.push(high(v)).push(low(v))
    }

    /// The 16-bit value on top of the stack: low byte at `SP`, high byte above.
    pub open spec fn top16(self) -> u16 {
        join(self.mem[wrap16(self.sp + 1) as int], self.mem[self.sp as int])
    }

    /// Removes two bytes from the stack.
    pub open spec fn drop16(self) -> Machine {
        Machine { sp: wrap16(self.sp + 2), ..self }
    }

    /// Pushes `pc` and continues at `target`.
    pub open spec fn call(self, target: u16) -> Machine {
        Machine { pc: target, ..self.push16(self.pc) }
    }

    /// Continues at the address popped from the stack.
    pub open spec fn ret(self) -> Machine {
        Machine { pc: self.top16(), ..self.drop16() }
    }

    pub open spec fn with_carry(self, carry: bool) -> Machine {
        Machine { flags: with_flag(self.flags, CARRY_FLAG, carry), ..self }
    }

    pub open spec fn with_result_flags(self, result: u8, carry: bool) -> Machine {
        Machine { flags: flags_after(self.flags, result, carry), ..self }
    }

    pub open spec fn holds(self, c: Cond) -> bool {
        match c {
            Cond::NotZero => !self.flag(ZERO_FLAG),
            Cond::Zero => self.flag(ZERO_FLAG),
            Cond::NoCarry => !self.flag(CARRY_FLAG),
            Cond::Carry => self.flag(CARRY_FLAG),
            Cond::ParityOdd => !self.flag(PARITY_FLAG),
            Cond::ParityEven => self.flag(PARITY_FLAG),
            Cond::Plus => !self.flag(SIGN_FLAG),
            Cond::Minus => self.flag(SIGN_FLAG),
        }
    }

    /// An accumulator operation with operand `v`; `CMP` writes the flags only.
    pub open spec fn alu(self, op: AluOp, v: u8) -> Machine {
        let (r, carry) = alu_result(op, self.a, v, self.flag(CARRY_FLAG));
        let s = self.with_result_flags(r, carry);
        if op == AluOp::Cmp {
            s
        } else {
            Machine { a: r, ..s }
        }
    }

    /// Decimal adjust: add 6 when the low nibble exceeds 9, then 0x60 (with
    /// its carry) when the high nibble does; zero, sign and parity follow the
    /// final accumulator, and carry is kept when no 0x60 was added.
    pub open spec fn daa(self) -> Machine {
        let a1: u8 = if self.a % 16 > 9 { wrap8(self.a + 6) } else { self.a };
        if a1 / 16 > 9 {
            let a2 = wrap8(a1 + 0x60);
            Machine { a: a2, flags: flags_after(self.flags, a2, a1 + 0x60 > 0xFF), ..self }
        } else {
            Machine { a: a1, flags: flags_after(self.flags, a1, self.flag(CARRY_FLAG)), ..self }
        }
    }
}

pub open spec fn uses_m(r: Reg8) -> bool {
    r == Reg8::M
}

/// What an instruction does, with `pc` already past its opcode, and the
/// machine cycles it costs.
pub open spec fn execute_spec(s: Machine, i: Instr) -> (Machine, u32) {
    match i {
        Instr::Nop => (s, 1),
        Instr::Hlt => (Machine { event: Some(Event::Halt), ..s }, 1),
        Instr::Out => (Machine { event: Some(Event::PortWrite(s.imm8(), s.a)), ..s.skip(1) }, 3),
        Instr::In => (Machine { event: Some(Event::PortRead(s.imm8())), ..s.skip(1) }, 3),
        Instr::Di => (Machine { interrupts: InterruptStatus::Disabled, ..s }, 1),
        Instr::Ei => (Machine { interrupts: InterruptStatus::Enabled, ..s }, 1),
        Instr::Mov(dst, src) => (
            s.set_reg(dst, s.reg(src)),
            if uses_m(dst) || uses_m(src) { 2 } else { 1 },
        ),
        Instr::Mvi(r) => (s.skip(1).set_reg(r, s.imm8()), if uses_m(r) { 3 } else { 2 }),
        Instr::Lxi(p) => (s.skip(2).set_pair(p, s.imm16()), 3),
        Instr::Stax(p) => (Machine { mem: mem_store(s.mem, s.pair(p), s.a), ..s }, 2),
        Instr::Ldax(p) => (Machine { a: s.mem[s.pair(p) as int], ..s }, 2),
        Instr::Sta => (Machine { mem: mem_store(s.mem, s.imm16(), s.a), ..s.skip(2) }, 4),
        Instr::Lda => (Machine { a: s.mem[s.imm16() as int], ..s.skip(2) }, 4),
        Instr::Shld => {
            let adr = s.imm16();
            let mem = mem_store(mem_store(s.mem, adr, s.l), wrap16(adr + 1), s.h);
            (Machine { mem: mem, ..s.skip(2) }, 5)
        },
        Instr::Lhld => {
            let adr = s.imm16();
            (Machine { l: s.mem[adr as int], h: s.mem[wrap16(adr + 1) as int], ..s.skip(2) }, 5)
        },
        Instr::Push(p) => (s.push(s.stack_pair(p).0).push(s.stack_pair(p).1), 3),
        Instr::Pop(p) => (
            s.drop16().set_stack_pair(p, s.mem[wrap16(s.sp + 1) as int], s.mem[s.sp as int]),
            3,
        ),
        Instr::Xthl => {
            let above = wrap16(s.sp + 1);
            let mem = mem_store(mem_store(s.mem, above, s.h), s.sp, s.l);
            (Machine { h: s.mem[above as int], l: s.mem[s.sp as int], mem: mem, ..s }, 5)
        },
        Instr::Sphl => (Machine { sp: s.hl(), ..s }, 1),
        Instr::Xchg => (Machine { h: s.d, l: s.e, d: s.h, e: s.l, ..s }, 1),
        Instr::Pchl => (Machine { pc: s.hl(), ..s }, 1),
        Instr::Inr(r) => {
            let v = wrap8(s.reg(r) + 1);
            (s.set_reg(r, v).with_result_flags(v, s.flag(CARRY_FLAG)), if uses_m(r) { 3 } else { 1 })
        },
        Instr::Dcr(r) => {
            let v = wrap8(s.reg(r) - 1);
            (s.set_reg(r, v).with_result_flags(v, s.flag(CARRY_FLAG)), if uses_m(r) { 3 } else { 1 })
        },
        Instr::Inx(p) => (s.set_pair(p, wrap16(s.pair(p) + 1)), 1),
        Instr::Dcx(p) => (s.set_pair(p, wrap16(s.pair(p) - 1)), 1),
        Instr::Dad(p) => {
            let sum = s.hl() + s.pair(p);
            (s.set_pair(RegPair::HL, wrap16(sum)).with_carry(sum > 0xFFFF), 3)
        },
        Instr::Alu(op, r) => (s.alu(op, s.reg(r)), if uses_m(r) { 2 } else { 1 }),
        Instr::AluImm(op) => (s.skip(1).alu(op, s.imm8()), 2),
        Instr::Rlc => {
            let (a, carry) = rotate_left_spec(s.a, false, s.flag(CARRY_FLAG));
            (Machine { a: a, ..s.with_carry(carry) }, 1)
        },
        Instr::Rrc => {
            let (a, carry) = rotate_right_spec(s.a, false, s.flag(CARRY_FLAG));
            (Machine { a: a, ..s.with_carry(carry) }, 1)
        },
        Instr::Ral => {
            let (a, carry) = rotate_left_spec(s.a, true, s.flag(CARRY_FLAG));
            (Machine { a: a, ..s.with_carry(carry) }, 1)
        },
        Instr::Rar => {
            let (a, carry) = rotate_right_spec(s.a, true, s.flag(CARRY_FLAG));
            (Machine { a: a, ..s.with_carry(carry) }, 1)
        },
        Instr::Daa => (s.daa(), 1),
        Instr::Cma => (Machine { a: !s.a, ..s }, 1),
        Instr::Stc => (s.with_carry(true), 1),
        Instr::Cmc => (s.with_carry(!s.flag(CARRY_FLAG)), 1),
        Instr::Jmp => (Machine { pc: s.imm16(), ..s }, 3),
        Instr::Jcc(c) => (
            if s.holds(c) {
                Machine { pc: s.imm16(), ..s }
            } else {
                s.skip(2)
            },
            3,
        ),
        Instr::Call => (s.skip(2).call(s.imm16()), 5),
        Instr::Ccc(c) => if s.holds(c) {
            (s.skip(2).call(s.imm16()), 5)
        } else {
            (s.skip(2), 3)
        },
        Instr::Ret => (s.ret(), 3),
        Instr::Rcc(c) => if s.holds(c) {
            (s.ret(), 3)
        } else {
            (s, 1)
        },
        Instr::Rst(n) => (s.call((n * 8) as u16), 5),
    }
}

/// One instruction: fetch the opcode at `pc`, move past it, execute.
pub open spec fn step_spec(s: Machine) -> (Machine, u32) {
    execute_spec(s.skip(1), decode_spec(s.mem[s.pc as int]))
}

/// An interrupt: a restart to vector `n` when interrupts are enabled,
/// nothing otherwise.
pub open spec fn interrupt_spec(s: Machine, n: u8) -> Machine {
    if s.interrupts == InterruptStatus::Enabled {
        s.call((n * 8) as u16)
    } else {
        s
    }
}

/// The state after construction or reset, over the memory `mem`.
pub open spec fn initial(mem: Seq<u8>) -> Machine {
    Machine {
        mem: mem,
        interrupts: InterruptStatus::Enabled,
        event: None,
        flags: 0,
        pc: 0,
        sp: 0,
        a: 0,
        b: 0,
        c: 0,
        d: 0,
        e: 0,
        h: 0,
        l: 0,
    }
}

} // verus!
