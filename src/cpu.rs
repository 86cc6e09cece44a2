use vstd::prelude::*;

use crate::error::Error;
use crate::flags::{even_parity, flags_after, with_flag, CARRY_FLAG, PARITY_FLAG, SIGN_FLAG, ZERO_FLAG};
use crate::instr::{decode, AluOp, Cond, Instr, Reg8, RegPair, StackPair};
use crate::machine::{
    execute_spec, high, initial, interrupt_spec, join, low, step_spec, wrap16, wrap8, Event,
    InterruptStatus, Machine,
};
use crate::memory::{mem_store, ram_cleared, rom_image, Memory};

verus! {

/// `x + k` modulo 2^16.
fn offset16(x: u16, k: u16) -> (r: u16)
    ensures
        r == wrap16(x + k),
{
    ((x as u32 + k as u32) % 0x10000) as u16
}

/// `x - k` modulo 2^16.
fn back16(x: u16, k: u16) -> (r: u16)
    ensures
        r == wrap16(x - k),
{
    if x >= k {
        x - k
    } else {
        (x as u32 + 0x10000 - k as u32) as u16
    }
}

/// The 16-bit value with high byte `hi` and low byte `lo`.
fn concat_u16(hi: u8, lo: u8) -> (r: u16)
    ensures
        r == join(hi, lo),
{
    hi as u16 * 256 + lo as u16
}

/// An Intel 8080 processor with its memory.
#[derive(Clone, Debug)]
pub struct CPU {
    pub memory: Memory,
    interrupt_status: InterruptStatus,
    event: Option<Event>,
    flags: u8,
    pc: u16,
    sp: u16,
    a: u8,
    b: u8,
    c: u8,
    d: u8,
    e: u8,
    h: u8,
    l: u8,
}

impl View for CPU {
    type V = Machine;

    closed spec fn view(&self) -> Machine {
        Machine {
            mem: self.memory@,
            interrupts: self.interrupt_status,
            event: self.event,
            flags: self.flags,
            pc: self.pc,
            sp: self.sp,
            a: self.a,
            b: self.b,
            c: self.c,
            d: self.d,
            e: self.e,
            h: self.h,
            l: self.l,
        }
    }
}

impl CPU {
    pub open spec fn wf(&self) -> bool {
        self@.wf()
    }

    /// A processor whose program image is `program`, with RAM, registers and
    /// flags zeroed and interrupts enabled.
    pub fn new(program: &[u8]) -> (r: CPU)
        ensures
            r.wf(),
            r@ == initial(rom_image(program@)),
    {
        CPU {
            memory: Memory::new(program),
            interrupt_status: InterruptStatus::Enabled,
            event: None,
            flags: 0,
            pc: 0,
            sp: 0,
            a: 0,
            b: 0,
            c: 0,
            d: 0,
            e: 0,
            h: 0,
            l: 0,
        }
    }

    /// Back to the state after construction; the program image stays.
    pub fn reset(&mut self)
        requires
            old(self).wf(),
        ensures
            final(self).wf(),
            final(self)@ == initial(ram_cleared(old(self)@.mem)),
    {
        self.memory.reset_ram();
        self.interrupt_status = InterruptStatus::Enabled;
        self.event = None;
        self.flags = 0;
        self.pc = 0;
        self.sp = 0;
        self.a = 0;
        self.b = 0;
        self.c = 0;
        self.d = 0;
        self.e = 0;
        self.h = 0;
        self.l = 0;
    }

    /// Takes the pending event, leaving none.
    pub fn event(&mut self) -> (r: Option<Event>)
        ensures
            r == old(self)@.event,
            final(self)@ == (Machine { event: None, ..old(self)@ }),
    {
        let r = self.event;
        self.event = None;
        r
    }

    /// Loads the host's answer to a port read into the accumulator.
    pub fn port_in(&mut self, val: u8)
        ensures
            final(self)@ == (Machine { a: val, ..old(self)@ }),
    {
        self.a = val;
    }

    fn read_pc(&mut self) -> (r: u8)
        requires
            old(self).wf(),
        ensures
            r == old(self)@.imm8(),
            final(self)@ == old(self)@.skip(1),
    {
        let val = self.memory.read(self.pc);
        self.pc = offset16(self.pc, 1);
        val
    }

    fn read_pc_u16(&mut self) -> (r: u16)
        requires
            old(self).wf(),
        ensures
            r == old(self)@.imm16(),
            final(self)@ == old(self)@.skip(2),
    {
        let lo = self.memory.read(self.pc);
        let hi = self.memory.read(offset16(self.pc, 1));
        self.pc = offset16(self.pc, 2);
        concat_u16(hi, lo)
    }

    /// 1 when a bit of `mask` is set in the flags, else 0.
    fn flag(&self, mask: u8) -> (r: u8)
        ensures
            r == (if self@.flag(mask) { 1u8 } else { 0u8 }),
    {
        if self.flags & mask != 0 {
            1
        } else {
            0
        }
    }

    fn set_flag(&mut self, mask: u8, value: u8)
        ensures
            final(self)@ == (Machine { flags: with_flag(old(self)@.flags, mask, value != 0), ..old(self)@ }),
    {
        if value != 0 {
            self.flags = self.flags | mask;
        } else {
            self.flags = self.flags & !mask;
        }
    }

    fn set_carry(&mut self, carry: bool)
        ensures
            final(self)@ == old(self)@.with_carry(carry),
    {
        self.set_flag(CARRY_FLAG, if carry { 1 } else { 0 });
    }

    /// Zero, sign and parity from `result`, carry from `carry`.
    fn set_flags(&mut self, result: u8, carry: bool)
        ensures
            final(self)@ == old(self)@.with_result_flags(result, carry),
    {
        self.set_flag(CARRY_FLAG, if carry { 1 } else { 0 });
        self.set_flag(PARITY_FLAG, if even_parity(result) { 1 } else { 0 });
        self.set_flag(ZERO_FLAG, if result == 0 { 1 } else { 0 });
        self.set_flag(SIGN_FLAG, if result >= 0x80 { 1 } else { 0 });
    }

    fn holds(&self, c: Cond) -> (r: bool)
        ensures
            r == self@.holds(c),
    {
        match c {
            Cond::NotZero => self.flag(ZERO_FLAG) == 0,
            Cond::Zero => self.flag(ZERO_FLAG) != 0,
            Cond::NoCarry => self.flag(CARRY_FLAG) == 0,
            Cond::Carry => self.flag(CARRY_FLAG) != 0,
            Cond::ParityOdd => self.flag(PARITY_FLAG) == 0,
            Cond::ParityEven => self.flag(PARITY_FLAG) != 0,
            Cond::Plus => self.flag(SIGN_FLAG) == 0,
            Cond::Minus => self.flag(SIGN_FLAG) != 0,
        }
    }

    fn bc(&self) -> (r: u16)
        ensures
            r == self@.bc(),
    {
        concat_u16(self.b, self.c)
    }

    fn de(&self) -> (r: u16)
        ensures
            r == self@.de(),
    {
        concat_u16(self.d, self.e)
    }

    /// The address of the `M` operand.
    fn m(&self) -> (r: u16)
        ensures
            r == self@.hl(),
    {
        concat_u16(self.h, self.l)
    }

    fn reg(&self, r: Reg8) -> (v: u8)
        requires
            self.wf(),
        ensures
            v == self@.reg(r),
    {
        match r {
            Reg8::B => self.b,
            Reg8::C => self.c,
            Reg8::D => self.d,
            Reg8::E => self.e,
            Reg8::H => self.h,
            Reg8::L => self.l,
            Reg8::M => self.memory.read(self.m()),
            Reg8::A => self.a,
        }
    }

    fn set_reg(&mut self, r: Reg8, v: u8)
        requires
            old(self).wf(),
        ensures
            final(self).wf(),
            final(self)@ == old(self)@.set_reg(r, v),
    {
        match r {
            Reg8::B => self.b = v,
            Reg8::C => self.c = v,
            Reg8::D => self.d = v,
            Reg8::E => self.e = v,
            Reg8::H => self.h = v,
            Reg8::L => self.l = v,
            Reg8::M => {
                let adr = self.m();
                self.memory.write(adr, v);
            },
            Reg8::A => self.a = v,
        }
    }

    fn pair(&self, p: RegPair) -> (r: u16)
        ensures
            r == self@.pair(p),
    {
        match p {
            RegPair::BC => self.bc(),
            RegPair::DE => self.de(),
            RegPair::HL => self.m(),
            RegPair::SP => self.sp,
        }
    }

    fn set_pair(&mut self, p: RegPair, v: u16)
        ensures
            final(self)@ == old(self)@.set_pair(p, v),
    {
        let hi = (v / 256) as u8;
        let lo = (v % 256) as u8;
        match p {
            RegPair::BC => {
                self.b = hi;
                self.c = lo;
            },
            RegPair::DE => {
                self.d = hi;
                self.e = lo;
            },
            RegPair::HL => {
                self.h = hi;
                self.l = lo;
            },
            RegPair::SP => self.sp = v,
        }
    }

    fn stack_push(&mut self, val: u8)
        requires
            old(self).wf(),
        ensures
            final(self).wf(),
            final(self)@ == old(self)@.push(val),
    {
        self.sp = back16(self.sp, 1);
        self.memory.write(self.sp, val);
    }

    fn stack_push_u16(&mut self, val: u16)
        requires
            old(self).wf(),
        ensures
            final(self).wf(),
            final(self)@ == old(self)@.push16(val),
    {
        self.stack_push((val / 256) as u8);
        self.stack_push((val % 256) as u8);
    }

    fn stack_pop(&mut self) -> (r: u8)
        requires
            old(self).wf(),
        ensures
            r == old(self)@.mem[old(self)@.sp as int],
            final(self)@ == (Machine { sp: wrap16(old(self)@.sp + 1), ..old(self)@ }),
    {
        let val = self.memory.read(self.sp);
        self.sp = offset16(self.sp, 1);
        val
    }

    fn stack_pop_u16(&mut self) -> (r: u16)
        requires
            old(self).wf(),
        ensures
            r == old(self)@.top16(),
            final(self)@ == old(self)@.drop16(),
    {
        let lo = self.stack_pop();
        let hi = self.stack_pop();
        concat_u16(hi, lo)
    }

    fn call(&mut self, adr: u16) -> (cycles: u32)
        requires
            old(self).wf(),
        ensures
            final(self).wf(),
            final(self)@ == old(self)@.call(adr),
            cycles == 5,
    {
        self.stack_push_u16(self.pc);
        self.pc = adr;
        5
    }

    fn rst(&mut self, n: u8) -> (cycles: u32)
        requires
            old(self).wf(),
            n < 32,
        ensures
            final(self).wf(),
            final(self)@ == old(self)@.call((n * 8) as u16),
            cycles == 5,
    {
        self.call(n as u16 * 8)
    }

    /// Pushes `pc` and jumps to vector `n` when interrupts are enabled; the
    /// latch itself is left as it is.
    pub fn interrupt(&mut self, n: u8)
        requires
            old(self).wf(),
            n <= 7,
        ensures
            final(self).wf(),
            final(self)@ == interrupt_spec(old(self)@, n),
    {
        if let InterruptStatus::Enabled = self.interrupt_status {
            self.rst(n);
        }
    }

    fn jmp_if(&mut self, c: Cond) -> (cycles: u32)
        requires
            old(self).wf(),
        ensures
            final(self).wf(),
            (final(self)@, cycles) == execute_spec(old(self)@, Instr::Jcc(c)),
    {
        let adr = self.read_pc_u16();
        if self.holds(c) {
            self.pc = adr;
        }
        3
    }

    fn call_if(&mut self, c: Cond) -> (cycles: u32)
        requires
            old(self).wf(),
        ensures
            final(self).wf(),
            (final(self)@, cycles) == execute_spec(old(self)@, Instr::Ccc(c)),
    {
        let adr = self.read_pc_u16();
        if self.holds(c) {
            self.call(adr)
        } else {
            3
        }
    }

    fn ret(&mut self) -> (cycles: u32)
        requires
            old(self).wf(),
        ensures
            final(self).wf(),
            final(self)@ == old(self)@.ret(),
            cycles == 3,
    {
        self.pc = self.stack_pop_u16();
        3
    }

    fn ret_if(&mut self, c: Cond) -> (cycles: u32)
        requires
            old(self).wf(),
        ensures
            final(self).wf(),
            (final(self)@, cycles) == execute_spec(old(self)@, Instr::Rcc(c)),
    {
        if self.holds(c) {
            self.ret()
        } else {
            1
        }
    }

    /// `val + 1`; zero, sign and parity follow it, carry is kept.
    fn inr(&mut self, val: u8) -> (r: u8)
        ensures
            r == wrap8(val + 1),
            final(self)@ == old(self)@.with_result_flags(r, old(self)@.flag(CARRY_FLAG)),
    {
        let result = ((val as u16 + 1) % 256) as u8;
        let carry = self.flag(CARRY_FLAG) != 0;
        self.set_flags(result, carry);
        result
    }

    /// `val - 1`; zero, sign and parity follow it, carry is kept.
    fn dcr(&mut self, val: u8) -> (r: u8)
        ensures
            r == wrap8(val - 1),
            final(self)@ == old(self)@.with_result_flags(r, old(self)@.flag(CARRY_FLAG)),
    {
        let result = if val == 0 { 255 } else { val - 1 };
        let carry = self.flag(CARRY_FLAG) != 0;
        self.set_flags(result, carry);
        result
    }

    /// `ADD`, or `ADC` when `with_carry`.
    fn add_a(&mut self, val: u8, with_carry: bool) -> (cycles: u32)
        ensures
            final(self)@ == old(self)@.alu(if with_carry { AluOp::Adc } else { AluOp::Add }, val),
            cycles == 1,
    {
        let carry_in: u16 = if with_carry { self.flag(CARRY_FLAG) as u16 } else { 0 };
        let sum: u16 = self.a as u16 + val as u16 + carry_in;
        let result = (sum % 256) as u8;
        self.set_flags(result, sum > 0xFF);
        self.a = result;
        1
    }

    /// `A - val (- borrow)` and whether it went below zero.
    fn difference(&self, val: u8, with_borrow: bool) -> (r: (u8, bool))
        ensures
            r == crate::machine::alu_result(
                if with_borrow { AluOp::Sbb } else { AluOp::Sub },
                self@.a,
                val,
                self@.flag(CARRY_FLAG),
            ),
    {
        let borrow: u16 = if with_borrow { self.flag(CARRY_FLAG) as u16 } else { 0 };
        let sub: u16 = val as u16 + borrow;
        if self.a as u16 >= sub {
            ((self.a as u16 - sub) as u8, false)
        } else {
            ((self.a as u16 + 256 - sub) as u8, true)
        }
    }

    /// `SUB`, or `SBB` when `with_borrow`.
    fn sub_a(&mut self, val: u8, with_borrow: bool) -> (cycles: u32)
        ensures
            final(self)@ == old(self)@.alu(if with_borrow { AluOp::Sbb } else { AluOp::Sub }, val),
            cycles == 1,
    {
        let (result, underflow) = self.difference(val, with_borrow);
        self.set_flags(result, underflow);
        self.a = result;
        1
    }

    fn and_a(&mut self, val: u8) -> (cycles: u32)
        ensures
            final(self)@ == old(self)@.alu(AluOp::Ana, val),
            cycles == 1,
    {
        self.a = self.a & val;
        self.set_flags(self.a, false);
        1
    }

    fn xor_a(&mut self, val: u8) -> (cycles: u32)
        ensures
            final(self)@ == old(self)@.alu(AluOp::Xra, val),
            cycles == 1,
    {
        self.a = self.a ^ val;
        self.set_flags(self.a, false);
        1
    }

    fn or_a(&mut self, val: u8) -> (cycles: u32)
        ensures
            final(self)@ == old(self)@.alu(AluOp::Ora, val),
            cycles == 1,
    {
        self.a = self.a | val;
        self.set_flags(self.a, false);
        1
    }

    fn cmp_a(&mut self, val: u8) -> (cycles: u32)
        ensures
            final(self)@ == old(self)@.alu(AluOp::Cmp, val),
            cycles == 1,
    {
        let (result, underflow) = self.difference(val, false);
        self.set_flags(result, underflow);
        1
    }

    fn alu(&mut self, op: AluOp, val: u8)
        ensures
            final(self)@ == old(self)@.alu(op, val),
    {
        match op {
            AluOp::Add => self.add_a(val, false),
            AluOp::Adc => self.add_a(val, true),
            AluOp::Sub => self.sub_a(val, false),
            AluOp::Sbb => self.sub_a(val, true),
            AluOp::Ana => self.and_a(val),
            AluOp::Xra => self.xor_a(val),
            AluOp::Ora => self.or_a(val),
            AluOp::Cmp => self.cmp_a(val),
        };
    }

    fn inx(&mut self, p: RegPair) -> (cycles: u32)
        ensures
            (final(self)@, cycles) == execute_spec(old(self)@, Instr::Inx(p)),
    {
        let v = offset16(self.pair(p), 1);
        self.set_pair(p, v);
        1
    }

    fn dcx(&mut self, p: RegPair) -> (cycles: u32)
        ensures
            (final(self)@, cycles) == execute_spec(old(self)@, Instr::Dcx(p)),
    {
        let v = back16(self.pair(p), 1);
        self.set_pair(p, v);
        1
    }

    fn dad(&mut self, p: RegPair) -> (cycles: u32)
        ensures
            (final(self)@, cycles) == execute_spec(old(self)@, Instr::Dad(p)),
    {
        let sum: u32 = self.m() as u32 + self.pair(p) as u32;
        self.set_pair(RegPair::HL, (sum % 0x10000) as u16);
        self.set_carry(sum > 0xFFFF);
        3
    }

    fn push_pair(&mut self, p: StackPair) -> (cycles: u32)
        requires
            old(self).wf(),
        ensures
            final(self).wf(),
            (final(self)@, cycles) == execute_spec(old(self)@, Instr::Push(p)),
    {
        let (hi, lo) = match p {
            StackPair::BC => (self.b, self.c),
            StackPair::DE => (self.d, self.e),
            StackPair::HL => (self.h, self.l),
            StackPair::PSW => (self.a, self.flags),
        };
        self.stack_push(hi);
        self.stack_push(lo);
        3
    }

    fn pop_pair(&mut self, p: StackPair) -> (cycles: u32)
        requires
            old(self).wf(),
        ensures
            final(self).wf(),
            (final(self)@, cycles) == execute_spec(old(self)@, Instr::Pop(p)),
    {
        let ghost sp = self@.sp;
        let lo = self.stack_pop();
        let hi = self.stack_pop();
        assert(wrap16(wrap16(sp + 1) + 1) == wrap16(sp + 2));
        match p {
            StackPair::BC => {
                self.b = hi;
                self.c = lo;
            },
            StackPair::DE => {
                self.d = hi;
                self.e = lo;
            },
            StackPair::HL => {
                self.h = hi;
                self.l = lo;
            },
            StackPair::PSW => {
                self.a = hi;
                self.flags = lo;
            },
        }
        3
    }

    /// Swaps `(H,L)` with the two bytes on top of the stack.
    fn xthl(&mut self) -> (cycles: u32)
        requires
            old(self).wf(),
        ensures
            final(self).wf(),
            (final(self)@, cycles) == execute_spec(old(self)@, Instr::Xthl),
    {
        let above = offset16(self.sp, 1);
        let top_hi = self.memory.read(above);
        let top_lo = self.memory.read(self.sp);
        self.memory.write(above, self.h);
        self.memory.write(self.sp, self.l);
        self.h = top_hi;
        self.l = top_lo;
        5
    }

    /// Control transfers, I/O, halt and the interrupt latch.
    fn exec_control(&mut self, i: Instr) -> (cycles: u32)
        requires
            old(self).wf(),
            i is Nop || i is Hlt || i is Out || i is In || i is Di || i is Ei || i is Jmp || i is Jcc || i is Call || i is Ccc || i is Ret || i is Rcc || i is Rst || i is Pchl,
        ensures
            final(self).wf(),
            (final(self)@, cycles) == execute_spec(old(self)@, i),
    {
        match i {
            Instr::Nop => 1,
            Instr::Hlt => {
                self.event = Some(Event::Halt);
                1
            },
            Instr::Out => {
                let port = self.read_pc();
                self.event = Some(Event::PortWrite(port, self.a));
                3
            },
            Instr::In => {
                let port = self.read_pc();
                self.event = Some(Event::PortRead(port));
                3
            },
            Instr::Di => {
                self.interrupt_status = InterruptStatus::Disabled;
                1
            },
            Instr::Ei => {
                self.interrupt_status = InterruptStatus::Enabled;
                1
            },
            Instr::Jmp => {
                self.pc = self.read_pc_u16();
                3
            },
            Instr::Jcc(c) => self.jmp_if(c),
            Instr::Call => {
                let adr = self.read_pc_u16();
                self.call(adr)
            },
            Instr::Ccc(c) => self.call_if(c),
            Instr::Ret => self.ret(),
            Instr::Rcc(c) => self.ret_if(c),
            Instr::Rst(n) => {
                self.call(n as u16 * 8)
            },
            Instr::Pchl => {
                self.pc = self.m();
                1
            },
            _ => 0,
        }
    }

    /// 8- and 16-bit loads, stores and moves.
    fn exec_transfer(&mut self, i: Instr) -> (cycles: u32)
        requires
            old(self).wf(),
            i is Mov || i is Mvi || i is Lxi || i is Stax || i is Ldax || i is Sta || i is Lda || i is Shld || i is Lhld,
        ensures
            final(self).wf(),
            (final(self)@, cycles) == execute_spec(old(self)@, i),
    {
        match i {
            Instr::Mov(dst, src) => {
                let v = self.reg(src);
                self.set_reg(dst, v);
                match (dst, src) {
                    (Reg8::M, _) | (_, Reg8::M) => 2,
                    _ => 1,
                }
            },
            Instr::Mvi(r) => {
                let v = self.read_pc();
                self.set_reg(r, v);
                if let Reg8::M = r {
                    3
                } else {
                    2
                }
            },
            Instr::Lxi(p) => {
                let v = self.read_pc_u16();
                self.set_pair(p, v);
                3
            },
            Instr::Stax(p) => {
                let adr = self.pair(p);
                self.memory.write(adr, self.a);
                2
            },
            Instr::Ldax(p) => {
                let adr = self.pair(p);
                self.a = self.memory.read(adr);
                2
            },
            Instr::Sta => {
                let adr = self.read_pc_u16();
                self.memory.write(adr, self.a);
                4
            },
            Instr::Lda => {
                let adr = self.read_pc_u16();
                self.a = self.memory.read(adr);
                4
            },
            Instr::Shld => {
                let adr = self.read_pc_u16();
                self.memory.write(adr, self.l);
                self.memory.write(offset16(adr, 1), self.h);
                5
            },
            Instr::Lhld => {
                let adr = self.read_pc_u16();
                self.l = self.memory.read(adr);
                self.h = self.memory.read(offset16(adr, 1));
                5
            },
            _ => 0,
        }
    }

    /// Stack and register-pair exchanges.
    fn exec_stack(&mut self, i: Instr) -> (cycles: u32)
        requires
            old(self).wf(),
            i is Push || i is Pop || i is Xthl || i is Sphl || i is Xchg,
        ensures
            final(self).wf(),
            (final(self)@, cycles) == execute_spec(old(self)@, i),
    {
        match i {
            Instr::Push(p) => self.push_pair(p),
            Instr::Pop(p) => self.pop_pair(p),
            Instr::Xthl => self.xthl(),
            Instr::Sphl => {
                self.sp = self.m();
                1
            },
            Instr::Xchg => {
                let (h, l) = (self.h, self.l);
                self.h = self.d;
                self.l = self.e;
                self.d = h;
                self.e = l;
                1
            },
            _ => 0,
        }
    }

    /// Increments, decrements, 16-bit adds and accumulator operations.
    fn exec_arith(&mut self, i: Instr) -> (cycles: u32)
        requires
            old(self).wf(),
            i is Inr || i is Dcr || i is Inx || i is Dcx || i is Dad || i is Alu || i is AluImm,
        ensures
            final(self).wf(),
            (final(self)@, cycles) == execute_spec(old(self)@, i),
    {
        match i {
            Instr::Inr(r) => {
                let v = self.reg(r);
                let result = self.inr(v);
                self.set_reg(r, result);
                if let Reg8::M = r {
                    3
                } else {
                    1
                }
            },
            Instr::Dcr(r) => {
                let v = self.reg(r);
                let result = self.dcr(v);
                self.set_reg(r, result);
                if let Reg8::M = r {
                    3
                } else {
                    1
                }
            },
            Instr::Inx(p) => self.inx(p),
            Instr::Dcx(p) => self.dcx(p),
            Instr::Dad(p) => self.dad(p),
            Instr::Alu(op, r) => {
                let v = self.reg(r);
                self.alu(op, v);
                if let Reg8::M = r {
                    2
                } else {
                    1
                }
            },
            Instr::AluImm(op) => {
                let v = self.read_pc();
                self.alu(op, v);
                2
            },
            _ => 0,
        }
    }

    /// Rotates, decimal adjust, complement and carry operations.
    fn exec_accumulator(&mut self, i: Instr) -> (cycles: u32)
        requires
            old(self).wf(),
            i is Rlc || i is Rrc || i is Ral || i is Rar || i is Daa || i is Cma || i is Stc || i is Cmc,
        ensures
            final(self).wf(),
            (final(self)@, cycles) == execute_spec(old(self)@, i),
    {
        match i {
            Instr::Rlc => {
                let a = self.a;
                self.a = ((a as u16 * 2 + (a / 128) as u16) % 256) as u8;
                self.set_carry(a >= 0x80);
                1
            },
            Instr::Rrc => {
                let a = self.a;
                self.a = a / 2 + (a % 2) * 128;
                self.set_carry(a % 2 == 1);
                1
            },
            Instr::Ral => {
                let a = self.a;
                self.a = ((a as u16 * 2 + self.flag(CARRY_FLAG) as u16) % 256) as u8;
                self.set_carry(a >= 0x80);
                1
            },
            Instr::Rar => {
                let a = self.a;
                self.a = a / 2 + self.flag(CARRY_FLAG) * 128;
                self.set_carry(a % 2 == 1);
                1
            },
            Instr::Daa => {
                let mut a = self.a;
                if a % 16 > 9 {
                    a = ((a as u16 + 6) % 256) as u8;
                }
                if a / 16 > 9 {
                    let sum: u16 = a as u16 + 0x60;
                    let adjusted = (sum % 256) as u8;
                    self.set_flags(adjusted, sum > 0xFF);
                    self.a = adjusted;
                } else {
                    let carry = self.flag(CARRY_FLAG) != 0;
                    self.set_flags(a, carry);
                    self.a = a;
                }
                1
            },
            Instr::Cma => {
                self.a = !self.a;
                1
            },
            Instr::Stc => {
                self.set_carry(true);
                1
            },
            Instr::Cmc => {
                let carry = self.flag(CARRY_FLAG) == 0;
                self.set_carry(carry);
                1
            },
            _ => 0,
        }
    }

    /// Executes `i`, whose opcode has already been fetched; returns its cost
    /// in machine cycles.
    fn execute(&mut self, i: Instr) -> (cycles: u32)
        requires
            old(self).wf(),
        ensures
            final(self).wf(),
            (final(self)@, cycles) == execute_spec(old(self)@, i),
    {
        match i {
            Instr::Nop | Instr::Hlt | Instr::Out | Instr::In | Instr::Di | Instr::Ei | Instr::Jmp | Instr::Jcc(..) | Instr::Call | Instr::Ccc(..) | Instr::Ret | Instr::Rcc(..) | Instr::Rst(..) | Instr::Pchl => self.exec_control(i),
            Instr::Mov(..) | Instr::Mvi(..) | Instr::Lxi(..) | Instr::Stax(..) | Instr::Ldax(..) | Instr::Sta | Instr::Lda | Instr::Shld | Instr::Lhld => self.exec_transfer(i),
            Instr::Push(..) | Instr::Pop(..) | Instr::Xthl | Instr::Sphl | Instr::Xchg => self.exec_stack(i),
            Instr::Inr(..) | Instr::Dcr(..) | Instr::Inx(..) | Instr::Dcx(..) | Instr::Dad(..) | Instr::Alu(..) | Instr::AluImm(..) => self.exec_arith(i),
            Instr::Rlc | Instr::Rrc | Instr::Ral | Instr::Rar | Instr::Daa | Instr::Cma | Instr::Stc | Instr::Cmc => self.exec_accumulator(i),
        }
    }

    /// Fetches, decodes and executes one instruction; returns its cost in
    /// machine cycles. Every opcode decodes, so this never fails.
    pub fn step(&mut self) -> (r: Result<u32, Error>)
        requires
            old(self).wf(),
        ensures
            final(self).wf(),
            final(self)@ == step_spec(old(self)@).0,
            r == Ok::<u32, Error>(step_spec(old(self)@).1),
    {
        let opcode = self.read_pc();
        let i = decode(opcode);
        Ok(self.execute(i))
    }

    /// The accumulator.
    pub fn a(&self) -> (r: u8)
        ensures
            r == self@.a,
    {
        self.a
    }

    /// The B register.
    pub fn b(&self) -> (r: u8)
        ensures
            r == self@.b,
    {
        self.b
    }

    /// The C register.
    pub fn c(&self) -> (r: u8)
        ensures
            r == self@.c,
    {
        self.c
    }

    /// The D register.
    pub fn d(&self) -> (r: u8)
        ensures
            r == self@.d,
    {
        self.d
    }

    /// The E register.
    pub fn e(&self) -> (r: u8)
        ensures
            r == self@.e,
    {
        self.e
    }

    /// The H register.
    pub fn h(&self) -> (r: u8)
        ensures
            r == self@.h,
    {
        self.h
    }

    /// The L register.
    pub fn l(&self) -> (r: u8)
        ensures
            r == self@.l,
    {
        self.l
    }

    /// The flags byte.
    pub fn flags(&self) -> (r: u8)
        ensures
            r == self@.flags,
    {
        self.flags
    }

    /// The program counter.
    pub fn pc(&self) -> (r: u16)
        ensures
            r == self@.pc,
    {
        self.pc
    }

    /// The stack pointer.
    pub fn sp(&self) -> (r: u16)
        ensures
            r == self@.sp,
    {
        self.sp
    }

    /// The interrupt latch.
    pub fn interrupt_status(&self) -> (r: InterruptStatus)
        ensures
            r == self@.interrupts,
    {
        self.interrupt_status
    }

    /// The memory byte at `addr`.
    pub fn peek(&self, addr: u16) -> (r: u8)
        requires
            self.wf(),
        ensures
            r == self@.mem[addr as int],
    {
        self.memory.read(addr)
    }

    /// Stores `v` at `addr` unless `addr` lies in the program image.
    pub fn poke(&mut self, addr: u16, v: u8)
        requires
            old(self).wf(),
        ensures
            final(self).wf(),
            final(self)@ == (Machine { mem: mem_store(old(self)@.mem, addr, v), ..old(self)@ }),
    {
        self.memory.write(addr, v);
    }
}

} // verus!
