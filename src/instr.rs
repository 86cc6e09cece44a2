use vstd::prelude::*;

verus! {

/// An 8-bit operand, in the order of its three-bit code; `M` is the memory byte
/// addressed by `(H,L)`.
#[derive(Clone, Copy, Debug, PartialEq, Eq)]
pub enum Reg8 {
    B,
    C,
    D,
    E,
    H,
    L,
    M,
    A,
}

/// A 16-bit register pair as named by load, increment and add instructions.
#[derive(Clone, Copy, Debug, PartialEq, Eq)]
pub enum RegPair {
    BC,
    DE,
    HL,
    SP,
}

/// A register pair as named by `PUSH` and `POP`; `PSW` is `(A, FLAGS)`.
#[derive(Clone, Copy, Debug, PartialEq, Eq)]
pub enum StackPair {
    BC,
    DE,
    HL,
    PSW,
}

/// A branch condition, in the order of its three-bit code.
#[derive(Clone, Copy, Debug, PartialEq, Eq)]
pub enum Cond {
    NotZero,
    Zero,
    NoCarry,
    Carry,
    ParityOdd,
    ParityEven,
    Plus,
    Minus,
}

/// An accumulator operation, in the order of its three-bit code.
#[derive(Clone, Copy, Debug, PartialEq, Eq)]
pub enum AluOp {
    Add,
    Adc,
    Sub,
    Sbb,
    Ana,
    Xra,
    Ora,
    Cmp,
}

/// A decoded instruction. Operand bytes are not part of it: they follow the
/// opcode in memory and are read while the instruction executes.
#[derive(Clone, Copy, Debug, PartialEq, Eq)]
pub enum Instr {
    Nop,
    Hlt,
    Out,
    In,
    Di,
    Ei,
    /// Destination, then source.
    Mov(Reg8, Reg8),
    Mvi(Reg8),
    Lxi(RegPair),
    Stax(RegPair),
    Ldax(RegPair),
    Sta,
    Lda,
    Shld,
    Lhld,
    Push(StackPair),
    Pop(StackPair),
    Xthl,
    Sphl,
    Xchg,
    Pchl,
    Inr(Reg8),
    Dcr(Reg8),
    Inx(RegPair),
    Dcx(RegPair),
    Dad(RegPair),
    Alu(AluOp, Reg8),
    AluImm(AluOp),
    Rlc,
    Rrc,
    Ral,
    Rar,
    Daa,
    Cma,
    Stc,
    Cmc,
    Jmp,
    Jcc(Cond),
    Call,
    Ccc(Cond),
    Ret,
    Rcc(Cond),
    Rst(u8),
}

pub open spec fn reg_of(code: u8) -> Reg8 {
    if code == 0 {
        Reg8::B
    } else if code == 1 {
        Reg8::C
    } else if code == 2 {
        Reg8::D
    } else if code == 3 {
        Reg8::E
    } else if code == 4 {
        Reg8::H
    } else if code == 5 {
        Reg8::L
    } else if code == 6 {
        Reg8::M
    } else {
        Reg8::A
    }
}

pub open spec fn pair_of(code: u8) -> RegPair {
    if code == 0 {
        RegPair::BC
    } else if code == 1 {
        RegPair::DE
    } else if code == 2 {
        RegPair::HL
    } else {
        RegPair::SP
    }
}

pub open spec fn stack_pair_of(code: u8) -> StackPair {
    if code == 0 {
        StackPair::BC
    } else if code == 1 {
        StackPair::DE
    } else if code == 2 {
        StackPair::HL
    } else {
        StackPair::PSW
    }
}

pub open spec fn cond_of(code: u8) -> Cond {
    if code == 0 {
        Cond::NotZero
    } else if code == 1 {
        Cond::Zero
    } else if code == 2 {
        Cond::NoCarry
    } else if code == 3 {
        Cond::Carry
    } else if code == 4 {
        Cond::ParityOdd
    } else if code == 5 {
        Cond::ParityEven
    } else if code == 6 {
        Cond::Plus
    } else {
        Cond::Minus
    }
}

pub open spec fn alu_of(code: u8) -> AluOp {
    if code == 0 {
        AluOp::Add
    } else if code == 1 {
        AluOp::Adc
    } else if code == 2 {
        AluOp::Sub
    } else if code == 3 {
        AluOp::Sbb
    } else if code == 4 {
        AluOp::Ana
    } else if code == 5 {
        AluOp::Xra
    } else if code == 6 {
        AluOp::Ora
    } else {
        AluOp::Cmp
    }
}

/// The instruction of an opcode, read as fields `xx yyy zzz`. Every opcode
/// decodes: the undocumented ones act as their documented aliases.
pub open spec fn decode_spec(op: u8) -> Instr {
    let x = op / 64;
    let y = (op / 8) % 8;
    let z = op % 8;
    if x == 0 {
        if z == 0 {
            Instr::Nop
        } else if z == 1 {
            if y % 2 == 0 { Instr::Lxi(pair_of(y / 2)) } else { Instr::Dad(pair_of(y / 2)) }
        } else if z == 2 {
            if y == 0 {
                Instr::Stax(RegPair::BC)
            } else if y == 1 {
                Instr::Ldax(RegPair::BC)
            } else if y == 2 {
                Instr::Stax(RegPair::DE)
            } else if y == 3 {
                Instr::Ldax(RegPair::DE)
            } else if y == 4 {
                Instr::Shld
            } else if y == 5 {
                Instr::Lhld
            } else if y == 6 {
                Instr::Sta
            } else {
                Instr::Lda
            }
        } else if z == 3 {
            if y % 2 == 0 { Instr::Inx(pair_of(y / 2)) } else { Instr::Dcx(pair_of(y / 2)) }
        } else if z == 4 {
            Instr::Inr(reg_of(y))
        } else if z == 5 {
            Instr::Dcr(reg_of(y))
        } else if z == 6 {
            Instr::Mvi(reg_of(y))
        } else {
            if y == 0 {
                Instr::Rlc
            } else if y == 1 {
                Instr::Rrc
            } else if y == 2 {
                Instr::Ral
            } else if y == 3 {
                Instr::Rar
            } else if y == 4 {
                Instr::Daa
            } else if y == 5 {
                Instr::Cma
            } else if y == 6 {
                Instr::Stc
            } else {
                Instr::Cmc
            }
        }
    } else if x == 1 {
        if op == 0x76 { Instr::Hlt } else { Instr::Mov(reg_of(y), reg_of(z)) }
    } else if x == 2 {
        Instr::Alu(alu_of(y), reg_of(z))
    } else {
        if z == 0 {
            Instr::Rcc(cond_of(y))
        } else if z == 1 {
            if y % 2 == 0 {
                Instr::Pop(stack_pair_of(y / 2))
            } else if y == 5 {
                Instr::Pchl
            } else if y == 7 {
                Instr::Sphl
            } else {
                Instr::Ret
            }
        } else if z == 2 {
            Instr::Jcc(cond_of(y))
        } else if z == 3 {
            if y <= 1 {
                Instr::Jmp
            } else if y == 2 {
                Instr::Out
            } else if y == 3 {
                Instr::In
            } else if y == 4 {
                Instr::Xthl
            } else if y == 5 {
                Instr::Xchg
            } else if y == 6 {
                Instr::Di
            } else {
                Instr::Ei
            }
        } else if z == 4 {
            Instr::Ccc(cond_of(y))
        } else if z == 5 {
            if y % 2 == 0 { Instr::Push(stack_pair_of(y / 2)) } else { Instr::Call }
        } else if z == 6 {
            Instr::AluImm(alu_of(y))
        } else {
            Instr::Rst(y)
        }
    }
}

fn reg_code(code: u8) -> (r: Reg8)
    ensures
        r == reg_of(code),
{
    match code {
        0 => Reg8::B,
        1 => Reg8::C,
        2 => Reg8::D,
        3 => Reg8::E,
        4 => Reg8::H,
        5 => Reg8::L,
        6 => Reg8::M,
        _ => Reg8::A,
    }
}

fn pair_code(code: u8) -> (r: RegPair)
    ensures
        r == pair_of(code),
{
    match code {
        0 => RegPair::BC,
        1 => RegPair::DE,
        2 => RegPair::HL,
        _ => RegPair::SP,
    }
}

fn stack_pair_code(code: u8) -> (r: StackPair)
    ensures
        r == stack_pair_of(code),
{
    match code {
        0 => StackPair::BC,
        1 => StackPair::DE,
        2 => StackPair::HL,
        _ => StackPair::PSW,
    }
}

fn cond_code(code: u8) -> (r: Cond)
    ensures
        r == cond_of(code),
{
    match code {
        0 => Cond::NotZero,
        1 => Cond::Zero,
        2 => Cond::NoCarry,
        3 => Cond::Carry,
        4 => Cond::ParityOdd,
        5 => Cond::ParityEven,
        6 => Cond::Plus,
        _ => Cond::Minus,
    }
}

fn alu_code(code: u8) -> (r: AluOp)
    ensures
        r == alu_of(code),
{
    match code {
        0 => AluOp::Add,
        1 => AluOp::Adc,
        2 => AluOp::Sub,
        3 => AluOp::Sbb,
        4 => AluOp::Ana,
        5 => AluOp::Xra,
        6 => AluOp::Ora,
        _ => AluOp::Cmp,
    }
}

/// Decodes one opcode.
pub fn decode(op: u8) -> (r: Instr)
    ensures
        r == decode_spec(op),
{
    let x = op / 64;
    let y = (op / 8) % 8;
    let z = op % 8;
    if x == 0 {
        match z {
            0 => Instr::Nop,
            1 => if y % 2 == 0 { Instr::Lxi(pair_code(y / 2)) } else { Instr::Dad(pair_code(y / 2)) },
            2 => match y {
                0 => Instr::Stax(RegPair::BC),
                1 => Instr::Ldax(RegPair::BC),
                2 => Instr::Stax(RegPair::DE),
                3 => Instr::Ldax(RegPair::DE),
                4 => Instr::Shld,
                5 => Instr::Lhld,
                6 => Instr::Sta,
                _ => Instr::Lda,
            },
            3 => if y % 2 == 0 { Instr::Inx(pair_code(y / 2)) } else { Instr::Dcx(pair_code(y / 2)) },
            4 => Instr::Inr(reg_code(y)),
            5 => Instr::Dcr(reg_code(y)),
            6 => Instr::Mvi(reg_code(y)),
            _ => match y {
                0 => Instr::Rlc,
                1 => Instr::Rrc,
                2 => Instr::Ral,
                3 => Instr::Rar,
                4 => Instr::Daa,
                5 => Instr::Cma,
                6 => Instr::Stc,
                _ => Instr::Cmc,
            },
        }
    } else if x == 1 {
        if op == 0x76 { Instr::Hlt } else { Instr::Mov(reg_code(y), reg_code(z)) }
    } else if x == 2 {
        Instr::Alu(alu_code(y), reg_code(z))
    } else {
        match z {
            0 => Instr::Rcc(cond_code(y)),
            1 => if y % 2 == 0 {
                Instr::Pop(stack_pair_code(y / 2))
            } else if y == 5 {
                Instr::Pchl
            } else if y == 7 {
                Instr::Sphl
            } else {
                Instr::Ret
            },
            2 => Instr::Jcc(cond_code(y)),
            3 => match y {
                0 | 1 => Instr::Jmp,
                2 => Instr::Out,
                3 => Instr::In,
                4 => Instr::Xthl,
                5 => Instr::Xchg,
                6 => Instr::Di,
                _ => Instr::Ei,
            },
            4 => Instr::Ccc(cond_code(y)),
            5 => if y % 2 == 0 { Instr::Push(stack_pair_code(y / 2)) } else { Instr::Call },
            6 => Instr::AluImm(alu_code(y)),
            _ => Instr::Rst(y),
        }
    }
}

} // verus!
