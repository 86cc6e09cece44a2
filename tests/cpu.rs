use i8080::flags::{CARRY_FLAG, PARITY_FLAG, SIGN_FLAG, ZERO_FLAG};
use i8080::instr::{decode, AluOp, Instr, Reg8, RegPair, StackPair};
use i8080::{Error, Event, InterruptStatus, Memory, CPU};

fn run(cpu: &mut CPU, steps: usize) -> u32 {
    let mut total = 0;
    for _ in 0..steps {
        total += cpu.step().unwrap();
    }
    total
}

fn flag(cpu: &CPU, mask: u8) -> bool {
    cpu.flags() & mask != 0
}

#[test]
fn load_and_add() {
    let mut cpu = CPU::new(&[0x3E, 0x07, 0x06, 0x05, 0x80, 0x76]);
    run(&mut cpu, 4);
    assert_eq!(cpu.a(), 0x0C);
    assert!(!flag(&cpu, ZERO_FLAG));
    assert!(!flag(&cpu, SIGN_FLAG));
    assert!(flag(&cpu, PARITY_FLAG));
    assert!(!flag(&cpu, CARRY_FLAG));
    assert_eq!(cpu.event(), Some(Event::Halt));
    assert_eq!(cpu.event(), None);
}

#[test]
fn call_and_return() {
    // LXI SP,0x4000; CALL 0x0008; HLT; at 0x0008: RET
    let mut cpu = CPU::new(&[0x31, 0x00, 0x40, 0xCD, 0x08, 0x00, 0x76, 0x00, 0xC9]);
    run(&mut cpu, 1);
    assert_eq!(cpu.step().unwrap(), 5);
    assert_eq!(cpu.pc(), 0x0008);
    assert_eq!(cpu.sp(), 0x3FFE);
    assert_eq!(cpu.peek(0x3FFE), 0x06);
    assert_eq!(cpu.peek(0x3FFF), 0x00);
    assert_eq!(cpu.step().unwrap(), 3);
    assert_eq!(cpu.pc(), 0x0006);
    assert_eq!(cpu.sp(), 0x4000);
    run(&mut cpu, 1);
    assert_eq!(cpu.pc(), 0x0007);
    assert_eq!(cpu.event(), Some(Event::Halt));
}

#[test]
fn rotate_through_carry() {
    let mut cpu = CPU::new(&[0x3E, 0x80, 0x17, 0x17]);
    run(&mut cpu, 2);
    assert_eq!(cpu.a(), 0x00);
    assert!(flag(&cpu, CARRY_FLAG));
    run(&mut cpu, 1);
    assert_eq!(cpu.a(), 0x01);
    assert!(!flag(&cpu, CARRY_FLAG));
}

#[test]
fn conditional_branch() {
    let mut taken = CPU::new(&[0x3E, 0x00, 0xFE, 0x00, 0xCA, 0x34, 0x12]);
    run(&mut taken, 2);
    assert!(flag(&taken, ZERO_FLAG));
    assert_eq!(taken.step().unwrap(), 3);
    assert_eq!(taken.pc(), 0x1234);

    let mut not_taken = CPU::new(&[0x3E, 0x00, 0xFE, 0x00, 0xC2, 0x34, 0x12]);
    run(&mut not_taken, 2);
    assert_eq!(not_taken.step().unwrap(), 3);
    assert_eq!(not_taken.pc(), 0x0007);
}

#[test]
fn psw_round_trip() {
    // LXI SP,0x4000; LXI B,0xAA45; PUSH B; POP PSW; LXI B,0; PUSH PSW; POP B
    let mut cpu = CPU::new(&[
        0x31, 0x00, 0x40, 0x01, 0x45, 0xAA, 0xC5, 0xF1, 0x01, 0x00, 0x00, 0xF5, 0xC1,
    ]);
    run(&mut cpu, 4);
    assert_eq!(cpu.a(), 0xAA);
    assert_eq!(cpu.flags(), 0x45);
    run(&mut cpu, 1);
    assert_eq!(cpu.b(), 0x00);
    run(&mut cpu, 2);
    assert_eq!(cpu.b(), 0xAA);
    assert_eq!(cpu.c(), 0x45);
    assert_eq!(cpu.sp(), 0x4000);
}

#[test]
fn interrupt_delivery() {
    let mut program = vec![0u8; 0x1001];
    // LXI SP,0x4000; JMP 0x1000; at 0x1000: DI
    program[..6].copy_from_slice(&[0x31, 0x00, 0x40, 0xC3, 0x00, 0x10]);
    program[0x1000] = 0xF3;
    let mut cpu = CPU::new(&program);
    run(&mut cpu, 2);
    assert_eq!(cpu.pc(), 0x1000);
    let mut enabled = cpu.clone();
    enabled.interrupt(2);
    assert_eq!(enabled.pc(), 0x0010);
    assert_eq!(enabled.sp(), 0x3FFE);
    assert_eq!(enabled.peek(0x3FFE), 0x00);
    assert_eq!(enabled.peek(0x3FFF), 0x10);
    assert_eq!(enabled.interrupt_status(), InterruptStatus::Enabled);

    run(&mut cpu, 1);
    assert_eq!(cpu.interrupt_status(), InterruptStatus::Disabled);
    cpu.interrupt(2);
    assert_eq!(cpu.pc(), 0x1001);
    assert_eq!(cpu.sp(), 0x4000);
    assert_eq!(cpu.peek(0x3FFE), 0x00);
}

#[test]
fn inx_wraps_to_zero() {
    let mut cpu = CPU::new(&[0x01, 0xFF, 0xFF, 0x03]);
    run(&mut cpu, 1);
    let flags = cpu.flags();
    assert_eq!(cpu.step().unwrap(), 1);
    assert_eq!((cpu.b(), cpu.c()), (0x00, 0x00));
    assert_eq!(cpu.flags(), flags);
}

#[test]
fn dcx_wraps_to_ffff() {
    let mut cpu = CPU::new(&[0x37, 0x0B]);
    run(&mut cpu, 1);
    let flags = cpu.flags();
    run(&mut cpu, 1);
    assert_eq!((cpu.b(), cpu.c()), (0xFF, 0xFF));
    assert_eq!(cpu.flags(), flags);
}

#[test]
fn dad_overflow_sets_carry() {
    let mut cpu = CPU::new(&[0x21, 0xFF, 0xFF, 0x01, 0x01, 0x00, 0x09]);
    run(&mut cpu, 2);
    assert_eq!(cpu.step().unwrap(), 3);
    assert_eq!((cpu.h(), cpu.l()), (0x00, 0x00));
    assert!(flag(&cpu, CARRY_FLAG));
}

#[test]
fn inr_of_ff() {
    // STC; MVI B,0xFF; INR B
    let mut cpu = CPU::new(&[0x37, 0x06, 0xFF, 0x04]);
    run(&mut cpu, 3);
    assert_eq!(cpu.b(), 0x00);
    assert!(flag(&cpu, ZERO_FLAG));
    assert!(flag(&cpu, PARITY_FLAG));
    assert!(!flag(&cpu, SIGN_FLAG));
    assert!(flag(&cpu, CARRY_FLAG));
}

#[test]
fn dcr_keeps_carry_and_sets_sign() {
    // MVI C,0x00; DCR C
    let mut cpu = CPU::new(&[0x0E, 0x00, 0x0D]);
    run(&mut cpu, 2);
    assert_eq!(cpu.c(), 0xFF);
    assert!(flag(&cpu, SIGN_FLAG));
    assert!(flag(&cpu, PARITY_FLAG));
    assert!(!flag(&cpu, CARRY_FLAG));
}

#[test]
fn rom_writes_are_ignored() {
    // LXI H,0x0001; MVI M,0x55; STA 0x0002
    let mut cpu = CPU::new(&[0x21, 0x01, 0x00, 0x36, 0x55, 0x32, 0x02, 0x00]);
    run(&mut cpu, 3);
    assert_eq!(cpu.peek(0x0001), 0x01);
    assert_eq!(cpu.peek(0x0002), 0x00);
    cpu.poke(0x0000, 0x99);
    assert_eq!(cpu.peek(0x0000), 0x21);
    cpu.poke(0x2000, 0x99);
    assert_eq!(cpu.peek(0x2000), 0x99);
}

#[test]
fn memory_image_and_reset() {
    let mut mem = Memory::new(&[1, 2, 3]);
    assert_eq!(mem.read(0x0002), 3);
    assert_eq!(mem.read(0x0003), 0);
    mem.write(0x0001, 9);
    assert_eq!(mem.read(0x0001), 2);
    mem.write(0xFFFF, 7);
    assert_eq!(mem.read(0xFFFF), 7);
    mem.reset_ram();
    assert_eq!(mem.read(0xFFFF), 0);
    assert_eq!(mem.read(0x0000), 1);
}

#[test]
fn long_program_is_truncated() {
    let mut program = vec![0xAAu8; 0x2100];
    program[0x1FFF] = 0x42;
    let cpu = CPU::new(&program);
    assert_eq!(cpu.peek(0x1FFF), 0x42);
    assert_eq!(cpu.peek(0x2000), 0x00);
    assert_eq!(cpu.peek(0x20FF), 0x00);
}

#[test]
fn reset_restores_initial_state() {
    // LXI SP,0x3000; MVI A,5; STA 0x2500; DI
    let mut cpu = CPU::new(&[0x31, 0x00, 0x30, 0x3E, 0x05, 0x32, 0x00, 0x25, 0xF3]);
    run(&mut cpu, 4);
    assert_eq!(cpu.peek(0x2500), 5);
    cpu.reset();
    assert_eq!(cpu.pc(), 0);
    assert_eq!(cpu.sp(), 0);
    assert_eq!(cpu.a(), 0);
    assert_eq!(cpu.peek(0x2500), 0);
    assert_eq!(cpu.peek(0x0000), 0x31);
    assert_eq!(cpu.interrupt_status(), InterruptStatus::Enabled);
}

#[test]
fn port_events() {
    // MVI A,0x21; OUT 3; IN 1; HLT
    let mut cpu = CPU::new(&[0x3E, 0x21, 0xD3, 0x03, 0xDB, 0x01, 0x76]);
    run(&mut cpu, 1);
    assert_eq!(cpu.step().unwrap(), 3);
    assert_eq!(cpu.event(), Some(Event::PortWrite(3, 0x21)));
    assert_eq!(cpu.step().unwrap(), 3);
    assert_eq!(cpu.event(), Some(Event::PortRead(1)));
    cpu.port_in(0x5A);
    assert_eq!(cpu.a(), 0x5A);
    assert_eq!(cpu.event(), None);
}

#[test]
fn later_event_overwrites_earlier() {
    let mut cpu = CPU::new(&[0xD3, 0x01, 0x76]);
    run(&mut cpu, 2);
    assert_eq!(cpu.event(), Some(Event::Halt));
}

#[test]
fn add_with_carry_is_nine_bit() {
    // STC; MVI A,0x01; MVI B,0xFF; ADC B
    let mut cpu = CPU::new(&[0x37, 0x3E, 0x01, 0x06, 0xFF, 0x88]);
    run(&mut cpu, 4);
    assert_eq!(cpu.a(), 0x01);
    assert!(flag(&cpu, CARRY_FLAG));
}

#[test]
fn subtract_with_borrow() {
    // STC; MVI A,0x00; SBI 0xFF
    let mut cpu = CPU::new(&[0x37, 0x3E, 0x00, 0xDE, 0xFF]);
    run(&mut cpu, 3);
    assert_eq!(cpu.a(), 0x00);
    assert!(flag(&cpu, CARRY_FLAG));
    assert!(flag(&cpu, ZERO_FLAG));
}

#[test]
fn compare_keeps_accumulator() {
    // MVI A,5; CPI 6
    let mut cpu = CPU::new(&[0x3E, 0x05, 0xFE, 0x06]);
    run(&mut cpu, 2);
    assert_eq!(cpu.a(), 0x05);
    assert!(flag(&cpu, CARRY_FLAG));
    assert!(flag(&cpu, SIGN_FLAG));
    assert!(!flag(&cpu, ZERO_FLAG));
}

#[test]
fn logic_ops_clear_carry() {
    // STC; MVI A,0x0F; ANI 0x03; STC; ORI 0x10; STC; XRA A
    let mut cpu = CPU::new(&[0x37, 0x3E, 0x0F, 0xE6, 0x03, 0x37, 0xF6, 0x10, 0x37, 0xAF]);
    run(&mut cpu, 3);
    assert_eq!(cpu.a(), 0x03);
    assert!(!flag(&cpu, CARRY_FLAG));
    assert!(flag(&cpu, PARITY_FLAG));
    run(&mut cpu, 2);
    assert_eq!(cpu.a(), 0x13);
    assert!(!flag(&cpu, CARRY_FLAG));
    assert!(!flag(&cpu, PARITY_FLAG));
    run(&mut cpu, 2);
    assert_eq!(cpu.a(), 0x00);
    assert!(!flag(&cpu, CARRY_FLAG));
    assert!(flag(&cpu, ZERO_FLAG));
}

#[test]
fn decimal_adjust() {
    // MVI A,0x9B; DAA -> low nibble 0xB > 9: 0xA1; high nibble 0xA > 9: 0x01, carry
    let mut cpu = CPU::new(&[0x3E, 0x9B, 0x27]);
    run(&mut cpu, 2);
    assert_eq!(cpu.a(), 0x01);
    assert!(flag(&cpu, CARRY_FLAG));
    assert!(!flag(&cpu, PARITY_FLAG));
}

#[test]
fn rotates_without_carry_in() {
    // MVI A,0x81; RLC; RRC; RRC; MVI A,0x02; RRC
    let mut cpu = CPU::new(&[0x3E, 0x81, 0x07, 0x0F, 0x0F, 0x3E, 0x02, 0x0F]);
    run(&mut cpu, 2);
    assert_eq!(cpu.a(), 0x03);
    assert!(flag(&cpu, CARRY_FLAG));
    run(&mut cpu, 1);
    assert_eq!(cpu.a(), 0x81);
    assert!(flag(&cpu, CARRY_FLAG));
    run(&mut cpu, 1);
    assert_eq!(cpu.a(), 0xC0);
    assert!(flag(&cpu, CARRY_FLAG));
    run(&mut cpu, 2);
    assert_eq!(cpu.a(), 0x01);
    assert!(!flag(&cpu, CARRY_FLAG));
}

#[test]
fn rotate_right_through_carry() {
    // STC; MVI A,0x02; RAR
    let mut cpu = CPU::new(&[0x37, 0x3E, 0x02, 0x1F]);
    run(&mut cpu, 3);
    assert_eq!(cpu.a(), 0x81);
    assert!(!flag(&cpu, CARRY_FLAG));
}

#[test]
fn complement_twice() {
    // MVI A,0x5C; CMA; CMA
    let mut cpu = CPU::new(&[0x3E, 0x5C, 0x2F, 0x2F]);
    run(&mut cpu, 1);
    let flags = cpu.flags();
    run(&mut cpu, 1);
    assert_eq!(cpu.a(), 0xA3);
    assert_eq!(cpu.flags(), flags);
    run(&mut cpu, 1);
    assert_eq!(cpu.a(), 0x5C);
    assert_eq!(cpu.flags(), flags);
}

#[test]
fn carry_set_and_toggle() {
    let mut cpu = CPU::new(&[0x37, 0x3F, 0x3F]);
    run(&mut cpu, 1);
    assert_eq!(cpu.flags(), CARRY_FLAG);
    run(&mut cpu, 1);
    assert_eq!(cpu.flags(), 0);
    run(&mut cpu, 1);
    assert_eq!(cpu.flags(), CARRY_FLAG);
}

#[test]
fn exchange_twice() {
    // LXI H,0x1234; LXI D,0xABCD; XCHG; XCHG
    let mut cpu = CPU::new(&[0x21, 0x34, 0x12, 0x11, 0xCD, 0xAB, 0xEB, 0xEB]);
    run(&mut cpu, 3);
    assert_eq!((cpu.h(), cpu.l(), cpu.d(), cpu.e()), (0xAB, 0xCD, 0x12, 0x34));
    run(&mut cpu, 1);
    assert_eq!((cpu.h(), cpu.l(), cpu.d(), cpu.e()), (0x12, 0x34, 0xAB, 0xCD));
}

#[test]
fn push_pop_pairs() {
    // LXI SP,0x4000; LXI D,0xBEEF; PUSH D; LXI D,0; POP D
    let mut cpu = CPU::new(&[0x31, 0x00, 0x40, 0x11, 0xEF, 0xBE, 0xD5, 0x11, 0x00, 0x00, 0xD1]);
    run(&mut cpu, 3);
    assert_eq!(cpu.peek(0x3FFF), 0xBE);
    assert_eq!(cpu.peek(0x3FFE), 0xEF);
    run(&mut cpu, 2);
    assert_eq!((cpu.d(), cpu.e()), (0xBE, 0xEF));
    assert_eq!(cpu.sp(), 0x4000);
}

#[test]
fn store_then_load_through_bc() {
    // LXI B,0x2400; MVI A,0x77; STAX B; MVI A,0; LDAX B
    let mut cpu = CPU::new(&[0x01, 0x00, 0x24, 0x3E, 0x77, 0x02, 0x3E, 0x00, 0x0A]);
    run(&mut cpu, 3);
    assert_eq!(cpu.peek(0x2400), 0x77);
    run(&mut cpu, 2);
    assert_eq!(cpu.a(), 0x77);
}

#[test]
fn store_then_load_hl() {
    // LXI H,0x1234; SHLD 0x2100; LXI H,0; LHLD 0x2100
    let mut cpu = CPU::new(&[0x21, 0x34, 0x12, 0x22, 0x00, 0x21, 0x21, 0x00, 0x00, 0x2A, 0x00, 0x21]);
    run(&mut cpu, 2);
    assert_eq!(cpu.peek(0x2100), 0x34);
    assert_eq!(cpu.peek(0x2101), 0x12);
    run(&mut cpu, 1);
    assert_eq!(cpu.step().unwrap(), 5);
    assert_eq!((cpu.h(), cpu.l()), (0x12, 0x34));
}

#[test]
fn exchange_with_stack_top() {
    // LXI SP,0x3000; LXI B,0x5566; PUSH B; LXI H,0x7788; XTHL
    let mut cpu = CPU::new(&[0x31, 0x00, 0x30, 0x01, 0x66, 0x55, 0xC5, 0x21, 0x88, 0x77, 0xE3]);
    run(&mut cpu, 4);
    assert_eq!(cpu.step().unwrap(), 5);
    assert_eq!((cpu.h(), cpu.l()), (0x55, 0x66));
    assert_eq!(cpu.peek(0x2FFF), 0x77);
    assert_eq!(cpu.peek(0x2FFE), 0x88);
}

#[test]
fn jumps_keep_registers() {
    // MVI B,0x11; LXI SP,0x4000; JMP 0x0008; at 8: CALL 0x000C; at 0x0C: RET
    let mut cpu = CPU::new(&[
        0x06, 0x11, 0x31, 0x00, 0x40, 0xC3, 0x08, 0x00, 0xCD, 0x0C, 0x00, 0x00, 0xC9,
    ]);
    run(&mut cpu, 2);
    let flags = cpu.flags();
    run(&mut cpu, 1);
    assert_eq!(cpu.pc(), 0x0008);
    run(&mut cpu, 1);
    assert_eq!(cpu.pc(), 0x000C);
    run(&mut cpu, 1);
    assert_eq!(cpu.pc(), 0x000B);
    assert_eq!(cpu.b(), 0x11);
    assert_eq!(cpu.flags(), flags);
    assert_eq!(cpu.sp(), 0x4000);
}

#[test]
fn conditional_call_and_return_costs() {
    // LXI SP,0x4000; XRA A (Z=1); CNZ 0x0010 (not taken: 3); CZ 0x0010 (taken: 5);
    // at 0x10: RNZ (not taken: 1); RZ (taken: 3)
    let mut program = vec![0u8; 0x12];
    program[..10].copy_from_slice(&[0x31, 0x00, 0x40, 0xAF, 0xC4, 0x10, 0x00, 0xCC, 0x10, 0x00]);
    program[0x10] = 0xC0;
    program[0x11] = 0xC8;
    let mut cpu = CPU::new(&program);
    run(&mut cpu, 2);
    assert_eq!(cpu.step().unwrap(), 3);
    assert_eq!(cpu.pc(), 0x0007);
    assert_eq!(cpu.step().unwrap(), 5);
    assert_eq!(cpu.pc(), 0x0010);
    assert_eq!(cpu.step().unwrap(), 1);
    assert_eq!(cpu.step().unwrap(), 3);
    assert_eq!(cpu.pc(), 0x000A);
}

#[test]
fn restart_pushes_return_address() {
    // LXI SP,0x4000; RST 5
    let mut cpu = CPU::new(&[0x31, 0x00, 0x40, 0xEF]);
    run(&mut cpu, 1);
    assert_eq!(cpu.step().unwrap(), 5);
    assert_eq!(cpu.pc(), 0x0028);
    assert_eq!(cpu.peek(0x3FFE), 0x04);
}

#[test]
fn pc_and_sp_wrap() {
    // LXI SP,0x0001; INX SP; DCX SP; DCX SP; DCX SP
    let mut cpu = CPU::new(&[0x31, 0x01, 0x00, 0x33, 0x3B, 0x3B, 0x3B]);
    run(&mut cpu, 2);
    assert_eq!(cpu.sp(), 0x0002);
    run(&mut cpu, 3);
    assert_eq!(cpu.sp(), 0xFFFF);
    // A run of NOPs through RAM wraps the program counter back to zero.
    let mut nops = CPU::new(&[0xC3, 0xFF, 0xFF]);
    run(&mut nops, 2);
    assert_eq!(nops.pc(), 0x0000);
}

#[test]
fn cycle_counts() {
    // MOV B,C; MOV B,M; MVI M,1; LXI H,0x2000; INR M; SPHL; PCHL
    let mut cpu = CPU::new(&[0x41, 0x46, 0x21, 0x00, 0x20, 0x36, 0x01, 0x34, 0x77, 0xF9]);
    assert_eq!(cpu.step().unwrap(), 1);
    assert_eq!(cpu.step().unwrap(), 2);
    assert_eq!(cpu.step().unwrap(), 3);
    assert_eq!(cpu.step().unwrap(), 3);
    assert_eq!(cpu.peek(0x2000), 0x01);
    assert_eq!(cpu.step().unwrap(), 3);
    assert_eq!(cpu.peek(0x2000), 0x02);
    assert_eq!(cpu.step().unwrap(), 2);
    assert_eq!(cpu.step().unwrap(), 1);
    assert_eq!(cpu.sp(), 0x2000);
}

#[test]
fn undocumented_aliases() {
    for op in [0x08u8, 0x10, 0x18, 0x20, 0x28, 0x30, 0x38] {
        assert_eq!(decode(op), Instr::Nop);
    }
    assert_eq!(decode(0xCB), Instr::Jmp);
    assert_eq!(decode(0xD9), Instr::Ret);
    for op in [0xCDu8, 0xDD, 0xED, 0xFD] {
        assert_eq!(decode(op), Instr::Call);
    }
    assert_eq!(decode(0x76), Instr::Hlt);
    assert_eq!(decode(0x7E), Instr::Mov(Reg8::A, Reg8::M));
    assert_eq!(decode(0x9E), Instr::Alu(AluOp::Sbb, Reg8::M));
    assert_eq!(decode(0x39), Instr::Dad(RegPair::SP));
    assert_eq!(decode(0xF5), Instr::Push(StackPair::PSW));
    assert_eq!(decode(0xFF), Instr::Rst(7));
}

#[test]
fn even_parity_counts_bits() {
    assert!(i8080::flags::even_parity(0x00));
    assert!(i8080::flags::even_parity(0x0C));
    assert!(!i8080::flags::even_parity(0x01));
    assert!(!i8080::flags::even_parity(0xFE));
    assert!(i8080::flags::even_parity(0xFF));
}

#[test]
fn error_values() {
    let e = Error::InvalidReadPort { port: 4 };
    assert_ne!(e, Error::InvalidWritePort { port: 4 });
    assert_eq!(Error::UnimplementedOpcode { opcode: 0xDD }, Error::UnimplementedOpcode { opcode: 0xDD });
}
