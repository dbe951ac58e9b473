use rustboy::cartridge::Cartridge;
use rustboy::cpu::CPU;
use rustboy::registers::Flag;

/// A CPU whose program counter points at `program`, stored in work RAM.
fn cpu_with_program(program: &[u8]) -> CPU {
    let mut cpu = CPU::new();
    for (i, b) in program.iter().enumerate() {
        cpu.mmu.write_byte(0xC000 + i as u16, *b);
    }
    cpu.registers.pc = 0xC000;
    cpu.registers.sp = 0xFFFE;
    cpu
}

fn run(cpu: &mut CPU, steps: usize) {
    for _ in 0..steps {
        assert!(cpu.can_step());
        cpu.step();
    }
}

#[test]
fn first_boot_instruction_sets_the_stack_pointer() {
    let mut cpu = CPU::new();
    assert!(cpu.can_step());
    cpu.step();
    assert_eq!(cpu.registers.sp, 0xFFFE);
    assert_eq!(cpu.registers.pc, 3);
}

#[test]
fn boot_rom_without_cartridge_stops_at_the_logo_read() {
    let mut cpu = CPU::new();
    let mut steps = 0;
    while cpu.can_step() {
        cpu.step();
        steps += 1;
        assert!(steps < 100_000);
    }
    // LD A,(DE) with DE = 0x0104 reads the cartridge, and there is none
    assert_eq!(cpu.registers.pc, 0x0027);
    assert_eq!(cpu.registers.de(), 0x0104);
    assert_eq!(cpu.registers.hl(), 0x8010);
    // the sound registers written on the way: 0xFF26 = 0x80, and the
    // sixteen-bit stores through 0xFF00 + C and 0xFF00 + n, each of which
    // writes a zero high byte first
    assert_eq!(cpu.mmu.read_byte(0xFF26), 0x80);
    assert_eq!(cpu.mmu.read_byte(0xFF11), 0x00);
    assert_eq!(cpu.mmu.read_byte(0xFF12), 0x00);
    assert_eq!(cpu.mmu.read_byte(0xFF13), 0xF3);
    assert_eq!(cpu.mmu.read_byte(0xFF25), 0xF3);
    assert_eq!(cpu.mmu.read_byte(0xFF24), 0x77);
    assert_eq!(cpu.mmu.read_byte(0xFF47), 0x00);
    assert_eq!(cpu.mmu.read_byte(0xFF48), 0xFC);
    // the video RAM loop ran down to 0x8000
    assert_eq!(cpu.mmu.read_byte(0x8000), 0x00);
}

#[test]
fn boot_rom_with_cartridge_runs_into_the_logo_subroutine() {
    let mut rom = vec![0u8; 0x8000];
    rom[0x104] = 0xCE;
    rom[0x105] = 0xED;
    let mut cpu = CPU::new();
    cpu.mmu.load_cartridge(Cartridge::from_rom(rom));
    let mut steps = 0;
    while cpu.can_step() {
        cpu.step();
        steps += 1;
        assert!(steps < 100_000);
    }
    // 0x17 (RLA) at 0x009B is not implemented
    assert_eq!(cpu.registers.pc, 0x009B);
    assert_eq!(cpu.registers.sp, 0xFFFA);
    // the return address 0x002B and then BC = 0x04CE on the stack
    assert_eq!(cpu.mmu.read_byte(0xFFFE), 0x00);
    assert_eq!(cpu.mmu.read_byte(0xFFFD), 0x2B);
    assert_eq!(cpu.mmu.read_byte(0xFFFC), 0x04);
    assert_eq!(cpu.mmu.read_byte(0xFFFB), 0xCE);
    // RL C rotated 0xCE into 0x9D with the carry out of bit 7
    assert_eq!(cpu.registers.c, 0x9D);
    assert!(cpu.registers.get_flag(Flag::C));
}

#[test]
fn immediate_words_are_little_endian() {
    let mut cpu = cpu_with_program(&[0x01, 0x34, 0x12, 0x11, 0x78, 0x56, 0x21, 0xBC, 0x9A, 0x31, 0xF0, 0xDE]);
    run(&mut cpu, 4);
    assert_eq!(cpu.registers.bc(), 0x1234);
    assert_eq!(cpu.registers.de(), 0x5678);
    assert_eq!(cpu.registers.hl(), 0x9ABC);
    assert_eq!(cpu.registers.sp, 0xDEF0);
    assert_eq!(cpu.registers.pc, 0xC00C);
}

#[test]
fn immediate_byte_loads() {
    let mut cpu = cpu_with_program(&[
        0x06, 1, 0x0E, 2, 0x16, 3, 0x1E, 4, 0x26, 5, 0x2E, 6, 0x3E, 7,
    ]);
    run(&mut cpu, 7);
    let r = &cpu.registers;
    assert_eq!((r.b, r.c, r.d, r.e, r.h, r.l, r.a), (1, 2, 3, 4, 5, 6, 7));
}

#[test]
fn call_pushes_the_return_address_high_byte_first() {
    let mut cpu = cpu_with_program(&[0xCD, 0x34, 0x12]);
    run(&mut cpu, 1);
    assert_eq!(cpu.registers.pc, 0x1234);
    assert_eq!(cpu.registers.sp, 0xFFFC);
    assert_eq!(cpu.mmu.read_byte(0xFFFE), 0xC0);
    assert_eq!(cpu.mmu.read_byte(0xFFFD), 0x03);
}

#[test]
fn push_bc_stores_b_then_c() {
    let mut cpu = cpu_with_program(&[0x01, 0xCD, 0xAB, 0xC5]);
    run(&mut cpu, 2);
    assert_eq!(cpu.registers.sp, 0xFFFC);
    assert_eq!(cpu.mmu.read_byte(0xFFFE), 0xAB);
    assert_eq!(cpu.mmu.read_byte(0xFFFD), 0xCD);
}

#[test]
fn push_with_stack_pointer_zero_cannot_step() {
    let mut cpu = cpu_with_program(&[0xC5]);
    cpu.registers.sp = 0;
    assert!(!cpu.can_step());
}

#[test]
fn relative_jumps_follow_the_flag() {
    // JR NZ,+2 with Z clear jumps over two bytes
    let mut cpu = cpu_with_program(&[0x20, 0x02]);
    run(&mut cpu, 1);
    assert_eq!(cpu.registers.pc, 0xC004);
    // JR Z,+2 with Z clear falls through
    let mut cpu = cpu_with_program(&[0x28, 0x02]);
    run(&mut cpu, 1);
    assert_eq!(cpu.registers.pc, 0xC002);
    // JR NC,-2 jumps back to itself
    let mut cpu = cpu_with_program(&[0x30, 0xFE]);
    run(&mut cpu, 1);
    assert_eq!(cpu.registers.pc, 0xC000);
    // JR C,-128 with C set
    let mut cpu = cpu_with_program(&[0x38, 0x80]);
    cpu.registers.set_flag(Flag::C);
    run(&mut cpu, 1);
    assert_eq!(cpu.registers.pc, 0xC002 - 128);
}

#[test]
fn xor_a_clears_a_and_leaves_only_zero_flag() {
    let mut cpu = cpu_with_program(&[0xAF]);
    cpu.registers.a = 0x5A;
    cpu.registers.f = 0x70;
    run(&mut cpu, 1);
    assert_eq!(cpu.registers.a, 0);
    assert_eq!(cpu.registers.f, 0x80);
}

#[test]
fn xor_with_other_registers() {
    let mut cpu = cpu_with_program(&[0xA8, 0xA9, 0xAA, 0xAB, 0xAC, 0xAD]);
    cpu.registers.a = 0xFF;
    cpu.registers.b = 0x01;
    cpu.registers.c = 0x02;
    cpu.registers.d = 0x04;
    cpu.registers.e = 0x08;
    cpu.registers.h = 0x10;
    cpu.registers.l = 0x20;
    run(&mut cpu, 6);
    assert_eq!(cpu.registers.a, 0xC0);
    assert_eq!(cpu.registers.f, 0);
}

#[test]
fn load_and_store_through_pointers() {
    let mut cpu = cpu_with_program(&[0x1A, 0x4F, 0x77, 0x32]);
    cpu.mmu.write_byte(0xD000, 0x99);
    cpu.registers.set_de(0xD000);
    cpu.registers.set_hl(0xD100);
    run(&mut cpu, 4);
    assert_eq!(cpu.registers.a, 0x99);
    assert_eq!(cpu.registers.c, 0x99);
    assert_eq!(cpu.mmu.read_byte(0xD100), 0x99);
    assert_eq!(cpu.registers.hl(), 0xD0FF);
}

#[test]
fn decrements_and_increment() {
    let mut cpu = cpu_with_program(&[0x05, 0x0B, 0x1B, 0x2B, 0x3B, 0x0C]);
    cpu.registers.b = 1;
    cpu.registers.set_de(0x0100);
    cpu.registers.set_hl(0x0001);
    cpu.registers.c = 0x10;
    // BC must not be zero when 0x0B runs: B is zero then but C is not
    run(&mut cpu, 6);
    assert_eq!(cpu.registers.b, 0);
    assert_eq!(cpu.registers.c, 0x10);
    assert_eq!(cpu.registers.de(), 0x00FF);
    assert_eq!(cpu.registers.hl(), 0);
    assert_eq!(cpu.registers.sp, 0xFFFD);
    assert!(cpu.registers.get_flag(Flag::H));
}

#[test]
fn decrement_of_zero_cannot_step() {
    let cpu = cpu_with_program(&[0x05]);
    assert!(!cpu.can_step());
    let cpu = cpu_with_program(&[0x2B]);
    assert!(!cpu.can_step());
}

#[test]
fn rotate_left_brings_bit_seven_round() {
    let mut cpu = cpu_with_program(&[0xCB, 0x10, 0xCB, 0x17]);
    cpu.registers.b = 0x80;
    cpu.registers.a = 0x00;
    run(&mut cpu, 1);
    assert_eq!(cpu.registers.b, 0x01);
    assert!(cpu.registers.get_flag(Flag::C));
    assert!(!cpu.registers.get_flag(Flag::Z));
    run(&mut cpu, 1);
    assert_eq!(cpu.registers.a, 0x00);
    assert!(cpu.registers.get_flag(Flag::Z));
    assert!(!cpu.registers.get_flag(Flag::C));
}

#[test]
fn rotating_eight_times_gives_the_byte_back() {
    let mut program = Vec::new();
    for _ in 0..8 {
        program.push(0xCB);
        program.push(0x11);
    }
    let mut cpu = cpu_with_program(&program);
    cpu.registers.c = 0xA5;
    run(&mut cpu, 7);
    assert_ne!(cpu.registers.c, 0xA5);
    run(&mut cpu, 1);
    assert_eq!(cpu.registers.c, 0xA5);
}

#[test]
fn rotate_the_byte_at_hl() {
    let mut cpu = cpu_with_program(&[0xCB, 0x16]);
    cpu.registers.set_hl(0xD000);
    cpu.mmu.write_byte(0xD000, 0x81);
    run(&mut cpu, 1);
    assert_eq!(cpu.mmu.read_byte(0xD000), 0x03);
    assert!(cpu.registers.get_flag(Flag::C));
}

#[test]
fn bit_test_sets_zero_when_the_bit_is_clear() {
    let mut cpu = cpu_with_program(&[0xCB, 0x7C, 0xCB, 0x47]);
    cpu.registers.h = 0x80;
    cpu.registers.a = 0xFE;
    cpu.registers.set_flag(Flag::C);
    run(&mut cpu, 1);
    assert!(!cpu.registers.get_flag(Flag::Z));
    assert!(!cpu.registers.get_flag(Flag::N));
    assert!(cpu.registers.get_flag(Flag::H));
    assert!(cpu.registers.get_flag(Flag::C));
    run(&mut cpu, 1);
    assert!(cpu.registers.get_flag(Flag::Z));
}

#[test]
fn unimplemented_prefixed_opcodes_cannot_step() {
    let cpu = cpu_with_program(&[0xCB, 0x46]);
    assert!(!cpu.can_step());
    let cpu = cpu_with_program(&[0xCB, 0x00]);
    assert!(!cpu.can_step());
}

#[test]
fn unimplemented_opcodes_cannot_step() {
    for op in [0x00u8, 0x17, 0xAE, 0xC3, 0xFF] {
        let cpu = cpu_with_program(&[op]);
        assert!(!cpu.can_step());
    }
}

#[test]
fn stores_through_ff00_write_a_sixteen_bit_value() {
    let mut cpu = cpu_with_program(&[0xE0, 0x40, 0xE2]);
    cpu.registers.a = 0x91;
    cpu.registers.c = 0x10;
    run(&mut cpu, 2);
    assert_eq!(cpu.mmu.read_byte(0xFF40), 0x00);
    assert_eq!(cpu.mmu.read_byte(0xFF41), 0x91);
    assert_eq!(cpu.mmu.read_byte(0xFF10), 0x00);
    assert_eq!(cpu.mmu.read_byte(0xFF11), 0x91);
}

#[test]
fn store_through_ff00_at_the_last_address_cannot_step() {
    let cpu = cpu_with_program(&[0xE0, 0xFF]);
    assert!(!cpu.can_step());
    let mut cpu = cpu_with_program(&[0xE2]);
    cpu.registers.c = 0xFF;
    assert!(!cpu.can_step());
}

#[test]
fn fetch_at_the_last_address_cannot_step() {
    let mut cpu = CPU::new();
    cpu.registers.pc = 0xFFFF;
    assert!(!cpu.can_step());
}

#[test]
fn call_push_and_store_with_decrement_keep_the_flags() {
    for f in [0x00u8, 0xF0, 0x50, 0xA0] {
        let mut cpu = cpu_with_program(&[0xCD, 0x03, 0xC0, 0xC5, 0x32]);
        cpu.registers.f = f;
        cpu.registers.set_hl(0xD000);
        run(&mut cpu, 1);
        assert_eq!(cpu.registers.f, f);
        run(&mut cpu, 1);
        assert_eq!(cpu.registers.f, f);
        assert_eq!(cpu.registers.sp, 0xFFFA);
        run(&mut cpu, 1);
        assert_eq!(cpu.registers.f, f);
        assert_eq!(cpu.registers.hl(), 0xCFFF);
    }
}

#[test]
fn boot_rom_call_leaves_f_as_it_was() {
    let mut cpu = CPU::new();
    cpu.registers.pc = 0x0028;
    cpu.registers.sp = 0xFFFE;
    run(&mut cpu, 1);
    assert_eq!(cpu.registers.pc, 0x0095);
    assert_eq!(cpu.registers.sp, 0xFFFC);
    assert_eq!(cpu.mmu.read_byte(0xFFFE), 0x00);
    assert_eq!(cpu.mmu.read_byte(0xFFFD), 0x2B);
    assert_eq!(cpu.registers.f, 0x00);
}

#[test]
fn accessors_read_and_replace_the_machine_state() {
    let mut cpu = CPU::new();
    cpu.write_byte(0xC000, 0xAF);
    let mut r = rustboy::registers::Registers::new();
    r.pc = 0xC000;
    r.a = 5;
    cpu.set_registers(r);
    assert_eq!(cpu.registers().pc, 0xC000);
    assert_eq!(cpu.mmu().read_byte(0xC000), 0xAF);
    cpu.step();
    assert_eq!(cpu.registers().a, 0);
    cpu.load_cartridge(Cartridge::from_rom(vec![7u8; 0x8000]));
    assert_eq!(cpu.mmu().read_byte(0x0100), 7);
}
