//! The CPU: it fetches an opcode at the program counter and executes it
//! against the registers and the memory map.  Only the instructions that
//! the boot ROM needs are implemented; any other opcode stops the machine.
use vstd::prelude::*;

use crate::cartridge::Cartridge;
use crate::mmu::{MemView, MMU};
use crate::registers::{
    flag_byte_cleared, flag_byte_set, flag_is_set, high_byte, lemma_pair_bits, low_byte, word_of,
    ByteRegister, Flag, Registers, WordRegister,
};

verus! {

#[derive(Debug)]
struct Timer {
    m: u8,
    t: u8,
}

#[derive(Debug)]
pub struct CPU {
    pub registers: Registers,
    pub mmu: MMU,
    timer: Timer,
}

/// The state of the whole machine: registers, memory and the timer.
pub struct CpuView {
    pub regs: Registers,
    pub mem: MemView,
    pub timer_m: u8,
    pub timer_t: u8,
}

/// The byte register that the low three bits of a prefixed opcode name;
/// code 6 names the byte at HL instead and has no register.
pub open spec fn register_code(code: int) -> ByteRegister {
    if code == 0 {
        ByteRegister::B
    } else if code == 1 {
        ByteRegister::C
    } else if code == 2 {
        ByteRegister::D
    } else if code == 3 {
        ByteRegister::E
    } else if code == 4 {
        ByteRegister::H
    } else if code == 5 {
        ByteRegister::L
    } else {
        ByteRegister::A
    }
}

/// A byte read as a two's complement signed number.
pub open spec fn signed_offset(offset: u8) -> int {
    if offset < 128 {
        offset as int
    } else {
        offset as int - 256
    }
}

/// The program counter after a relative jump by a signed offset, modulo
/// the sixteen-bit address space.
pub open spec fn jump_target(pc: u16, offset: u8) -> u16 {
    ((pc as int + signed_offset(offset)) % 0x10000) as u16
}

/// A byte rotated one bit to the left: bit 7 comes round to bit 0.
pub open spec fn rotate_left(value: u8) -> u8 {
    (value << 1u8) | (value >> 7u8)
}

impl CpuView {
    pub open spec fn with_regs(self, regs: Registers) -> CpuView {
        CpuView { regs, ..self }
    }

    pub open spec fn with_mem(self, mem: MemView) -> CpuView {
        CpuView { mem, ..self }
    }

    /// The machine at power on.
    pub open spec fn power_on() -> CpuView {
        CpuView { regs: Registers::zeroed(), mem: MemView::power_on(), timer_m: 0, timer_t: 0 }
    }

    /// Reads the byte at the program counter and moves past it; fails when
    /// the byte cannot be read or the program counter would wrap.
    pub open spec fn fetch_byte(self) -> Option<(CpuView, u8)> {
        let pc = self.regs.pc;
        if self.mem.can_read(pc) && pc < 0xFFFF {
            Some((self.with_regs(Registers { pc: (pc + 1) as u16, ..self.regs }), self.mem.read(pc)))
        } else {
            None
        }
    }

    /// Reads a sixteen-bit immediate: the low byte comes first.
    pub open spec fn fetch_word(self) -> Option<(CpuView, u16)> {
        match self.fetch_byte() {
            Some((s1, lo)) => match s1.fetch_byte() {
                Some((s2, hi)) => Some((s2, word_of(hi, lo))),
                None => None,
            },
            None => None,
        }
    }

    /// XOR into A: A becomes A ^ value, every flag is cleared and Z is set
    /// when the result is zero.
    pub open spec fn after_xor(self, value: u8) -> CpuView {
        let x = self.regs.a ^ value;
        let r = Registers { a: x, f: 0, ..self.regs };
        self.with_regs(
            if x == 0 {
                r.flag_set(Flag::Z)
            } else {
                r
            },
        )
    }

    /// Relative jump by a signed offset when `flag` reads as `condition`.
    pub open spec fn after_jrcc(self, flag: Flag, condition: bool, offset: u8) -> CpuView {
        if flag_is_set(self.regs.f, flag) == condition {
            self.with_regs(Registers { pc: jump_target(self.regs.pc, offset), ..self.regs })
        } else {
            self
        }
    }

    /// Pushes a byte: it is stored at SP, then SP, which must not be zero,
    /// is decremented.  A push is no math operation: the flags are kept.
    pub open spec fn push_b(self, value: u8) -> Option<CpuView> {
        let sp = self.regs.sp;
        if sp != 0 && self.mem.can_write(sp) {
            Some(
                CpuView {
                    regs: Registers { sp: (sp - 1) as u16, ..self.regs },
                    mem: self.mem.write(sp, value),
                    ..self
                },
            )
        } else {
            None
        }
    }

    /// Pushes a sixteen-bit value: the high byte first.
    pub open spec fn push_w(self, value: u16) -> Option<CpuView> {
        match self.push_b(high_byte(value)) {
            Some(s1) => s1.push_b(low_byte(value)),
            None => None,
        }
    }

    /// Calls `address`: pushes the program counter and jumps.
    pub open spec fn call(self, address: u16) -> Option<CpuView> {
        match self.push_w(self.regs.pc) {
            Some(s1) => Some(s1.with_regs(Registers { pc: address, ..s1.regs })),
            None => None,
        }
    }

    /// Tests bit `bit` of `value`: Z is set when the bit is zero and
    /// cleared when it is one, N is cleared, H is set.
    pub open spec fn after_bit(self, value: u8, bit: u8) -> CpuView {
        let r1 = if value & (1u8 << bit) == 0 {
            self.regs.flag_set(Flag::Z)
        } else {
            self.regs.flag_cleared(Flag::Z)
        };
        self.with_regs(r1.flag_cleared(Flag::N).flag_set(Flag::H))
    }

    /// The flags after rotating `value` left: Z tells whether the result is
    /// zero, N and H are cleared and C receives the old bit 7.
    pub open spec fn after_rotate(self, value: u8) -> CpuView {
        let result = rotate_left(value);
        let r1 = if result == 0 {
            self.regs.flag_set(Flag::Z)
        } else {
            self.regs.flag_cleared(Flag::Z)
        };
        let r2 = r1.flag_cleared(Flag::N).flag_cleared(Flag::H);
        self.with_regs(
            if value >= 128 {
                r2.flag_set(Flag::C)
            } else {
                r2.flag_cleared(Flag::C)
            },
        )
    }

    /// Loads an immediate byte into a register.
    pub open spec fn load_imm(self, r: ByteRegister) -> Option<CpuView> {
        match self.fetch_byte() {
            Some((s1, v)) => Some(s1.with_regs(s1.regs.with_byte(r, v))),
            None => None,
        }
    }

    /// Loads an immediate sixteen-bit value into a register.
    pub open spec fn load_imm_word(self, r: WordRegister) -> Option<CpuView> {
        match self.fetch_word() {
            Some((s1, v)) => Some(s1.with_regs(s1.regs.with_word(r, v))),
            None => None,
        }
    }

    /// Relative jump by an immediate offset when `flag` reads as
    /// `condition`.
    pub open spec fn jump_rel(self, flag: Flag, condition: bool) -> Option<CpuView> {
        match self.fetch_byte() {
            Some((s1, offset)) => Some(s1.after_jrcc(flag, condition, offset)),
            None => None,
        }
    }

    /// Decrements a byte register, which must not be zero.
    pub open spec fn dec_byte(self, r: ByteRegister) -> Option<CpuView> {
        if self.regs.byte(r) != 0 {
            Some(self.with_regs(self.regs.after_dec_b(r)))
        } else {
            None
        }
    }

    /// Decrements a sixteen-bit register, which must not be zero.
    pub open spec fn dec_word(self, r: WordRegister) -> Option<CpuView> {
        if self.regs.word(r) != 0 {
            Some(self.with_regs(self.regs.after_dec_w(r)))
        } else {
            None
        }
    }

    /// Writes A, widened to sixteen bits, at 0xFF00 plus `offset`.
    pub open spec fn store_a_high(self, offset: u8) -> Option<CpuView> {
        let address = (0xFF00 + offset) as u16;
        if self.mem.can_write_word(address) {
            Some(self.with_mem(self.mem.write_word(address, self.regs.a as u16)))
        } else {
            None
        }
    }

    /// Rotates a byte register left.
    pub open spec fn rotate_register(self, r: ByteRegister) -> CpuView {
        let s1 = self.after_rotate(self.regs.byte(r));
        s1.with_regs(s1.regs.with_byte(r, rotate_left(self.regs.byte(r))))
    }

    /// Executes the prefixed opcode `op` (the prefix and `op` have been
    /// fetched): rotations (0x10 to 0x17) and bit tests (0x40 to 0x7F), not
    /// on the byte at HL for the bit tests.
    pub open spec fn exec_prefixed(self, op: u8) -> Option<CpuView> {
        let code = op as int % 8;
        if 0x10 <= op <= 0x17 {
            if code == 6 {
                let hl = self.regs.word(WordRegister::HL);
                if self.mem.can_read(hl) && self.mem.can_write(hl) {
                    let data = self.mem.read(hl);
                    let s1 = self.after_rotate(data);
                    Some(s1.with_mem(s1.mem.write(hl, rotate_left(data))))
                } else {
                    None
                }
            } else {
                Some(self.rotate_register(register_code(code)))
            }
        } else if 0x40 <= op <= 0x7F && code != 6 {
            Some(self.after_bit(self.regs.byte(register_code(code)), ((op - 0x40) / 8) as u8))
        } else {
            None
        }
    }

    /// Fetches a prefixed opcode and executes it.
    pub open spec fn prefixed(self) -> Option<CpuView> {
        match self.fetch_byte() {
            Some((s1, op)) => s1.exec_prefixed(op),
            None => None,
        }
    }

    /// Executes the opcode `op`, which has been fetched.  `None` for the
    /// opcodes that are not implemented and wherever a memory access or a
    /// register would fail.
    pub open spec fn exec_op(self, op: u8) -> Option<CpuView> {
        let regs = self.regs;
        let hl = regs.word(WordRegister::HL);
        let de = regs.word(WordRegister::DE);
        if op == 0x06 {
            self.load_imm(ByteRegister::B)
        } else if op == 0x0E {
            self.load_imm(ByteRegister::C)
        } else if op == 0x16 {
            self.load_imm(ByteRegister::D)
        } else if op == 0x1E {
            self.load_imm(ByteRegister::E)
        } else if op == 0x26 {
            self.load_imm(ByteRegister::H)
        } else if op == 0x2E {
            self.load_imm(ByteRegister::L)
        } else if op == 0x3E {
            self.load_imm(ByteRegister::A)
        } else if op == 0x20 {
            self.jump_rel(Flag::Z, false)
        } else if op == 0x28 {
            self.jump_rel(Flag::Z, true)
        } else if op == 0x30 {
            self.jump_rel(Flag::C, false)
        } else if op == 0x38 {
            self.jump_rel(Flag::C, true)
        } else if op == 0x01 {
            self.load_imm_word(WordRegister::BC)
        } else if op == 0x11 {
            self.load_imm_word(WordRegister::DE)
        } else if op == 0x21 {
            self.load_imm_word(WordRegister::HL)
        } else if op == 0x31 {
            self.load_imm_word(WordRegister::SP)
        } else if op == 0x32 {
            // store A at HL, then decrement HL, which must not be zero; no
            // math operation, so the flags are kept
            if self.mem.can_write(hl) && hl != 0 {
                Some(
                    CpuView {
                        regs: regs.with_word(WordRegister::HL, (hl - 1) as u16),
                        mem: self.mem.write(hl, regs.a),
                        ..self
                    },
                )
            } else {
                None
            }
        } else if op == 0x1A {
            // load A from DE
            if self.mem.can_read(de) {
                Some(self.with_regs(Registers { a: self.mem.read(de), ..regs }))
            } else {
                None
            }
        } else if op == 0x4F {
            Some(self.with_regs(Registers { c: regs.a, ..regs }))
        } else if op == 0x77 {
            // store A at HL
            if self.mem.can_write(hl) {
                Some(self.with_mem(self.mem.write(hl, regs.a)))
            } else {
                None
            }
        } else if op == 0x05 {
            self.dec_byte(ByteRegister::B)
        } else if op == 0x0B {
            self.dec_word(WordRegister::BC)
        } else if op == 0x1B {
            self.dec_word(WordRegister::DE)
        } else if op == 0x2B {
            self.dec_word(WordRegister::HL)
        } else if op == 0x3B {
            self.dec_word(WordRegister::SP)
        } else if op == 0x0C {
            Some(self.with_regs(regs.after_inc_b(ByteRegister::C)))
        } else if op == 0xC5 {
            self.push_w(regs.word(WordRegister::BC))
        } else if op == 0xCD {
            match self.fetch_word() {
                Some((s1, address)) => s1.call(address),
                None => None,
            }
        } else if 0xA8 <= op <= 0xAF && op != 0xAE {
            Some(self.after_xor(regs.byte(register_code(op as int - 0xA8))))
        } else if op == 0xCB {
            self.prefixed()
        } else if op == 0xE0 {
            match self.fetch_byte() {
                Some((s1, offset)) => s1.store_a_high(offset),
                None => None,
            }
        } else if op == 0xE2 {
            self.store_a_high(regs.c)
        } else {
            None
        }
    }

    /// One step of the machine: fetch an opcode and execute it.  `None`
    /// exactly where the step cannot complete.
    pub open spec fn step(self) -> Option<CpuView> {
        match self.fetch_byte() {
            Some((s1, op)) => s1.exec_op(op),
            None => None,
        }
    }
}

impl View for CPU {
    type V = CpuView;

    closed spec fn view(&self) -> CpuView {
        CpuView {
            regs: self.registers,
            mem: self.mmu@,
            timer_m: self.timer.m,
            timer_t: self.timer.t,
        }
    }
}

impl CPU {
    /// The memory of every machine has the hardware's region sizes; the
    /// laws about `MemView` apply to every `CPU`.
    pub proof fn lemma_view_wf(&self)
        ensures
            self@.mem.wf(),
    {
        self.mmu.lemma_view_wf();
    }

    /// The machine at power on.
    pub fn new() -> (r: Self)
        ensures
            r@ == CpuView::power_on(),
    {
        Self { registers: Registers::new(), mmu: MMU::new(), timer: Timer { m: 0, t: 0 } }
    }

    /// The registers.
    pub fn registers(&self) -> (r: &Registers)
        ensures
            *r == self@.regs,
    {
        &self.registers
    }

    /// The memory map.
    pub fn mmu(&self) -> (r: &MMU)
        ensures
            r@ == self@.mem,
    {
        &self.mmu
    }

    /// Replaces the registers; memory and timer are kept.
    pub fn set_registers(&mut self, registers: Registers)
        ensures
            final(self)@ == old(self)@.with_regs(registers),
    {
        self.registers = registers;
    }

    /// Puts a cartridge in the slot; nothing else changes.
    pub fn load_cartridge(&mut self, cartridge: Cartridge)
        ensures
            final(self)@ == old(self)@.with_mem(MemView { cart: cartridge@, ..old(self)@.mem }),
    {
        self.mmu.load_cartridge(cartridge);
    }

    /// Writes `value` to `address` of the memory map, which must be
    /// writable; nothing else changes.
    pub fn write_byte(&mut self, address: u16, value: u8)
        requires
            old(self)@.mem.can_write(address),
        ensures
            final(self)@ == old(self)@.with_mem(old(self)@.mem.write(address, value)),
    {
        self.mmu.write_byte(address, value);
    }

    fn fetch_byte(&mut self) -> (b: u8)
        requires
            old(self)@.fetch_byte() is Some,
        ensures
            old(self)@.fetch_byte() == Some((final(self)@, b)),
    {
        let b = self.mmu.read_byte(self.registers.pc);
        self.registers.pc += 1;
        return b;
    }

    fn fetch_word(&mut self) -> (w: u16)
        requires
            old(self)@.fetch_word() is Some,
        ensures
            old(self)@.fetch_word() == Some((final(self)@, w)),
    {
        let lo = self.fetch_byte() as u16;
        let hi = self.fetch_byte() as u16;
        proof {
            lemma_pair_bits(hi as u8, lo as u8);
        }
        return (hi << 8) | lo;
    }

    fn xor(&mut self, value: u8)
        ensures
            final(self)@ == old(self)@.after_xor(value),
    {
        let xor = self.registers.a ^ value;
        self.registers.a = xor;
        self.registers.clear_flags();
        if xor == 0 {
            self.registers.set_flag(Flag::Z);
        }
    }

    fn jrcc(&mut self, flag: Flag, condition: bool, offset: u8)
        ensures
            final(self)@ == old(self)@.after_jrcc(flag, condition, offset),
    {
        proof {
            lemma_signed_offset(self.registers.pc, offset);
        }
        let flag = self.registers.get_flag(flag);
        if flag == condition {
            self.registers.pc = self.registers.pc.wrapping_add_signed(offset as i8 as i16);
        }
    }

    fn call(&mut self, address: u16)
        requires
            old(self)@.call(address) is Some,
        ensures
            old(self)@.call(address) == Some(final(self)@),
    {
        let pc = self.registers.pc;
        self.push_w(pc);
        self.registers.pc = address;
    }

    fn push_w(&mut self, value: u16)
        requires
            old(self)@.push_w(value) is Some,
        ensures
            old(self)@.push_w(value) == Some(final(self)@),
    {
        proof {
            crate::registers::lemma_split_bits(value);
        }
        self.push_b((value >> 8) as u8);
        self.push_b(value as u8);
    }

    fn push_b(&mut self, value: u8)
        requires
            old(self)@.push_b(value) is Some,
        ensures
            old(self)@.push_b(value) == Some(final(self)@),
    {
        let sp = self.registers.sp;
        self.registers.sp = sp - 1;
        self.mmu.write_byte(sp, value);
    }

    fn bit(&mut self, reg: u8, bit: u8)
        requires
            bit < 8,
        ensures
            final(self)@ == old(self)@.after_bit(reg, bit),
    {
        if (reg & (1 << bit)) == 0 {
            self.registers.set_flag(Flag::Z);
        } else {
            self.registers.clear_flag(Flag::Z);
        }
        self.registers.clear_flag(Flag::N);
        self.registers.set_flag(Flag::H);
    }

    fn rotate(&mut self, value: u8) -> (r: u8)
        ensures
            r == rotate_left(value),
            final(self)@ == old(self)@.after_rotate(value),
    {
        proof {
            lemma_rotate_bits(value);
        }
        let b7_set = (value & (1 << 7)) > 0;

        let mut result = value << 1;
        if b7_set {
            result += 1;
        }

        if result == 0 {
            self.registers.set_flag(Flag::Z);
        } else {
            self.registers.clear_flag(Flag::Z);
        }
        self.registers.clear_flag(Flag::N);
        self.registers.clear_flag(Flag::H);
        if b7_set {
            self.registers.set_flag(Flag::C);
        } else {
            self.registers.clear_flag(Flag::C);
        }

        return result;
    }
}

impl CPU {
    #[verifier::spinoff_prover]
    #[verifier::rlimit(60)]
    fn cb(&mut self)
        requires
            old(self)@.prefixed() is Some,
        ensures
            old(self)@.prefixed() == Some(final(self)@),
    {
        let op = self.fetch_byte();
        let ghost fetched = self@;
        assert(old(self)@.prefixed() == fetched.exec_prefixed(op));

        match op {
            0x10 => self.registers.b = self.rotate(self.registers.b),
            0x11 => self.registers.c = self.rotate(self.registers.c),
            0x12 => self.registers.d = self.rotate(self.registers.d),
            0x13 => self.registers.e = self.rotate(self.registers.e),
            0x14 => self.registers.h = self.rotate(self.registers.h),
            0x15 => self.registers.l = self.rotate(self.registers.l),
            0x16 => {
                let mut data = self.mmu.read_byte(self.registers.hl());
                data = self.rotate(data);
                self.mmu.write_byte(self.registers.hl(), data);
            },
            0x17 => self.registers.a = self.rotate(self.registers.a),
            0x40 => self.bit(self.registers.b, 0),
            0x41 => self.bit(self.registers.c, 0),
            0x42 => self.bit(self.registers.d, 0),
            0x43 => self.bit(self.registers.e, 0),
            0x44 => self.bit(self.registers.h, 0),
            0x45 => self.bit(self.registers.l, 0),
            0x47 => self.bit(self.registers.a, 0),
            0x48 => self.bit(self.registers.b, 1),
            0x49 => self.bit(self.registers.c, 1),
            0x4A => self.bit(self.registers.d, 1),
            0x4B => self.bit(self.registers.e, 1),
            0x4C => self.bit(self.registers.h, 1),
            0x4D => self.bit(self.registers.l, 1),
            0x4F => self.bit(self.registers.a, 1),
            0x50 => self.bit(self.registers.b, 2),
            0x51 => self.bit(self.registers.c, 2),
            0x52 => self.bit(self.registers.d, 2),
            0x53 => self.bit(self.registers.e, 2),
            0x54 => self.bit(self.registers.h, 2),
            0x55 => self.bit(self.registers.l, 2),
            0x57 => self.bit(self.registers.a, 2),
            0x58 => self.bit(self.registers.b, 3),
            0x59 => self.bit(self.registers.c, 3),
            0x5A => self.bit(self.registers.d, 3),
            0x5B => self.bit(self.registers.e, 3),
            0x5C => self.bit(self.registers.h, 3),
            0x5D => self.bit(self.registers.l, 3),
            0x5F => self.bit(self.registers.a, 3),
            0x60 => self.bit(self.registers.b, 4),
            0x61 => self.bit(self.registers.c, 4),
            0x62 => self.bit(self.registers.d, 4),
            0x63 => self.bit(self.registers.e, 4),
            0x64 => self.bit(self.registers.h, 4),
            0x65 => self.bit(self.registers.l, 4),
            0x67 => self.bit(self.registers.a, 4),
            0x68 => self.bit(self.registers.b, 5),
            0x69 => self.bit(self.registers.c, 5),
            0x6A => self.bit(self.registers.d, 5),
            0x6B => self.bit(self.registers.e, 5),
            0x6C => self.bit(self.registers.h, 5),
            0x6D => self.bit(self.registers.l, 5),
            0x6F => self.bit(self.registers.a, 5),
            0x70 => self.bit(self.registers.b, 6),
            0x71 => self.bit(self.registers.c, 6),
            0x72 => self.bit(self.registers.d, 6),
            0x73 => self.bit(self.registers.e, 6),
            0x74 => self.bit(self.registers.h, 6),
            0x75 => self.bit(self.registers.l, 6),
            0x77 => self.bit(self.registers.a, 6),
            0x78 => self.bit(self.registers.b, 7),
            0x79 => self.bit(self.registers.c, 7),
            0x7A => self.bit(self.registers.d, 7),
            0x7B => self.bit(self.registers.e, 7),
            0x7C => self.bit(self.registers.h, 7),
            0x7D => self.bit(self.registers.l, 7),
            0x7F => self.bit(self.registers.a, 7),
            _ => vstd::pervasive::unreached(),
        }
    }
}

impl CPU {
    /// Executes one instruction: fetches the opcode at the program counter
    /// and carries it out.  The step must be able to complete: the opcode
    /// is implemented and every memory access and register update it makes
    /// succeeds.
    #[verifier::spinoff_prover]
    #[verifier::rlimit(60)]
    pub fn step(&mut self)
        requires
            old(self)@.step() is Some,
        ensures
            old(self)@.step() == Some(final(self)@),
    {
        let op = self.fetch_byte();
        let ghost fetched = self@;
        assert(old(self)@.step() == fetched.exec_op(op));

        match op {
            0x06 => self.registers.b = self.fetch_byte(),
            0x0E => self.registers.c = self.fetch_byte(),
            0x16 => self.registers.d = self.fetch_byte(),
            0x1E => self.registers.e = self.fetch_byte(),
            0x26 => self.registers.h = self.fetch_byte(),
            0x2E => self.registers.l = self.fetch_byte(),
            0x3E => self.registers.a = self.fetch_byte(),
            0x20 => {
                let offset = self.fetch_byte();
                self.jrcc(Flag::Z, false, offset)
            },
            0x28 => {
                let offset = self.fetch_byte();
                self.jrcc(Flag::Z, true, offset)
            },
            0x30 => {
                let offset = self.fetch_byte();
                self.jrcc(Flag::C, false, offset)
            },
            0x38 => {
                let offset = self.fetch_byte();
                self.jrcc(Flag::C, true, offset)
            },
            0x01 => {
                let word = self.fetch_word();
                self.registers.set_bc(word);
            },
            0x11 => {
                let word = self.fetch_word();
                self.registers.set_de(word);
            },
            0x21 => {
                let word = self.fetch_word();
                self.registers.set_hl(word);
            },
            0x31 => self.registers.sp = self.fetch_word(),
            0x32 => {
                self.mmu.write_byte(self.registers.hl(), self.registers.a);
                let hl = self.registers.hl();
                self.registers.set_hl(hl - 1);
            },
            0x1A => {
                let value = self.mmu.read_byte(self.registers.de());
                self.registers.a = value;
            },
            0x4F => self.registers.c = self.registers.a,
            0x77 => self.mmu.write_byte(self.registers.hl(), self.registers.a),
            0x05 => self.registers.dec_b(ByteRegister::B),
            0x0B => self.registers.dec_w(WordRegister::BC),
            0x1B => self.registers.dec_w(WordRegister::DE),
            0x2B => self.registers.dec_w(WordRegister::HL),
            0x3B => self.registers.dec_w(WordRegister::SP),
            0x0C => self.registers.inc_b(ByteRegister::C),
            0xC5 => self.push_w(self.registers.bc()),
            0xCD => {
                let word = self.fetch_word();
                self.call(word);
            },
            0xA8 => self.xor(self.registers.b),
            0xA9 => self.xor(self.registers.c),
            0xAA => self.xor(self.registers.d),
            0xAB => self.xor(self.registers.e),
            0xAC => self.xor(self.registers.h),
            0xAD => self.xor(self.registers.l),
            0xAF => self.xor(self.registers.a),
            0xCB => self.cb(),
            0xE0 => {
                let address = self.fetch_byte() as u16;
                self.mmu.write_word(0xff00 + address, self.registers.a as u16);
            },
            0xE2 => self.mmu.write_word(0xff00 + self.registers.c as u16, self.registers.a as u16),
            _ => vstd::pervasive::unreached(),
        }
    }
}

impl CPU {
    /// Whether a read of the byte at `address` succeeds and the program
    /// counter can move past it.
    fn can_fetch_at(&self, address: u16) -> (r: bool)
        ensures
            r == (self@.mem.can_read(address) && address < 0xFFFF),
    {
        self.mmu.can_read(address) && address < 0xFFFF
    }

    /// Whether a byte can be pushed with the stack pointer at `sp`.
    fn can_push_at(&self, sp: u16) -> (r: bool)
        ensures
            r == (sp != 0 && self@.mem.can_write(sp)),
    {
        sp != 0 && self.mmu.can_write(sp)
    }

    /// Whether `step` can complete from this state: the opcode at the
    /// program counter is implemented and every memory access and register
    /// update it makes succeeds.
    pub fn can_step(&self) -> (r: bool)
        ensures
            r == self@.step() is Some,
    {
        let pc = self.registers.pc;
        if !self.can_fetch_at(pc) {
            return false;
        }
        let op = self.mmu.read_byte(pc);
        let next = pc + 1;
        let ghost fetched = self@.fetch_byte()->Some_0.0;
        assert(self@.step() == fetched.exec_op(op));
        let hl = self.registers.hl();
        let sp = self.registers.sp;
        match op {
            0x06 | 0x0E | 0x16 | 0x1E | 0x26 | 0x2E | 0x3E | 0x20 | 0x28 | 0x30 | 0x38 => {
                self.can_fetch_at(next)
            },
            0x01 | 0x11 | 0x21 | 0x31 => self.can_fetch_at(next) && self.can_fetch_at(next + 1),
            0x32 => self.mmu.can_write(hl) && hl != 0,
            0x1A => self.mmu.can_read(self.registers.de()),
            0x4F | 0x0C | 0xA8 | 0xA9 | 0xAA | 0xAB | 0xAC | 0xAD | 0xAF => true,
            0x77 => self.mmu.can_write(hl),
            0x05 => self.registers.b != 0,
            0x0B => self.registers.bc() != 0,
            0x1B => self.registers.de() != 0,
            0x2B => hl != 0,
            0x3B => sp != 0,
            0xC5 => {
                proof {
                    if sp != 0 && self@.mem.can_write(sp) {
                        crate::mmu::law_write_keeps_writability(
                            self@.mem,
                            sp,
                            high_byte(self.registers.word(WordRegister::BC)),
                            (sp - 1) as u16,
                        );
                    }
                }
                self.can_push_at(sp) && self.can_push_at(sp - 1)
            },
            0xCD => {
                proof {
                    if sp != 0 && self@.mem.can_write(sp) {
                        crate::mmu::law_write_keeps_writability(
                            self@.mem,
                            sp,
                            high_byte((pc + 3) as u16),
                            (sp - 1) as u16,
                        );
                    }
                }
                self.can_fetch_at(next) && self.can_fetch_at(next + 1) && self.can_push_at(sp)
                    && self.can_push_at(sp - 1)
            },
            0xCB => {
                if !self.can_fetch_at(next) {
                    return false;
                }
                let prefixed = self.mmu.read_byte(next);
                if 0x10 <= prefixed && prefixed <= 0x17 {
                    prefixed != 0x16 || (self.mmu.can_read(hl) && self.mmu.can_write(hl))
                } else {
                    0x40 <= prefixed && prefixed <= 0x7F && prefixed % 8 != 6
                }
            },
            0xE0 => {
                if !self.can_fetch_at(next) {
                    return false;
                }
                let address = 0xff00 + self.mmu.read_byte(next) as u16;
                address < 0xFFFF && self.mmu.can_write(address) && self.mmu.can_write(address + 1)
            },
            0xE2 => {
                let address = 0xff00 + self.registers.c as u16;
                address < 0xFFFF && self.mmu.can_write(address) && self.mmu.can_write(address + 1)
            },
            _ => false,
        }
    }
}

proof fn lemma_signed_offset(pc: u16, offset: u8)
    ensures
        pc.wrapping_add_signed(offset as i8 as i16) == jump_target(pc, offset),
{
    assert(((offset as i8) as i16) as int == (if offset < 128 {
        offset as int
    } else {
        offset as int - 256
    })) by (bit_vector);
}

proof fn lemma_rotate_bits(value: u8)
    ensures
        ((value & (1u8 << 7u8)) > 0) == (value >= 128),
        (value & (1u8 << 7u8)) > 0 ==> (value << 1u8) < 255 && ((value << 1u8) + 1) as u8
            == rotate_left(value),
        (value & (1u8 << 7u8)) == 0 ==> (value << 1u8) == rotate_left(value),
{
    assert(((value & (1u8 << 7u8)) > 0) == (value >= 128)) by (bit_vector);
    assert((value & (1u8 << 7u8)) > 0 ==> (value << 1u8) < 255 && ((value << 1u8) + 1) as u8
        == (value << 1u8) | (value >> 7u8)) by (bit_vector);
    assert((value & (1u8 << 7u8)) == 0 ==> (value << 1u8) == (value << 1u8) | (value >> 7u8))
        by (bit_vector);
}

} // verus!
