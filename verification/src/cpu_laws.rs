//! Laws of the CPU's instructions, stated over the machine model.
use vstd::prelude::*;

use crate::cpu::{jump_target, rotate_left, CpuView};
use crate::registers::{flag_is_set, Registers, WordRegister, high_byte, law_flag_set_clear, low_byte, word_of, Flag};

verus! {

/// Sixteen-bit immediates are little-endian: the byte at the program
/// counter is the low byte, the byte after it the high byte, and the
/// program counter moves past both.
pub proof fn law_fetch_word_little_endian(s: CpuView)
    requires
        s.mem.can_read(s.regs.pc),
        s.mem.can_read((s.regs.pc + 1) as u16),
        s.regs.pc < 0xFFFE,
    ensures
        s.fetch_word() is Some,
        s.fetch_word()->Some_0.1 == word_of(
            s.mem.read((s.regs.pc + 1) as u16),
            s.mem.read(s.regs.pc),
        ),
        s.fetch_word()->Some_0.0.regs.pc == s.regs.pc + 2,
        s.fetch_word()->Some_0.0.mem == s.mem,
{
}

/// Pushing a sixteen-bit value stores its high byte at SP and its low byte
/// just below, and lowers SP by two; every other register, the flags
/// included, is kept.
pub proof fn law_push_word(s: CpuView, value: u16)
    requires
        s.mem.wf(),
        s.push_w(value) is Some,
    ensures
        s.push_w(value)->Some_0.regs == (Registers { sp: (s.regs.sp - 2) as u16, ..s.regs }),
        s.push_w(value)->Some_0.regs.sp == s.regs.sp - 2,
        s.push_w(value)->Some_0.mem.read(s.regs.sp) == high_byte(value),
        s.push_w(value)->Some_0.mem.read((s.regs.sp - 1) as u16) == low_byte(value),
{
    let sp = s.regs.sp;
    let s1 = s.push_b(high_byte(value))->Some_0;
    crate::mmu::law_read_after_write(s.mem, sp, high_byte(value));
    crate::mmu::law_write_frame(s1.mem, (sp - 1) as u16, low_byte(value), sp);
    crate::mmu::law_read_after_write(s1.mem, (sp - 1) as u16, low_byte(value));
}

/// A call jumps to its target and leaves the return address on the stack:
/// high byte at the old SP, low byte just below, SP lowered by two; every
/// other register, the flags included, is kept.
pub proof fn law_call(s: CpuView, address: u16)
    requires
        s.mem.wf(),
        s.call(address) is Some,
    ensures
        s.call(address)->Some_0.regs == (Registers {
            pc: address,
            sp: (s.regs.sp - 2) as u16,
            ..s.regs
        }),
        s.call(address)->Some_0.regs.sp == s.regs.sp - 2,
        s.call(address)->Some_0.mem.read(s.regs.sp) == high_byte(s.regs.pc),
        s.call(address)->Some_0.mem.read((s.regs.sp - 1) as u16) == low_byte(s.regs.pc),
{
    law_push_word(s, s.regs.pc);
}

/// Storing A at HL with decrement (opcode 0x32) writes A at HL, lowers HL
/// by one and keeps every other register, the flags included.
pub proof fn law_store_and_decrement(s: CpuView)
    requires
        s.mem.wf(),
        s.exec_op(0x32) is Some,
    ensures
        s.exec_op(0x32)->Some_0.mem.read(s.regs.word(WordRegister::HL)) == s.regs.a,
        s.exec_op(0x32)->Some_0.regs.word(WordRegister::HL) == s.regs.word(WordRegister::HL) - 1,
        s.exec_op(0x32)->Some_0.regs.f == s.regs.f,
        s.exec_op(0x32)->Some_0.regs.a == s.regs.a,
        s.exec_op(0x32)->Some_0.regs.sp == s.regs.sp,
        s.exec_op(0x32)->Some_0.regs.pc == s.regs.pc,
{
    crate::mmu::law_read_after_write(s.mem, s.regs.word(WordRegister::HL), s.regs.a);
}

/// A relative jump by an offset and a jump by its negation cancel out;
/// the offset 0x80 has no negation in a byte.
pub proof fn law_jump_back(pc: u16, offset: u8)
    requires
        offset != 0x80,
    ensures
        jump_target(jump_target(pc, offset), ((256 - offset as int) % 256) as u8) == pc,
{
}

/// XOR of A with itself gives zero and leaves only the zero flag set.
pub proof fn law_xor_self(s: CpuView)
    ensures
        s.after_xor(s.regs.a).regs.a == 0,
        s.after_xor(s.regs.a).regs.f == 0x80,
{
    let a = s.regs.a;
    assert(a ^ a == 0 && 0u8 | 0x80u8 == 0x80u8) by (bit_vector);
}

/// Rotating a byte left eight times gives the byte back, and the carry of
/// a rotation is the bit that comes round to bit 0.
pub proof fn law_rotate(s: CpuView, value: u8)
    ensures
        rotate_left(
            rotate_left(
                rotate_left(rotate_left(rotate_left(rotate_left(rotate_left(rotate_left(value)))))),
            ),
        ) == value,
        rotate_left(value) & 1 == (if value >= 128 {
            1u8
        } else {
            0u8
        }),
        flag_is_set(s.after_rotate(value).regs.f, Flag::C) == (value >= 128),
        flag_is_set(s.after_rotate(value).regs.f, Flag::Z) == (value == 0),
{
    assert(((((((((value << 1u8) | (value >> 7u8)) << 1u8) | (((value << 1u8) | (value >> 7u8))
        >> 7u8)) << 1u8) | (((((value << 1u8) | (value >> 7u8)) << 1u8) | (((value << 1u8) | (
    value >> 7u8)) >> 7u8)) >> 7u8)) << 1u8) | (((((((value << 1u8) | (value >> 7u8)) << 1u8) | (
    ((value << 1u8) | (value >> 7u8)) >> 7u8)) << 1u8) | (((((value << 1u8) | (value >> 7u8))
        << 1u8) | (((value << 1u8) | (value >> 7u8)) >> 7u8)) >> 7u8)) >> 7u8)) == rotate_left(
        rotate_left(rotate_left(rotate_left(value))),
    ));
    let r4 = rotate_left(rotate_left(rotate_left(rotate_left(value))));
    assert(((((((((value << 1u8) | (value >> 7u8)) << 1u8) | (((value << 1u8) | (value >> 7u8))
        >> 7u8)) << 1u8) | (((((value << 1u8) | (value >> 7u8)) << 1u8) | (((value << 1u8) | (
    value >> 7u8)) >> 7u8)) >> 7u8)) << 1u8) | (((((((value << 1u8) | (value >> 7u8)) << 1u8) | (
    ((value << 1u8) | (value >> 7u8)) >> 7u8)) << 1u8) | (((((value << 1u8) | (value >> 7u8))
        << 1u8) | (((value << 1u8) | (value >> 7u8)) >> 7u8)) >> 7u8)) >> 7u8)) == ((value
        << 4u8) | (value >> 4u8))) by (bit_vector);
    assert(((((((((r4 << 1u8) | (r4 >> 7u8)) << 1u8) | (((r4 << 1u8) | (r4 >> 7u8)) >> 7u8))
        << 1u8) | (((((r4 << 1u8) | (r4 >> 7u8)) << 1u8) | (((r4 << 1u8) | (r4 >> 7u8)) >> 7u8))
        >> 7u8)) << 1u8) | (((((((r4 << 1u8) | (r4 >> 7u8)) << 1u8) | (((r4 << 1u8) | (r4 >> 7u8))
        >> 7u8)) << 1u8) | (((((r4 << 1u8) | (r4 >> 7u8)) << 1u8) | (((r4 << 1u8) | (r4 >> 7u8))
        >> 7u8)) >> 7u8)) >> 7u8)) == ((r4 << 4u8) | (r4 >> 4u8))) by (bit_vector);
    assert(((((value << 4u8) | (value >> 4u8)) << 4u8) | (((value << 4u8) | (value >> 4u8))
        >> 4u8)) == value) by (bit_vector);
    assert(((value << 1u8) | (value >> 7u8)) & 1 == (if value >= 128 {
        1u8
    } else {
        0u8
    })) by (bit_vector);
    assert(((value << 1u8) | (value >> 7u8)) == 0 <==> value == 0) by (bit_vector);
    crate::registers::law_flag_set_clear(s.regs.f, Flag::Z, Flag::C);
    let r1 = if rotate_left(value) == 0 {
        s.regs.flag_set(Flag::Z)
    } else {
        s.regs.flag_cleared(Flag::Z)
    };
    crate::registers::law_flag_set_clear(r1.f, Flag::N, Flag::Z);
    let r2 = r1.flag_cleared(Flag::N);
    crate::registers::law_flag_set_clear(r2.f, Flag::H, Flag::Z);
    let r3 = r2.flag_cleared(Flag::H);
    crate::registers::law_flag_set_clear(r3.f, Flag::C, Flag::Z);
}

/// Testing a bit sets Z exactly when the bit is zero, clears N, sets H and
/// keeps C.
pub proof fn law_bit(s: CpuView, value: u8, bit: u8)
    requires
        bit < 8,
    ensures
        flag_is_set(s.after_bit(value, bit).regs.f, Flag::Z) == (value & (1u8 << bit) == 0),
        !flag_is_set(s.after_bit(value, bit).regs.f, Flag::N),
        flag_is_set(s.after_bit(value, bit).regs.f, Flag::H),
        flag_is_set(s.after_bit(value, bit).regs.f, Flag::C) == flag_is_set(s.regs.f, Flag::C),
        s.after_bit(value, bit).regs.a == s.regs.a,
        s.after_bit(value, bit).mem == s.mem,
{
    let r1 = if value & (1u8 << bit) == 0 {
        s.regs.flag_set(Flag::Z)
    } else {
        s.regs.flag_cleared(Flag::Z)
    };
    law_flag_set_clear(s.regs.f, Flag::Z, Flag::C);
    law_flag_set_clear(r1.f, Flag::N, Flag::Z);
    law_flag_set_clear(r1.f, Flag::N, Flag::C);
    let r2 = r1.flag_cleared(Flag::N);
    law_flag_set_clear(r2.f, Flag::H, Flag::Z);
    law_flag_set_clear(r2.f, Flag::H, Flag::N);
    law_flag_set_clear(r2.f, Flag::H, Flag::C);
}

/// Every step keeps the memory regions at their sizes and never changes
/// the cartridge: its ROM image stays as it was.
pub proof fn law_step_keeps_memory_shape(s: CpuView)
    requires
        s.mem.wf(),
        s.step() is Some,
    ensures
        s.step()->Some_0.mem.wf(),
        s.step()->Some_0.mem.cart.rom() == s.mem.cart.rom(),
        s.step()->Some_0.mem.cart is Loaded == s.mem.cart is Loaded,
{
}

/// The flag byte after three updates that set or clear H, then Z, then N:
/// C and bits 0 to 3 are kept.
proof fn lemma_flag_byte(f: u8, h: bool, z: bool, n: bool)
    ensures
        ({
            let f1 = if h {
                f | 0x20u8
            } else {
                f & !0x20u8
            };
            let f2 = if z {
                f1 | 0x80u8
            } else {
                f1 & !0x80u8
            };
            let hz = (f & 0x1F) | (if h {
                0x20u8
            } else {
                0u8
            }) | (if z {
                0x80u8
            } else {
                0u8
            });
            &&& n ==> f2 | 0x40u8 == hz | 0x40u8
            &&& !n ==> f2 & !0x40u8 == hz
        }),
{
    assert({
        let f1 = if h {
            f | 0x20u8
        } else {
            f & !0x20u8
        };
        let f2 = if z {
            f1 | 0x80u8
        } else {
            f1 & !0x80u8
        };
        let hz = (f & 0x1F) | (if h {
            0x20u8
        } else {
            0u8
        }) | (if z {
            0x80u8
        } else {
            0u8
        });
        &&& n ==> f2 | 0x40u8 == hz | 0x40u8
        &&& !n ==> f2 & !0x40u8 == hz
    }) by (bit_vector);
}

/// The byte at the program counter, and the ones after it.
pub open spec fn code_byte(s: CpuView, k: int) -> u8 {
    s.mem.read((s.regs.pc + k) as u16)
}

/// Whether the `n` bytes from the program counter on can be fetched.
pub open spec fn code_readable(s: CpuView, n: int) -> bool {
    &&& s.regs.pc + n <= 0xFFFF
    &&& forall|k: int| 0 <= k < n ==> s.mem.can_read(#[trigger] ((s.regs.pc + k) as u16))
}

/// JR NZ/Z/NC/C (0x20, 0x28, 0x30, 0x38): the jump is taken when Z is
/// clear, Z is set, C is clear, C is set, respectively; a taken jump adds
/// the signed offset byte to the address after the instruction, modulo
/// 0x10000, an untaken one goes on after it; nothing else changes.
pub proof fn law_step_jump_relative(s: CpuView)
    requires
        code_readable(s, 2),
        code_byte(s, 0) == 0x20 || code_byte(s, 0) == 0x28 || code_byte(s, 0) == 0x30
            || code_byte(s, 0) == 0x38,
    ensures
        s.step() is Some,
        ({
            let op = code_byte(s, 0);
            let o = code_byte(s, 1);
            let f = s.regs.f;
            let taken = (op == 0x20 && f & 0x80 == 0) || (op == 0x28 && f & 0x80 != 0) || (op
                == 0x30 && f & 0x10 == 0) || (op == 0x38 && f & 0x10 != 0);
            let next = s.regs.pc + 2;
            s.step()->Some_0 == (CpuView {
                regs: Registers {
                    pc: if taken {
                        ((next + (if o < 128 {
                            o as int
                        } else {
                            o as int - 256
                        })) % 0x10000) as u16
                    } else {
                        next as u16
                    },
                    ..s.regs
                },
                ..s
            })
        }),
{
    assert(s.mem.can_read((s.regs.pc + 0) as u16));
    assert(s.mem.can_read((s.regs.pc + 1) as u16));
}

/// LD r,n (0x06 B, 0x0E C, 0x16 D, 0x1E E, 0x26 H, 0x2E L, 0x3E A): the
/// register gets the byte after the opcode; nothing else changes but PC,
/// which moves past both bytes.
pub proof fn law_step_load_immediate(s: CpuView)
    requires
        code_readable(s, 2),
        code_byte(s, 0) == 0x06 || code_byte(s, 0) == 0x0E || code_byte(s, 0) == 0x16
            || code_byte(s, 0) == 0x1E || code_byte(s, 0) == 0x26 || code_byte(s, 0) == 0x2E
            || code_byte(s, 0) == 0x3E,
    ensures
        s.step() is Some,
        ({
            let op = code_byte(s, 0);
            let n = code_byte(s, 1);
            let r = Registers { pc: (s.regs.pc + 2) as u16, ..s.regs };
            s.step()->Some_0 == (CpuView {
                regs: if op == 0x06 {
                    Registers { b: n, ..r }
                } else if op == 0x0E {
                    Registers { c: n, ..r }
                } else if op == 0x16 {
                    Registers { d: n, ..r }
                } else if op == 0x1E {
                    Registers { e: n, ..r }
                } else if op == 0x26 {
                    Registers { h: n, ..r }
                } else if op == 0x2E {
                    Registers { l: n, ..r }
                } else {
                    Registers { a: n, ..r }
                },
                ..s
            })
        }),
{
    assert(s.mem.can_read((s.regs.pc + 0) as u16));
    assert(s.mem.can_read((s.regs.pc + 1) as u16));
}

/// LD rr,nn (0x01 BC, 0x11 DE, 0x21 HL, 0x31 SP): the pair gets the two
/// bytes after the opcode, low byte first (so B, D, H get the second and
/// C, E, L the first); PC moves past all three bytes.
pub proof fn law_step_load_word(s: CpuView)
    requires
        code_readable(s, 3),
        code_byte(s, 0) == 0x01 || code_byte(s, 0) == 0x11 || code_byte(s, 0) == 0x21
            || code_byte(s, 0) == 0x31,
    ensures
        s.step() is Some,
        ({
            let op = code_byte(s, 0);
            let lo = code_byte(s, 1);
            let hi = code_byte(s, 2);
            let r = Registers { pc: (s.regs.pc + 3) as u16, ..s.regs };
            s.step()->Some_0 == (CpuView {
                regs: if op == 0x01 {
                    Registers { b: hi, c: lo, ..r }
                } else if op == 0x11 {
                    Registers { d: hi, e: lo, ..r }
                } else if op == 0x21 {
                    Registers { h: hi, l: lo, ..r }
                } else {
                    Registers { sp: (hi as int * 256 + lo as int) as u16, ..r }
                },
                ..s
            })
        }),
{
    assert(s.mem.can_read((s.regs.pc + 0) as u16));
    assert(s.mem.can_read((s.regs.pc + 1) as u16));
    assert(s.mem.can_read((s.regs.pc + 2) as u16));
    let w = word_of(hi_of(s), lo_of(s));
    crate::registers::law_pair_halves(hi_of(s), lo_of(s), w);
}

spec fn hi_of(s: CpuView) -> u8 {
    code_byte(s, 2)
}

spec fn lo_of(s: CpuView) -> u8 {
    code_byte(s, 1)
}

/// LD (HL),A (0x77) succeeds exactly when the address in HL can be
/// written; it stores A there, and the byte at HL then reads as A;
/// registers other than PC are kept.
pub proof fn law_step_store_a(s: CpuView)
    requires
        s.mem.wf(),
        code_readable(s, 1),
        code_byte(s, 0) == 0x77,
    ensures
        ({
            let hl = (s.regs.h as int * 256 + s.regs.l as int) as u16;
            &&& s.step() is Some <==> s.mem.can_write(hl)
            &&& s.step() is Some ==> s.step()->Some_0.mem == s.mem.write(hl, s.regs.a)
                && s.step()->Some_0.mem.read(hl) == s.regs.a && s.step()->Some_0.regs
                == (Registers { pc: (s.regs.pc + 1) as u16, ..s.regs })
        }),
{
    assert(s.mem.can_read((s.regs.pc + 0) as u16));
    let hl = (s.regs.h as int * 256 + s.regs.l as int) as u16;
    if s.mem.can_write(hl) {
        crate::mmu::law_read_after_write(s.mem, hl, s.regs.a);
    }
}

/// LD (HL-),A (0x32) succeeds exactly when HL is not zero and can be
/// written; it stores A there and lowers HL by one, keeping the flags.
pub proof fn law_step_store_a_decrement(s: CpuView)
    requires
        s.mem.wf(),
        code_readable(s, 1),
        code_byte(s, 0) == 0x32,
    ensures
        ({
            let hl = s.regs.h as int * 256 + s.regs.l as int;
            &&& s.step() is Some <==> (hl != 0 && s.mem.can_write(hl as u16))
            &&& s.step() is Some ==> s.step()->Some_0.mem == s.mem.write(hl as u16, s.regs.a)
                && s.step()->Some_0.mem.read(hl as u16) == s.regs.a && s.step()->Some_0.regs
                == (Registers {
                h: ((hl - 1) / 256) as u8,
                l: ((hl - 1) % 256) as u8,
                pc: (s.regs.pc + 1) as u16,
                ..s.regs
            })
        }),
{
    assert(s.mem.can_read((s.regs.pc + 0) as u16));
    let hl = s.regs.h as int * 256 + s.regs.l as int;
    if hl != 0 && s.mem.can_write(hl as u16) {
        crate::mmu::law_read_after_write(s.mem, hl as u16, s.regs.a);
    }
}

/// LD A,(DE) (0x1A) succeeds exactly when the address in DE can be read
/// and loads A from it; LD C,A (0x4F) copies A into C.
pub proof fn law_step_loads_a_and_c(s: CpuView)
    requires
        code_readable(s, 1),
        code_byte(s, 0) == 0x1A || code_byte(s, 0) == 0x4F,
    ensures
        ({
            let de = (s.regs.d as int * 256 + s.regs.e as int) as u16;
            let r = Registers { pc: (s.regs.pc + 1) as u16, ..s.regs };
            &&& code_byte(s, 0) == 0x1A ==> (s.step() is Some <==> s.mem.can_read(de))
            &&& code_byte(s, 0) == 0x1A && s.mem.can_read(de) ==> s.step()->Some_0 == (CpuView {
                regs: Registers { a: s.mem.read(de), ..r },
                ..s
            })
            &&& code_byte(s, 0) == 0x4F ==> s.step() == Some(
                CpuView { regs: Registers { c: s.regs.a, ..r }, ..s },
            )
        }),
{
    assert(s.mem.can_read((s.regs.pc + 0) as u16));
}

/// DEC B (0x05) succeeds exactly when B is not zero: B drops by one, H is
/// set when the low nibble borrows, Z when the result is zero, N is set, C
/// and the low four bits of F are kept.
pub proof fn law_step_decrement_b(s: CpuView)
    requires
        code_readable(s, 1),
        code_byte(s, 0) == 0x05,
    ensures
        s.step() is Some <==> s.regs.b != 0,
        s.regs.b != 0 ==> s.step()->Some_0 == (CpuView {
            regs: Registers {
                b: (s.regs.b - 1) as u8,
                f: (s.regs.f & 0x1F) | (if s.regs.b & 0x0F == 0 {
                    0x20u8
                } else {
                    0u8
                }) | (if s.regs.b == 1 {
                    0x80u8
                } else {
                    0u8
                }) | 0x40u8,
                pc: (s.regs.pc + 1) as u16,
                ..s.regs
            },
            ..s
        }),
{
    assert(s.mem.can_read((s.regs.pc + 0) as u16));
    lemma_flag_byte(s.regs.f, s.regs.b & 0x0F == 0, s.regs.b == 1, true);
}

/// DEC rr (0x0B BC, 0x1B DE, 0x2B HL, 0x3B SP) succeeds exactly when the
/// pair is not zero: it drops by one, H is set when the low nibble
/// borrows, Z when the result is zero, N is set, C and the low four bits of
/// F are kept.
pub proof fn law_step_decrement_word(s: CpuView)
    requires
        code_readable(s, 1),
        code_byte(s, 0) == 0x0B || code_byte(s, 0) == 0x1B || code_byte(s, 0) == 0x2B
            || code_byte(s, 0) == 0x3B,
    ensures
        ({
            let op = code_byte(s, 0);
            let v: int = if op == 0x0B {
                s.regs.b as int * 256 + s.regs.c as int
            } else if op == 0x1B {
                s.regs.d as int * 256 + s.regs.e as int
            } else if op == 0x2B {
                s.regs.h as int * 256 + s.regs.l as int
            } else {
                s.regs.sp as int
            };
            let w = v - 1;
            let f = (s.regs.f & 0x1F) | (if v % 16 == 0 {
                0x20u8
            } else {
                0u8
            }) | (if v == 1 {
                0x80u8
            } else {
                0u8
            }) | 0x40u8;
            let r = Registers { f, pc: (s.regs.pc + 1) as u16, ..s.regs };
            &&& s.step() is Some <==> v != 0
            &&& v != 0 ==> s.step()->Some_0 == (CpuView {
                regs: if op == 0x0B {
                    Registers { b: (w / 256) as u8, c: (w % 256) as u8, ..r }
                } else if op == 0x1B {
                    Registers { d: (w / 256) as u8, e: (w % 256) as u8, ..r }
                } else if op == 0x2B {
                    Registers { h: (w / 256) as u8, l: (w % 256) as u8, ..r }
                } else {
                    Registers { sp: w as u16, ..r }
                },
                ..s
            })
        }),
{
    assert(s.mem.can_read((s.regs.pc + 0) as u16));
    let op = code_byte(s, 0);
    let v: u16 = if op == 0x0B {
        word_of(s.regs.b, s.regs.c)
    } else if op == 0x1B {
        word_of(s.regs.d, s.regs.e)
    } else if op == 0x2B {
        word_of(s.regs.h, s.regs.l)
    } else {
        s.regs.sp
    };
    assert((v & 0x0F == 0) == (v % 16 == 0)) by (bit_vector);
    lemma_flag_byte(s.regs.f, v & 0x0F == 0, v == 1, true);
}

/// INC C (0x0C): C goes up by one modulo 256, H is set when the low
/// nibble carries, Z when the result is zero, N is cleared, C and the low
/// four bits of F are kept.
pub proof fn law_step_increment_c(s: CpuView)
    requires
        code_readable(s, 1),
        code_byte(s, 0) == 0x0C,
    ensures
        s.step() == Some(
            CpuView {
                regs: Registers {
                    c: ((s.regs.c as int + 1) % 256) as u8,
                    f: (s.regs.f & 0x1F) | (if s.regs.c & 0x0F == 0x0F {
                        0x20u8
                    } else {
                        0u8
                    }) | (if s.regs.c == 0xFF {
                        0x80u8
                    } else {
                        0u8
                    }),
                    pc: (s.regs.pc + 1) as u16,
                    ..s.regs
                },
                ..s
            },
        ),
{
    assert(s.mem.can_read((s.regs.pc + 0) as u16));
    lemma_flag_byte(s.regs.f, s.regs.c & 0x0F == 0x0F, s.regs.c == 0xFF, false);
}

/// XOR r (0xA8 B, 0xA9 C, 0xAA D, 0xAB E, 0xAC H, 0xAD L, 0xAF A): A
/// becomes the bitwise exclusive or of A and the register, F becomes 0x80
/// when the result is zero and 0 otherwise; nothing else changes but PC.
pub proof fn law_step_xor(s: CpuView)
    requires
        code_readable(s, 1),
        0xA8 <= code_byte(s, 0) <= 0xAF,
        code_byte(s, 0) != 0xAE,
    ensures
        ({
            let op = code_byte(s, 0);
            let v = if op == 0xA8 {
                s.regs.b
            } else if op == 0xA9 {
                s.regs.c
            } else if op == 0xAA {
                s.regs.d
            } else if op == 0xAB {
                s.regs.e
            } else if op == 0xAC {
                s.regs.h
            } else if op == 0xAD {
                s.regs.l
            } else {
                s.regs.a
            };
            let x = s.regs.a ^ v;
            s.step() == Some(
                CpuView {
                    regs: Registers {
                        a: x,
                        f: if x == 0 {
                            0x80u8
                        } else {
                            0u8
                        },
                        pc: (s.regs.pc + 1) as u16,
                        ..s.regs
                    },
                    ..s
                },
            )
        }),
{
    assert(s.mem.can_read((s.regs.pc + 0) as u16));
    assert(0u8 | 0x80u8 == 0x80u8) by (bit_vector);
}

/// PUSH BC (0xC5) succeeds exactly when SP and SP - 1 are not zero and
/// can be written: B goes to SP, C just below, SP drops by two and every
/// other register, the flags included, is kept.
pub proof fn law_step_push_bc(s: CpuView)
    requires
        s.mem.wf(),
        code_readable(s, 1),
        code_byte(s, 0) == 0xC5,
    ensures
        ({
            let sp = s.regs.sp as int;
            &&& s.step() is Some <==> (sp >= 2 && s.mem.can_write(sp as u16) && s.mem.can_write(
                (sp - 1) as u16,
            ))
            &&& s.step() is Some ==> s.step()->Some_0.mem.read(sp as u16) == s.regs.b
                && s.step()->Some_0.mem.read((sp - 1) as u16) == s.regs.c && s.step()->Some_0.regs
                == (Registers { sp: (sp - 2) as u16, pc: (s.regs.pc + 1) as u16, ..s.regs })
        }),
{
    assert(s.mem.can_read((s.regs.pc + 0) as u16));
    let s1 = s.fetch_byte()->Some_0.0;
    let sp = s.regs.sp;
    let bc = word_of(s.regs.b, s.regs.c);
    crate::registers::law_pair_halves(s.regs.b, s.regs.c, bc);
    if sp != 0 && s.mem.can_write(sp) {
        crate::mmu::law_write_keeps_writability(s.mem, sp, s.regs.b, (sp - 1) as u16);
    }
    if s.step() is Some {
        law_push_word(s1, bc);
    }
}

/// CALL nn (0xCD) succeeds exactly when SP and SP - 1 are not zero and can
/// be written: the address after the instruction goes on the stack (high
/// byte at SP, low byte just below), SP drops by two and PC becomes the
/// two bytes after the opcode, low byte first; flags are kept.
pub proof fn law_step_call(s: CpuView)
    requires
        s.mem.wf(),
        code_readable(s, 3),
        code_byte(s, 0) == 0xCD,
    ensures
        ({
            let sp = s.regs.sp as int;
            let ret = s.regs.pc as int + 3;
            &&& s.step() is Some <==> (sp >= 2 && s.mem.can_write(sp as u16) && s.mem.can_write(
                (sp - 1) as u16,
            ))
            &&& s.step() is Some ==> s.step()->Some_0.mem.read(sp as u16) == (ret / 256) as u8
                && s.step()->Some_0.mem.read((sp - 1) as u16) == (ret % 256) as u8
                && s.step()->Some_0.regs == (Registers {
                sp: (sp - 2) as u16,
                pc: (code_byte(s, 2) as int * 256 + code_byte(s, 1) as int) as u16,
                ..s.regs
            })
        }),
{
    assert(s.mem.can_read((s.regs.pc + 0) as u16));
    assert(s.mem.can_read((s.regs.pc + 1) as u16));
    assert(s.mem.can_read((s.regs.pc + 2) as u16));
    let s3 = s.fetch_byte()->Some_0.0.fetch_word()->Some_0.0;
    let sp = s.regs.sp;
    if sp != 0 && s.mem.can_write(sp) {
        crate::mmu::law_write_keeps_writability(
            s.mem,
            sp,
            high_byte(s3.regs.pc),
            (sp - 1) as u16,
        );
    }
    if s.step() is Some {
        law_call(s3, word_of(code_byte(s, 2), code_byte(s, 1)));
    }
}

/// LDH (n),A (0xE0) and LD (C),A (0xE2) write A, widened to sixteen bits,
/// at 0xFF00 plus the byte after the opcode or plus C: a zero at that
/// address and A just after it; they fail exactly when the offset is 0xFF.
pub proof fn law_step_store_high(s: CpuView)
    requires
        s.mem.wf(),
        code_readable(s, 2),
        code_byte(s, 0) == 0xE0 || code_byte(s, 0) == 0xE2,
    ensures
        ({
            let op = code_byte(s, 0);
            let o = if op == 0xE0 {
                code_byte(s, 1)
            } else {
                s.regs.c
            };
            let address = (0xFF00 + o) as u16;
            &&& s.step() is Some <==> o != 0xFF
            &&& o != 0xFF ==> s.step()->Some_0.mem.read(address) == 0 && s.step()->Some_0.mem.read(
                (address + 1) as u16,
            ) == s.regs.a && s.step()->Some_0.regs == (Registers {
                pc: (s.regs.pc + if op == 0xE0 {
                    2int
                } else {
                    1int
                }) as u16,
                ..s.regs
            })
        }),
{
    assert(s.mem.can_read((s.regs.pc + 0) as u16));
    assert(s.mem.can_read((s.regs.pc + 1) as u16));
    let op = code_byte(s, 0);
    let o = if op == 0xE0 {
        code_byte(s, 1)
    } else {
        s.regs.c
    };
    let address = (0xFF00 + o) as u16;
    let a16 = s.regs.a as u16;
    if o != 0xFF {
        crate::mmu::law_read_word_after_write_word(s.mem, address, a16);
        crate::registers::law_pair_halves(0, s.regs.a, a16);
        assert(word_of(0, s.regs.a) == a16);
    }
}

/// The flag byte after a rotation's updates (Z, then N and H cleared,
/// then C) and after a bit test's (Z, then N cleared, then H set).
proof fn lemma_prefixed_flag_bytes(f: u8, z: bool, c: bool)
    ensures
        ({
            let f1 = if z {
                f | 0x80u8
            } else {
                f & !0x80u8
            };
            let f3 = (f1 & !0x40u8) & !0x20u8;
            (if c {
                f3 | 0x10u8
            } else {
                f3 & !0x10u8
            }) == ((f & 0x0F) | (if z {
                0x80u8
            } else {
                0u8
            }) | (if c {
                0x10u8
            } else {
                0u8
            }))
        }),
        ({
            let f1 = if z {
                f | 0x80u8
            } else {
                f & !0x80u8
            };
            ((f1 & !0x40u8) | 0x20u8) == ((f & 0x1F) | 0x20u8 | (if z {
                0x80u8
            } else {
                0u8
            }))
        }),
{
    assert({
        let f1 = if z {
            f | 0x80u8
        } else {
            f & !0x80u8
        };
        let f3 = (f1 & !0x40u8) & !0x20u8;
        (if c {
            f3 | 0x10u8
        } else {
            f3 & !0x10u8
        }) == ((f & 0x0F) | (if z {
            0x80u8
        } else {
            0u8
        }) | (if c {
            0x10u8
        } else {
            0u8
        }))
    }) by (bit_vector);
    assert({
        let f1 = if z {
            f | 0x80u8
        } else {
            f & !0x80u8
        };
        ((f1 & !0x40u8) | 0x20u8) == ((f & 0x1F) | 0x20u8 | (if z {
            0x80u8
        } else {
            0u8
        }))
    }) by (bit_vector);
}

proof fn lemma_rotate_arith(v: u8)
    ensures
        rotate_left(v) == ((v as int * 2) % 256 + v as int / 128) as u8,
{
    assert((v << 1u8) | (v >> 7u8) == ((v as int * 2) % 256 + v as int / 128) as u8)
        by (bit_vector);
}

/// The byte register that code `k` (the low three bits of a prefixed
/// opcode) names: 0 B, 1 C, 2 D, 3 E, 4 H, 5 L, 7 A.
pub open spec fn coded_register(r: Registers, k: int) -> u8 {
    if k == 0 {
        r.b
    } else if k == 1 {
        r.c
    } else if k == 2 {
        r.d
    } else if k == 3 {
        r.e
    } else if k == 4 {
        r.h
    } else if k == 5 {
        r.l
    } else {
        r.a
    }
}

/// The registers with the byte register of code `k` replaced.
pub open spec fn with_coded_register(r: Registers, k: int, v: u8) -> Registers {
    if k == 0 {
        Registers { b: v, ..r }
    } else if k == 1 {
        Registers { c: v, ..r }
    } else if k == 2 {
        Registers { d: v, ..r }
    } else if k == 3 {
        Registers { e: v, ..r }
    } else if k == 4 {
        Registers { h: v, ..r }
    } else if k == 5 {
        Registers { l: v, ..r }
    } else {
        Registers { a: v, ..r }
    }
}

/// RLC r (0xCB then 0x10 to 0x17 but 0x16): the register is rotated left
/// one bit, bit 7 coming round to bit 0 and into C; Z is set when the
/// result is zero, N and H are cleared, the low four bits of F are kept.
pub proof fn law_step_rotate_register(s: CpuView)
    requires
        code_readable(s, 2),
        code_byte(s, 0) == 0xCB,
        0x10 <= code_byte(s, 1) <= 0x17,
        code_byte(s, 1) != 0x16,
    ensures
        ({
            let k = code_byte(s, 1) as int % 8;
            let v = coded_register(s.regs, k);
            let x = ((v as int * 2) % 256 + v as int / 128) as u8;
            let f = (s.regs.f & 0x0F) | (if x == 0 {
                0x80u8
            } else {
                0u8
            }) | (if v >= 128 {
                0x10u8
            } else {
                0u8
            });
            s.step() == Some(
                CpuView {
                    regs: with_coded_register(
                        Registers { f, pc: (s.regs.pc + 2) as u16, ..s.regs },
                        k,
                        x,
                    ),
                    ..s
                },
            )
        }),
{
    assert(s.mem.can_read((s.regs.pc + 0) as u16));
    assert(s.mem.can_read((s.regs.pc + 1) as u16));
    let k = code_byte(s, 1) as int % 8;
    let v = coded_register(s.regs, k);
    lemma_rotate_arith(v);
    lemma_prefixed_flag_bytes(s.regs.f, rotate_left(v) == 0, v >= 128);
}

/// RLC (HL) (0xCB 0x16) succeeds exactly when the byte at HL can be read
/// and written: that byte is rotated left one bit in place, with the flags
/// of a register rotation.
pub proof fn law_step_rotate_at_hl(s: CpuView)
    requires
        code_readable(s, 2),
        code_byte(s, 0) == 0xCB,
        code_byte(s, 1) == 0x16,
    ensures
        ({
            let hl = (s.regs.h as int * 256 + s.regs.l as int) as u16;
            let v = s.mem.read(hl);
            let x = ((v as int * 2) % 256 + v as int / 128) as u8;
            let f = (s.regs.f & 0x0F) | (if x == 0 {
                0x80u8
            } else {
                0u8
            }) | (if v >= 128 {
                0x10u8
            } else {
                0u8
            });
            &&& s.step() is Some <==> (s.mem.can_read(hl) && s.mem.can_write(hl))
            &&& s.step() is Some ==> s.step()->Some_0 == (CpuView {
                regs: Registers { f, pc: (s.regs.pc + 2) as u16, ..s.regs },
                mem: s.mem.write(hl, x),
                ..s
            })
        }),
{
    assert(s.mem.can_read((s.regs.pc + 0) as u16));
    assert(s.mem.can_read((s.regs.pc + 1) as u16));
    let hl = (s.regs.h as int * 256 + s.regs.l as int) as u16;
    let v = s.mem.read(hl);
    lemma_rotate_arith(v);
    lemma_prefixed_flag_bytes(s.regs.f, rotate_left(v) == 0, v >= 128);
}

/// BIT b,r (0xCB then 0x40 to 0x7F, not on the byte at HL): b is
/// (opcode - 0x40) / 8 and r the register of the low three bits; Z is set
/// exactly when bit b of the register is zero, N is cleared, H is set, C
/// and the low four bits of F are kept; nothing else changes but PC.
pub proof fn law_step_bit(s: CpuView)
    requires
        code_readable(s, 2),
        code_byte(s, 0) == 0xCB,
        0x40 <= code_byte(s, 1) <= 0x7F,
        code_byte(s, 1) as int % 8 != 6,
    ensures
        ({
            let k = code_byte(s, 1) as int % 8;
            let b = (code_byte(s, 1) as int - 0x40) / 8;
            let v = coded_register(s.regs, k);
            let f = (s.regs.f & 0x1F) | 0x20u8 | (if (v as int / pow2_of(b)) % 2 == 0 {
                0x80u8
            } else {
                0u8
            });
            s.step() == Some(
                CpuView { regs: Registers { f, pc: (s.regs.pc + 2) as u16, ..s.regs }, ..s },
            )
        }),
{
    assert(s.mem.can_read((s.regs.pc + 0) as u16));
    assert(s.mem.can_read((s.regs.pc + 1) as u16));
    let k = code_byte(s, 1) as int % 8;
    let b = ((code_byte(s, 1) as int - 0x40) / 8) as u8;
    let v = coded_register(s.regs, k);
    lemma_bit_arith(v, b);
    lemma_prefixed_flag_bytes(s.regs.f, v & (1u8 << b) == 0, false);
}

/// Two to the power `b`, for a bit index.
pub open spec fn pow2_of(b: int) -> int {
    if b == 0 {
        1
    } else if b == 1 {
        2
    } else if b == 2 {
        4
    } else if b == 3 {
        8
    } else if b == 4 {
        16
    } else if b == 5 {
        32
    } else if b == 6 {
        64
    } else {
        128
    }
}

proof fn lemma_bit_arith(v: u8, b: u8)
    requires
        b < 8,
    ensures
        (v & (1u8 << b) == 0) == ((v as int / pow2_of(b as int)) % 2 == 0),
{
    if b == 0 {
        assert((v & (1u8 << 0u8) == 0) == ((v as int / 1) % 2 == 0)) by (bit_vector);
    } else if b == 1 {
        assert((v & (1u8 << 1u8) == 0) == ((v as int / 2) % 2 == 0)) by (bit_vector);
    } else if b == 2 {
        assert((v & (1u8 << 2u8) == 0) == ((v as int / 4) % 2 == 0)) by (bit_vector);
    } else if b == 3 {
        assert((v & (1u8 << 3u8) == 0) == ((v as int / 8) % 2 == 0)) by (bit_vector);
    } else if b == 4 {
        assert((v & (1u8 << 4u8) == 0) == ((v as int / 16) % 2 == 0)) by (bit_vector);
    } else if b == 5 {
        assert((v & (1u8 << 5u8) == 0) == ((v as int / 32) % 2 == 0)) by (bit_vector);
    } else if b == 6 {
        assert((v & (1u8 << 6u8) == 0) == ((v as int / 64) % 2 == 0)) by (bit_vector);
    } else {
        assert((v & (1u8 << 7u8) == 0) == ((v as int / 128) % 2 == 0)) by (bit_vector);
    }
}

/// The opcodes that are implemented; every other opcode stops the machine,
/// and so does a prefixed opcode other than the rotations 0x10 to 0x17 and
/// the bit tests 0x40 to 0x7F on registers; a step also fails when the
/// byte at PC cannot be read or PC is 0xFFFF.
pub proof fn law_step_unimplemented(s: CpuView)
    ensures
        !(s.mem.can_read(s.regs.pc) && s.regs.pc < 0xFFFF) ==> s.step() is None,
        code_readable(s, 1) && !(code_byte(s, 0) == 0x06 || code_byte(s, 0) == 0x0E || code_byte(
            s,
            0,
        ) == 0x16 || code_byte(s, 0) == 0x1E || code_byte(s, 0) == 0x26 || code_byte(s, 0) == 0x2E
            || code_byte(s, 0) == 0x3E || code_byte(s, 0) == 0x20 || code_byte(s, 0) == 0x28
            || code_byte(s, 0) == 0x30 || code_byte(s, 0) == 0x38 || code_byte(s, 0) == 0x01
            || code_byte(s, 0) == 0x11 || code_byte(s, 0) == 0x21 || code_byte(s, 0) == 0x31
            || code_byte(s, 0) == 0x32 || code_byte(s, 0) == 0x1A || code_byte(s, 0) == 0x4F
            || code_byte(s, 0) == 0x77 || code_byte(s, 0) == 0x05 || code_byte(s, 0) == 0x0B
            || code_byte(s, 0) == 0x1B || code_byte(s, 0) == 0x2B || code_byte(s, 0) == 0x3B
            || code_byte(s, 0) == 0x0C || code_byte(s, 0) == 0xC5 || code_byte(s, 0) == 0xCD
            || (0xA8 <= code_byte(s, 0) <= 0xAF && code_byte(s, 0) != 0xAE) || code_byte(s, 0)
            == 0xCB || code_byte(s, 0) == 0xE0 || code_byte(s, 0) == 0xE2) ==> s.step() is None,
        code_readable(s, 2) && code_byte(s, 0) == 0xCB && !(0x10 <= code_byte(s, 1) <= 0x17) && !(
        0x40 <= code_byte(s, 1) <= 0x7F && code_byte(s, 1) as int % 8 != 6) ==> s.step() is None,
{
    if code_readable(s, 1) {
        assert(s.mem.can_read((s.regs.pc + 0) as u16));
    }
    if code_readable(s, 2) {
        assert(s.mem.can_read((s.regs.pc + 0) as u16));
        assert(s.mem.can_read((s.regs.pc + 1) as u16));
    }
}

} // verus!
