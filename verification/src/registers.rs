//! The register file of the Game Boy CPU: eight byte registers, the stack
//! pointer and the program counter, the four register pairs built from the
//! byte registers, and the four flags kept in the upper nibble of `F`.
use vstd::prelude::*;

verus! {

/// The flags stored in register `F`.
pub enum Flag {
    /// Zero flag: set when the result of a math operation is zero or two
    /// values match when using the CP instruction.
    Z,
    /// Subtract flag: set if a subtraction was performed in the last math
    /// instruction.
    N,
    /// Half carry flag: set if a carry occurred from the lower nibble in the
    /// last math operation.
    H,
    /// Carry flag: set if a carry occurred from the last math operation or if
    /// register A is the smaller value when executing the CP instruction.
    C,
}

/// The eight byte registers.
pub enum ByteRegister {
    A,
    F,
    B,
    C,
    D,
    E,
    H,
    L,
}

/// The sixteen-bit registers: the four pairs and the two pointers.
pub enum WordRegister {
    AF,
    BC,
    DE,
    HL,
    SP,
    PC,
}

#[derive(Debug)]
pub struct Registers {
    /// accumulator
    pub a: u8,
    /// flags
    pub f: u8,
    pub b: u8,
    pub c: u8,
    pub d: u8,
    pub e: u8,
    pub h: u8,
    pub l: u8,
    /// stack pointer
    pub sp: u16,
    /// program counter
    pub pc: u16,
}

/// The sixteen-bit value whose high byte is `hi` and low byte is `lo`.
pub open spec fn word_of(hi: u8, lo: u8) -> u16 {
    (hi as int * 256 + lo as int) as u16
}

/// The high byte of a sixteen-bit value.
pub open spec fn high_byte(v: u16) -> u8 {
    (v as int / 256) as u8
}

/// The low byte of a sixteen-bit value.
pub open spec fn low_byte(v: u16) -> u8 {
    (v as int % 256) as u8
}

/// The bit of `F` that holds a flag.
pub open spec fn flag_bit(flag: Flag) -> u8 {
    match flag {
        Flag::Z => 0x80,
        Flag::N => 0x40,
        Flag::H => 0x20,
        Flag::C => 0x10,
    }
}

/// Whether `flag` is set in the flag byte `f`.
pub open spec fn flag_is_set(f: u8, flag: Flag) -> bool {
    f & flag_bit(flag) != 0
}

/// The flag byte `f` with `flag` set.
pub open spec fn flag_byte_set(f: u8, flag: Flag) -> u8 {
    f | flag_bit(flag)
}

/// The flag byte `f` with `flag` cleared.
pub open spec fn flag_byte_cleared(f: u8, flag: Flag) -> u8 {
    f & !flag_bit(flag)
}

impl Registers {
    /// The value of a byte register.
    pub open spec fn byte(self, r: ByteRegister) -> u8 {
        match r {
            ByteRegister::A => self.a,
            ByteRegister::F => self.f,
            ByteRegister::B => self.b,
            ByteRegister::C => self.c,
            ByteRegister::D => self.d,
            ByteRegister::E => self.e,
            ByteRegister::H => self.h,
            ByteRegister::L => self.l,
        }
    }

    /// The registers with one byte register replaced.
    pub open spec fn with_byte(self, r: ByteRegister, v: u8) -> Registers {
        match r {
            ByteRegister::A => Registers { a: v, ..self },
            ByteRegister::F => Registers { f: v, ..self },
            ByteRegister::B => Registers { b: v, ..self },
            ByteRegister::C => Registers { c: v, ..self },
            ByteRegister::D => Registers { d: v, ..self },
            ByteRegister::E => Registers { e: v, ..self },
            ByteRegister::H => Registers { h: v, ..self },
            ByteRegister::L => Registers { l: v, ..self },
        }
    }

    /// The value of a sixteen-bit register.
    pub open spec fn word(self, r: WordRegister) -> u16 {
        match r {
            WordRegister::AF => word_of(self.a, self.f),
            WordRegister::BC => word_of(self.b, self.c),
            WordRegister::DE => word_of(self.d, self.e),
            WordRegister::HL => word_of(self.h, self.l),
            WordRegister::SP => self.sp,
            WordRegister::PC => self.pc,
        }
    }

    /// The registers with one sixteen-bit register replaced; a pair is
    /// written as its high byte and its low byte.
    pub open spec fn with_word(self, r: WordRegister, v: u16) -> Registers {
        match r {
            WordRegister::AF => Registers { a: high_byte(v), f: low_byte(v), ..self },
            WordRegister::BC => Registers { b: high_byte(v), c: low_byte(v), ..self },
            WordRegister::DE => Registers { d: high_byte(v), e: low_byte(v), ..self },
            WordRegister::HL => Registers { h: high_byte(v), l: low_byte(v), ..self },
            WordRegister::SP => Registers { sp: v, ..self },
            WordRegister::PC => Registers { pc: v, ..self },
        }
    }

    /// The registers with `flag` set.
    pub open spec fn flag_set(self, flag: Flag) -> Registers {
        Registers { f: flag_byte_set(self.f, flag), ..self }
    }

    /// The registers with `flag` cleared.
    pub open spec fn flag_cleared(self, flag: Flag) -> Registers {
        Registers { f: flag_byte_cleared(self.f, flag), ..self }
    }

    /// The registers after `inc_b(r)`: the half carry flag tells whether
    /// the low nibble carried (it was 0xF), the register wraps around, the
    /// zero flag tells whether the result is zero and the subtract flag is
    /// cleared.  The flags are applied in that order, so for F itself the
    /// new value is written before Z and N are applied to it.
    pub open spec fn after_inc_b(self, r: ByteRegister) -> Registers {
        let v = self.byte(r);
        let s1 = if v & 0x0f == 0x0f {
            self.flag_set(Flag::H)
        } else {
            self.flag_cleared(Flag::H)
        };
        let nv = ((v as int + 1) % 256) as u8;
        let s2 = s1.with_byte(r, nv);
        let s3 = if nv == 0 {
            s2.flag_set(Flag::Z)
        } else {
            s2.flag_cleared(Flag::Z)
        };
        s3.flag_cleared(Flag::N)
    }

    /// The registers after `inc_w(r)`, with the flag rules of `inc_b`: H
    /// from the low nibble, Z from the result, N cleared.
    pub open spec fn after_inc_w(self, r: WordRegister) -> Registers {
        let v = self.word(r);
        let s1 = if v & 0x0f == 0x0f {
            self.flag_set(Flag::H)
        } else {
            self.flag_cleared(Flag::H)
        };
        let nv = ((v as int + 1) % 0x10000) as u16;
        let s2 = s1.with_word(r, nv);
        let s3 = if nv == 0 {
            s2.flag_set(Flag::Z)
        } else {
            s2.flag_cleared(Flag::Z)
        };
        s3.flag_cleared(Flag::N)
    }

    /// The registers after `dec_b(r)` on a non-zero register: the half
    /// carry flag tells whether the low nibble borrowed (it was 0), the
    /// register is decremented, the zero flag tells whether the result is
    /// zero and the subtract flag is set.
    pub open spec fn after_dec_b(self, r: ByteRegister) -> Registers {
        let v = self.byte(r);
        let s1 = if v & 0x0f == 0 {
            self.flag_set(Flag::H)
        } else {
            self.flag_cleared(Flag::H)
        };
        let nv = (v - 1) as u8;
        let s2 = s1.with_byte(r, nv);
        let s3 = if nv == 0 {
            s2.flag_set(Flag::Z)
        } else {
            s2.flag_cleared(Flag::Z)
        };
        s3.flag_set(Flag::N)
    }

    /// The registers after `dec_w(r)` on a non-zero register, with the flag
    /// rules of `dec_b`: H from the low nibble, Z from the result, N set.
    pub open spec fn after_dec_w(self, r: WordRegister) -> Registers {
        let v = self.word(r);
        let s1 = if v & 0x0f == 0 {
            self.flag_set(Flag::H)
        } else {
            self.flag_cleared(Flag::H)
        };
        let nv = (v - 1) as u16;
        let s2 = s1.with_word(r, nv);
        let s3 = if nv == 0 {
            s2.flag_set(Flag::Z)
        } else {
            s2.flag_cleared(Flag::Z)
        };
        s3.flag_set(Flag::N)
    }

    /// The register file at power on: every register is zero.
    pub open spec fn zeroed() -> Registers {
        Registers { a: 0, f: 0, b: 0, c: 0, d: 0, e: 0, h: 0, l: 0, sp: 0, pc: 0 }
    }
}

pub(crate) proof fn lemma_pair_bits(hi: u8, lo: u8)
    ensures
        ((hi as u16) << 8u16) | (lo as u16) == word_of(hi, lo),
{
    assert(((hi as u16) << 8u16) | (lo as u16) == (hi as int * 256 + lo as int) as u16)
        by (bit_vector);
}

pub(crate) proof fn lemma_split_bits(v: u16)
    ensures
        (v >> 8u16) as u8 == high_byte(v),
        v as u8 == low_byte(v),
{
    assert((v >> 8u16) as u8 == (v as int / 256) as u8) by (bit_vector);
    assert(v as u8 == (v as int % 256) as u8) by (bit_vector);
}

impl Registers {
    /// The AF pair.
    pub fn af(&self) -> (r: u16)
        ensures
            r == word_of(self.a, self.f),
    {
        proof {
            lemma_pair_bits(self.a, self.f);
        }
        ((self.a as u16) << 8) | self.f as u16
    }

    /// Writes the AF pair: A gets the high byte, F the low byte.
    pub fn set_af(&mut self, v: u16)
        ensures
            *final(self) == old(self).with_word(WordRegister::AF, v),
    {
        proof {
            lemma_split_bits(v);
        }
        self.a = (v >> 8) as u8;
        self.f = v as u8;
    }

    /// The BC pair.
    pub fn bc(&self) -> (r: u16)
        ensures
            r == word_of(self.b, self.c),
    {
        proof {
            lemma_pair_bits(self.b, self.c);
        }
        ((self.b as u16) << 8) | self.c as u16
    }

    /// Writes the BC pair: B gets the high byte, C the low byte.
    pub fn set_bc(&mut self, v: u16)
        ensures
            *final(self) == old(self).with_word(WordRegister::BC, v),
    {
        proof {
            lemma_split_bits(v);
        }
        self.b = (v >> 8) as u8;
        self.c = v as u8;
    }

    /// The DE pair.
    pub fn de(&self) -> (r: u16)
        ensures
            r == word_of(self.d, self.e),
    {
        proof {
            lemma_pair_bits(self.d, self.e);
        }
        ((self.d as u16) << 8) | self.e as u16
    }

    /// Writes the DE pair: D gets the high byte, E the low byte.
    pub fn set_de(&mut self, v: u16)
        ensures
            *final(self) == old(self).with_word(WordRegister::DE, v),
    {
        proof {
            lemma_split_bits(v);
        }
        self.d = (v >> 8) as u8;
        self.e = v as u8;
    }

    /// The HL pair.
    pub fn hl(&self) -> (r: u16)
        ensures
            r == word_of(self.h, self.l),
    {
        proof {
            lemma_pair_bits(self.h, self.l);
        }
        ((self.h as u16) << 8) | self.l as u16
    }

    /// Writes the HL pair: H gets the high byte, L the low byte.
    pub fn set_hl(&mut self, v: u16)
        ensures
            *final(self) == old(self).with_word(WordRegister::HL, v),
    {
        proof {
            lemma_split_bits(v);
        }
        self.h = (v >> 8) as u8;
        self.l = v as u8;
    }

    /// A register file with every register zero.
    pub fn new() -> (r: Self)
        ensures
            r == Registers::zeroed(),
    {
        Self { a: 0, f: 0, b: 0, c: 0, d: 0, e: 0, h: 0, l: 0, sp: 0, pc: 0 }
    }

    /// Whether `flag` is set in F.
    pub fn get_flag(&self, flag: Flag) -> (r: bool)
        ensures
            r == flag_is_set(self.f, flag),
    {
        match flag {
            Flag::Z => (self.f & 0x80) != 0,
            Flag::N => (self.f & 0x40) != 0,
            Flag::H => (self.f & 0x20) != 0,
            Flag::C => (self.f & 0x10) != 0,
        }
    }

    /// Sets `flag` in F; every other bit of every register is kept.
    pub fn set_flag(&mut self, flag: Flag)
        ensures
            *final(self) == old(self).flag_set(flag),
    {
        match flag {
            Flag::Z => self.f |= 0x80,
            Flag::N => self.f |= 0x40,
            Flag::H => self.f |= 0x20,
            Flag::C => self.f |= 0x10,
        }
    }

    /// Clears `flag` in F; every other bit of every register is kept.
    pub fn clear_flag(&mut self, flag: Flag)
        ensures
            *final(self) == old(self).flag_cleared(flag),
    {
        match flag {
            Flag::Z => self.f &= !0x80u8,
            Flag::N => self.f &= !0x40u8,
            Flag::H => self.f &= !0x20u8,
            Flag::C => self.f &= !0x10u8,
        }
    }

    /// Clears every flag: F becomes zero.
    pub fn clear_flags(&mut self)
        ensures
            *final(self) == (Registers { f: 0, ..*old(self) }),
    {
        self.f = 0;
    }

    /// Increments a byte register, wrapping around: H tells whether the
    /// low nibble carried, Z whether the result is zero, and N is cleared.
    pub fn inc_b(&mut self, register: ByteRegister)
        ensures
            *final(self) == old(self).after_inc_b(register),
    {
        let mut value = match register {
            ByteRegister::A => self.a,
            ByteRegister::F => self.f,
            ByteRegister::B => self.b,
            ByteRegister::C => self.c,
            ByteRegister::D => self.d,
            ByteRegister::E => self.e,
            ByteRegister::H => self.h,
            ByteRegister::L => self.l,
        };

        // Set if carry from bit 3
        if value & 0x0f == 0x0f {
            self.set_flag(Flag::H);
        } else {
            self.clear_flag(Flag::H);
        }

        // Handles overflows
        value = value.wrapping_add(1);
        match register {
            ByteRegister::A => self.a = value,
            ByteRegister::F => self.f = value,
            ByteRegister::B => self.b = value,
            ByteRegister::C => self.c = value,
            ByteRegister::D => self.d = value,
            ByteRegister::E => self.e = value,
            ByteRegister::H => self.h = value,
            ByteRegister::L => self.l = value,
        };

        if value == 0 {
            self.set_flag(Flag::Z);
        } else {
            self.clear_flag(Flag::Z);
        }
        self.clear_flag(Flag::N);
    }

    /// Increments a sixteen-bit register, wrapping around, with the flag
    /// rules of `inc_b`.
    pub fn inc_w(&mut self, register: WordRegister)
        ensures
            *final(self) == old(self).after_inc_w(register),
    {
        let mut value = match register {
            WordRegister::AF => self.af(),
            WordRegister::BC => self.bc(),
            WordRegister::DE => self.de(),
            WordRegister::HL => self.hl(),
            WordRegister::SP => self.sp,
            WordRegister::PC => self.pc,
        };

        // Set if carry from bit 3
        if value & 0x0f == 0x0f {
            self.set_flag(Flag::H);
        } else {
            self.clear_flag(Flag::H);
        }

        // Handles overflows
        value = value.wrapping_add(1);
        match register {
            WordRegister::AF => self.set_af(value),
            WordRegister::BC => self.set_bc(value),
            WordRegister::DE => self.set_de(value),
            WordRegister::HL => self.set_hl(value),
            WordRegister::SP => self.sp = value,
            WordRegister::PC => self.pc = value,
        };

        if value == 0 {
            self.set_flag(Flag::Z);
        } else {
            self.clear_flag(Flag::Z);
        }
        self.clear_flag(Flag::N);
    }

    /// Decrements a non-zero byte register: H tells whether the low nibble
    /// borrowed, Z whether the result is zero, and N is set.
    pub fn dec_b(&mut self, register: ByteRegister)
        requires
            old(self).byte(register) != 0,
        ensures
            *final(self) == old(self).after_dec_b(register),
    {
        let mut value = match register {
            ByteRegister::A => self.a,
            ByteRegister::F => self.f,
            ByteRegister::B => self.b,
            ByteRegister::C => self.c,
            ByteRegister::D => self.d,
            ByteRegister::E => self.e,
            ByteRegister::H => self.h,
            ByteRegister::L => self.l,
        };

        // Set if borrow from bit 4
        if value & 0x0f == 0 {
            self.set_flag(Flag::H);
        } else {
            self.clear_flag(Flag::H);
        }

        value -= 1;
        match register {
            ByteRegister::A => self.a = value,
            ByteRegister::F => self.f = value,
            ByteRegister::B => self.b = value,
            ByteRegister::C => self.c = value,
            ByteRegister::D => self.d = value,
            ByteRegister::E => self.e = value,
            ByteRegister::H => self.h = value,
            ByteRegister::L => self.l = value,
        };

        if value == 0 {
            self.set_flag(Flag::Z);
        } else {
            self.clear_flag(Flag::Z);
        }
        self.set_flag(Flag::N);
    }

    /// Decrements a non-zero sixteen-bit register, with the flag rules of
    /// `dec_b`.
    pub fn dec_w(&mut self, register: WordRegister)
        requires
            old(self).word(register) != 0,
        ensures
            *final(self) == old(self).after_dec_w(register),
    {
        let mut value = match register {
            WordRegister::AF => self.af(),
            WordRegister::BC => self.bc(),
            WordRegister::DE => self.de(),
            WordRegister::HL => self.hl(),
            WordRegister::SP => self.sp,
            WordRegister::PC => self.pc,
        };

        // Set if borrow from bit 4
        if value & 0x0f == 0 {
            self.set_flag(Flag::H);
        } else {
            self.clear_flag(Flag::H);
        }

        value -= 1;
        match register {
            WordRegister::AF => self.set_af(value),
            WordRegister::BC => self.set_bc(value),
            WordRegister::DE => self.set_de(value),
            WordRegister::HL => self.set_hl(value),
            WordRegister::SP => self.sp = value,
            WordRegister::PC => self.pc = value,
        };

        if value == 0 {
            self.set_flag(Flag::Z);
        } else {
            self.clear_flag(Flag::Z);
        }
        self.set_flag(Flag::N);
    }
}

proof fn lemma_flag_masks()
    ensures
        0x80u8 & 0x40u8 == 0 && 0x80u8 & 0x20u8 == 0 && 0x80u8 & 0x10u8 == 0,
        0x40u8 & 0x80u8 == 0 && 0x40u8 & 0x20u8 == 0 && 0x40u8 & 0x10u8 == 0,
        0x20u8 & 0x80u8 == 0 && 0x20u8 & 0x40u8 == 0 && 0x20u8 & 0x10u8 == 0,
        0x10u8 & 0x80u8 == 0 && 0x10u8 & 0x40u8 == 0 && 0x10u8 & 0x20u8 == 0,
{
    assert(0x80u8 & 0x40u8 == 0 && 0x80u8 & 0x20u8 == 0 && 0x80u8 & 0x10u8 == 0 && 0x40u8
        & 0x80u8 == 0 && 0x40u8 & 0x20u8 == 0 && 0x40u8 & 0x10u8 == 0 && 0x20u8 & 0x80u8 == 0
        && 0x20u8 & 0x40u8 == 0 && 0x20u8 & 0x10u8 == 0 && 0x10u8 & 0x80u8 == 0 && 0x10u8
        & 0x40u8 == 0 && 0x10u8 & 0x20u8 == 0) by (bit_vector);
}

proof fn lemma_mask_ops(f: u8, m: u8, k: u8)
    ensures
        m != 0 ==> (f | m) & m != 0,
        (f & !m) & m == 0,
        0u8 & m == 0,
        m & k == 0 ==> (((f | m) & k != 0) == (f & k != 0)),
        m & k == 0 ==> (((f & !m) & k != 0) == (f & k != 0)),
{
    assert(m != 0 ==> (f | m) & m != 0) by (bit_vector);
    assert((f & !m) & m == 0) by (bit_vector);
    assert(0u8 & m == 0) by (bit_vector);
    assert(m & k == 0 ==> (((f | m) & k != 0) == (f & k != 0))) by (bit_vector);
    assert(m & k == 0 ==> (((f & !m) & k != 0) == (f & k != 0))) by (bit_vector);
}

/// Writing a register pair and reading it back gives the written value,
/// and writing a pair with its own value changes nothing.
pub proof fn law_word_write_read(regs: Registers, r: WordRegister, v: u16)
    ensures
        regs.with_word(r, v).word(r) == v,
        regs.with_word(r, regs.word(r)) == regs,
{
}

/// A pair is its high byte followed by its low byte: splitting a pair
/// and joining the halves are inverse to each other.
pub proof fn law_pair_halves(hi: u8, lo: u8, v: u16)
    ensures
        high_byte(word_of(hi, lo)) == hi,
        low_byte(word_of(hi, lo)) == lo,
        word_of(high_byte(v), low_byte(v)) == v,
{
}

/// Setting a flag makes it read as set, clearing it makes it read as
/// clear, and neither changes how any other flag reads.
pub proof fn law_flag_set_clear(f: u8, flag: Flag, other: Flag)
    ensures
        flag_is_set(flag_byte_set(f, flag), flag),
        !flag_is_set(flag_byte_cleared(f, flag), flag),
        flag_bit(other) != flag_bit(flag) ==> flag_is_set(flag_byte_set(f, flag), other)
            == flag_is_set(f, other),
        flag_bit(other) != flag_bit(flag) ==> flag_is_set(flag_byte_cleared(f, flag), other)
            == flag_is_set(f, other),
{
    lemma_flag_masks();
    lemma_mask_ops(f, flag_bit(flag), flag_bit(other));
}

/// After all flags are cleared no flag reads as set.
pub proof fn law_clear_flags(flag: Flag)
    ensures
        !flag_is_set(0, flag),
{
    lemma_mask_ops(0, flag_bit(flag), 0);
}

/// How the four flags read after the flag byte `f` goes through four
/// updates, one per flag, each setting or clearing it: each flag reads as
/// its own update left it.
proof fn lemma_four_updates(f: u8, h: bool, z: bool, n: bool)
    ensures
        ({
            let f1 = if h {
                flag_byte_set(f, Flag::H)
            } else {
                flag_byte_cleared(f, Flag::H)
            };
            let f2 = if z {
                flag_byte_set(f1, Flag::Z)
            } else {
                flag_byte_cleared(f1, Flag::Z)
            };
            let f3 = if n {
                flag_byte_set(f2, Flag::N)
            } else {
                flag_byte_cleared(f2, Flag::N)
            };
            &&& flag_is_set(f3, Flag::H) == h
            &&& flag_is_set(f3, Flag::Z) == z
            &&& flag_is_set(f3, Flag::N) == n
            &&& flag_is_set(f3, Flag::C) == flag_is_set(f, Flag::C)
        }),
{
    lemma_flag_masks();
    let f1 = if h {
        flag_byte_set(f, Flag::H)
    } else {
        flag_byte_cleared(f, Flag::H)
    };
    let f2 = if z {
        flag_byte_set(f1, Flag::Z)
    } else {
        flag_byte_cleared(f1, Flag::Z)
    };
    law_flag_set_clear(f, Flag::H, Flag::H);
    law_flag_set_clear(f, Flag::H, Flag::C);
    law_flag_set_clear(f1, Flag::Z, Flag::H);
    law_flag_set_clear(f1, Flag::Z, Flag::Z);
    law_flag_set_clear(f1, Flag::Z, Flag::C);
    law_flag_set_clear(f2, Flag::N, Flag::H);
    law_flag_set_clear(f2, Flag::N, Flag::Z);
    law_flag_set_clear(f2, Flag::N, Flag::N);
    law_flag_set_clear(f2, Flag::N, Flag::C);
}

/// Incrementing a byte register other than F gives its value plus one,
/// modulo 256; afterwards H tells whether the low nibble carried, Z whether
/// the result is zero, N is clear and C is kept; the other registers apart
/// from F keep their values.
pub proof fn law_inc_b(regs: Registers, r: ByteRegister, other: ByteRegister)
    requires
        r != ByteRegister::F,
    ensures
        regs.after_inc_b(r).byte(r) == (regs.byte(r) + 1) % 256,
        flag_is_set(regs.after_inc_b(r).f, Flag::H) == (regs.byte(r) & 0x0f == 0x0f),
        flag_is_set(regs.after_inc_b(r).f, Flag::Z) == (regs.after_inc_b(r).byte(r) == 0),
        !flag_is_set(regs.after_inc_b(r).f, Flag::N),
        flag_is_set(regs.after_inc_b(r).f, Flag::C) == flag_is_set(regs.f, Flag::C),
        other != r && other != ByteRegister::F ==> regs.after_inc_b(r).byte(other)
            == regs.byte(other),
        regs.after_inc_b(r).sp == regs.sp && regs.after_inc_b(r).pc == regs.pc,
{
    let v = regs.byte(r);
    let nv = ((v as int + 1) % 256) as u8;
    lemma_four_updates(regs.f, v & 0x0f == 0x0f, nv == 0, false);
}

/// Decrementing a non-zero byte register other than F gives its value minus
/// one; afterwards H tells whether the low nibble borrowed, Z whether the
/// result is zero, N is set and C is kept; the other registers apart from F
/// keep their values.
pub proof fn law_dec_b(regs: Registers, r: ByteRegister, other: ByteRegister)
    requires
        r != ByteRegister::F,
        regs.byte(r) != 0,
    ensures
        regs.after_dec_b(r).byte(r) == regs.byte(r) - 1,
        flag_is_set(regs.after_dec_b(r).f, Flag::H) == (regs.byte(r) & 0x0f == 0),
        flag_is_set(regs.after_dec_b(r).f, Flag::Z) == (regs.byte(r) == 1),
        flag_is_set(regs.after_dec_b(r).f, Flag::N),
        flag_is_set(regs.after_dec_b(r).f, Flag::C) == flag_is_set(regs.f, Flag::C),
        other != r && other != ByteRegister::F ==> regs.after_dec_b(r).byte(other)
            == regs.byte(other),
        regs.after_dec_b(r).sp == regs.sp && regs.after_dec_b(r).pc == regs.pc,
{
    let v = regs.byte(r);
    lemma_four_updates(regs.f, v & 0x0f == 0, v == 1, true);
}

/// Incrementing a sixteen-bit register other than AF gives its value plus
/// one, modulo 0x10000; afterwards H tells whether the low nibble carried,
/// Z whether the result is zero, N is clear and C is kept.
pub proof fn law_inc_w(regs: Registers, r: WordRegister)
    requires
        r != WordRegister::AF,
    ensures
        regs.after_inc_w(r).word(r) == (regs.word(r) + 1) % 0x10000,
        flag_is_set(regs.after_inc_w(r).f, Flag::H) == (regs.word(r) & 0x0f == 0x0f),
        flag_is_set(regs.after_inc_w(r).f, Flag::Z) == (regs.after_inc_w(r).word(r) == 0),
        !flag_is_set(regs.after_inc_w(r).f, Flag::N),
        flag_is_set(regs.after_inc_w(r).f, Flag::C) == flag_is_set(regs.f, Flag::C),
{
    let v = regs.word(r);
    let nv = ((v as int + 1) % 0x10000) as u16;
    lemma_four_updates(regs.f, v & 0x0f == 0x0f, nv == 0, false);
}

/// Decrementing a non-zero sixteen-bit register other than AF gives its
/// value minus one; afterwards H tells whether the low nibble borrowed, Z
/// whether the result is zero, N is set and C is kept.
pub proof fn law_dec_w(regs: Registers, r: WordRegister)
    requires
        r != WordRegister::AF,
        regs.word(r) != 0,
    ensures
        regs.after_dec_w(r).word(r) == regs.word(r) - 1,
        flag_is_set(regs.after_dec_w(r).f, Flag::H) == (regs.word(r) & 0x0f == 0),
        flag_is_set(regs.after_dec_w(r).f, Flag::Z) == (regs.word(r) == 1),
        flag_is_set(regs.after_dec_w(r).f, Flag::N),
        flag_is_set(regs.after_dec_w(r).f, Flag::C) == flag_is_set(regs.f, Flag::C),
{
    let v = regs.word(r);
    lemma_four_updates(regs.f, v & 0x0f == 0, v == 1, true);
}

/// Incrementing a byte register other than F and then decrementing it
/// gives back its value, provided the increment does not wrap.
pub proof fn law_inc_then_dec_b(regs: Registers, r: ByteRegister)
    requires
        r != ByteRegister::F,
        regs.byte(r) != 0xff,
    ensures
        regs.after_inc_b(r).byte(r) != 0,
        regs.after_inc_b(r).after_dec_b(r).byte(r) == regs.byte(r),
{
    law_inc_b(regs, r, r);
    law_dec_b(regs.after_inc_b(r), r, r);
}

} // verus!
