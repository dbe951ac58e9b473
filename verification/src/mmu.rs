//! The memory map: the address space of the CPU, split into the cartridge
//! ROM, video RAM, the cartridge's external RAM, work RAM and its echo, the
//! sprite table, the I/O registers, high RAM and the interrupt enable
//! register, with the boot ROM laid over the first 256 bytes until it is
//! switched off through I/O register 0xFF50.
use vstd::prelude::*;

use crate::cartridge::{CartView, Cartridge};
use crate::registers::{high_byte, lemma_pair_bits, lemma_split_bits, low_byte, word_of};

verus! {

pub const VRAM_SIZE: usize = 8192;

pub const WRAM_SIZE: usize = 8192;

pub const OAM_SIZE: usize = 160;

pub const IO_SIZE: usize = 128;

pub const HRAM_SIZE: usize = 127;

/// From cartridge, switchable bank via MBC (if any).
pub const ROM_BANKN_START: u16 = 0x4000;

pub const VRAM_START: u16 = 0x8000;

pub const ERAM_START: u16 = 0xA000;

pub const WRAM_BANK0_START: u16 = 0xC000;

/// Only bank 1 in Non-CGB mode. Switchable bank 1~7 in CGB mode.
pub const WRAM_BANKN_START: u16 = 0xD000;

pub const ECHO_START: u16 = 0xE000;

pub const OAM_START: u16 = 0xFE00;

pub const UNUSABLE_START: u16 = 0xFEA0;

pub const IO_START: u16 = 0xFF00;

pub const HRAM_START: u16 = 0xFF80;

pub const IE: u16 = 0xFFFF;

#[derive(Debug)]
pub struct MMU {
    /// 0x0000 - 0x7FFF (Cartridge ROM)
    pub cartridge: Cartridge,
    /// 0x8000 - 0x9FFF
    vram: [u8; VRAM_SIZE],
    // 0xA000 - 0xBFFF (Cartridge RAM)
    /// 0xC000 - 0xDFFF
    wram: [u8; WRAM_SIZE],
    // 0xE000 - 0xFDFF (Echo RAM)
    /// 0xFE00 - 0xFE9F
    oam: [u8; OAM_SIZE],
    /// 0xFF00 - 0xFF7F
    io: [u8; IO_SIZE],
    /// 0xFF80 - 0xFFFE
    hram: [u8; HRAM_SIZE],
    /// 0xFFFF
    ie: u8,
}

/// The contents of the memory map.
pub struct MemView {
    pub cart: CartView,
    pub vram: Seq<u8>,
    pub wram: Seq<u8>,
    pub oam: Seq<u8>,
    pub io: Seq<u8>,
    pub hram: Seq<u8>,
    pub ie: u8,
}

/// The place that an address stands for.  Echo RAM addresses stand for
/// the work RAM cells they mirror.
pub enum Cell {
    Rom(int),
    Vram(int),
    Eram(int),
    Wram(int),
    Oam(int),
    Unusable,
    Io(int),
    Hram(int),
    Ie,
}

/// The place that an address stands for.
pub open spec fn cell(address: u16) -> Cell {
    if address < VRAM_START {
        Cell::Rom(address as int)
    } else if address < ERAM_START {
        Cell::Vram(address - VRAM_START)
    } else if address < WRAM_BANK0_START {
        Cell::Eram(address - ERAM_START)
    } else if address < ECHO_START {
        Cell::Wram(address - WRAM_BANK0_START)
    } else if address < OAM_START {
        Cell::Wram(address - ECHO_START)
    } else if address < UNUSABLE_START {
        Cell::Oam(address - OAM_START)
    } else if address < IO_START {
        Cell::Unusable
    } else if address < HRAM_START {
        Cell::Io(address - IO_START)
    } else if address < IE {
        Cell::Hram(address - HRAM_START)
    } else {
        Cell::Ie
    }
}

impl MemView {
    /// The region sizes are those of the hardware.
    pub open spec fn wf(self) -> bool {
        &&& self.vram.len() == VRAM_SIZE
        &&& self.wram.len() == WRAM_SIZE
        &&& self.oam.len() == OAM_SIZE
        &&& self.io.len() == IO_SIZE
        &&& self.hram.len() == HRAM_SIZE
    }

    /// The boot ROM is mapped over the first 256 bytes while I/O register
    /// 0xFF50 holds zero.
    pub open spec fn bootrom_enabled(self) -> bool {
        self.io[0x50] == 0
    }

    /// Whether a read of `address` succeeds: everything but the unusable
    /// region, and the cartridge's bytes only where the cartridge has them.
    pub open spec fn can_read(self, address: u16) -> bool {
        if self.bootrom_enabled() && address <= 0x00FF {
            true
        } else {
            match cell(address) {
                Cell::Rom(i) => self.cart.can_read_rom(i),
                Cell::Eram(i) => self.cart.has_ram_byte(i),
                Cell::Unusable => false,
                _ => true,
            }
        }
    }

    /// The byte that a read of `address` gives.
    pub open spec fn read(self, address: u16) -> u8 {
        if self.bootrom_enabled() && address <= 0x00FF {
            BOOTSTRAP_ROM@[address as int]
        } else {
            match cell(address) {
                Cell::Rom(i) => self.cart.rom_byte(i),
                Cell::Vram(i) => self.vram[i],
                Cell::Eram(i) => self.cart.ram_byte(i),
                Cell::Wram(i) => self.wram[i],
                Cell::Oam(i) => self.oam[i],
                Cell::Unusable => 0,
                Cell::Io(i) => self.io[i],
                Cell::Hram(i) => self.hram[i],
                Cell::Ie => self.ie,
            }
        }
    }

    /// Whether a write to `address` succeeds: not to ROM, not to the
    /// unusable region, and to the external RAM only where it exists.
    pub open spec fn can_write(self, address: u16) -> bool {
        match cell(address) {
            Cell::Rom(_) => false,
            Cell::Eram(i) => self.cart.has_ram_byte(i),
            Cell::Unusable => false,
            _ => true,
        }
    }

    /// The memory after `value` is written to `address`.
    pub open spec fn write(self, address: u16, value: u8) -> MemView {
        match cell(address) {
            Cell::Vram(i) => MemView { vram: self.vram.update(i, value), ..self },
            Cell::Eram(i) => MemView { cart: self.cart.with_ram_byte(i, value), ..self },
            Cell::Wram(i) => MemView { wram: self.wram.update(i, value), ..self },
            Cell::Oam(i) => MemView { oam: self.oam.update(i, value), ..self },
            Cell::Io(i) => MemView { io: self.io.update(i, value), ..self },
            Cell::Hram(i) => MemView { hram: self.hram.update(i, value), ..self },
            Cell::Ie => MemView { ie: value, ..self },
            _ => self,
        }
    }

    /// Whether a sixteen-bit read at `address` succeeds: both bytes can be
    /// read and the second address does not wrap.
    pub open spec fn can_read_word(self, address: u16) -> bool {
        &&& address < 0xFFFF
        &&& self.can_read(address)
        &&& self.can_read((address + 1) as u16)
    }

    /// A sixteen-bit read: the byte at `address` is the high byte and the
    /// byte after it the low byte.
    pub open spec fn read_word(self, address: u16) -> u16 {
        word_of(self.read(address), self.read((address + 1) as u16))
    }

    /// Whether a sixteen-bit write at `address` succeeds.
    pub open spec fn can_write_word(self, address: u16) -> bool {
        &&& address < 0xFFFF
        &&& self.can_write(address)
        &&& self.can_write((address + 1) as u16)
    }

    /// The memory after a sixteen-bit write: the high byte goes to
    /// `address`, the low byte to the address after it.
    pub open spec fn write_word(self, address: u16, value: u16) -> MemView {
        self.write(address, high_byte(value)).write((address + 1) as u16, low_byte(value))
    }

    /// The memory at power on: no cartridge, every byte zero.
    pub open spec fn power_on() -> MemView {
        MemView {
            cart: CartView::Empty,
            vram: Seq::new(VRAM_SIZE as nat, |i: int| 0u8),
            wram: Seq::new(WRAM_SIZE as nat, |i: int| 0u8),
            oam: Seq::new(OAM_SIZE as nat, |i: int| 0u8),
            io: Seq::new(IO_SIZE as nat, |i: int| 0u8),
            hram: Seq::new(HRAM_SIZE as nat, |i: int| 0u8),
            ie: 0,
        }
    }
}

impl View for MMU {
    type V = MemView;

    closed spec fn view(&self) -> MemView {
        MemView {
            cart: self.cartridge@,
            vram: self.vram@,
            wram: self.wram@,
            oam: self.oam@,
            io: self.io@,
            hram: self.hram@,
            ie: self.ie,
        }
    }
}

impl MMU {
    /// Every memory map has the hardware's region sizes; the laws about
    /// `MemView` apply to every `MMU`.
    pub proof fn lemma_view_wf(&self)
        ensures
            self@.wf(),
    {
    }

    /// The memory at power on: no cartridge, every byte zero.
    pub fn new() -> (r: Self)
        ensures
            r@ == MemView::power_on(),
    {
        let r = Self {
            cartridge: Cartridge::Empty,
            vram: [0; VRAM_SIZE],
            wram: [0; WRAM_SIZE],
            oam: [0; OAM_SIZE],
            io: [0; IO_SIZE],
            hram: [0; HRAM_SIZE],
            ie: 0,
        };
        assert(r@.vram =~= MemView::power_on().vram);
        assert(r@.wram =~= MemView::power_on().wram);
        assert(r@.oam =~= MemView::power_on().oam);
        assert(r@.io =~= MemView::power_on().io);
        assert(r@.hram =~= MemView::power_on().hram);
        r
    }

    /// Puts a cartridge in the slot; nothing else changes.
    pub fn load_cartridge(&mut self, cartridge: Cartridge)
        ensures
            final(self)@ == (MemView { cart: cartridge@, ..old(self)@ }),
    {
        self.cartridge = cartridge
    }

    /// Whether a read of `address` succeeds.
    pub fn can_read(&self, address: u16) -> (r: bool)
        ensures
            r == self@.can_read(address),
    {
        let bootrom_enabled = self.io[(0xFF50 - IO_START) as usize] == 0;
        if bootrom_enabled && address <= 0x00FF {
            true
        } else if address < VRAM_START {
            self.cartridge.can_read_rom(address)
        } else if address >= ERAM_START && address < WRAM_BANK0_START {
            self.cartridge.has_ram_byte(address - ERAM_START)
        } else {
            !(address >= UNUSABLE_START && address < IO_START)
        }
    }

    /// Whether a write to `address` succeeds.
    pub fn can_write(&self, address: u16) -> (r: bool)
        ensures
            r == self@.can_write(address),
    {
        if address < VRAM_START {
            false
        } else if address >= ERAM_START && address < WRAM_BANK0_START {
            self.cartridge.has_ram_byte(address - ERAM_START)
        } else {
            !(address >= UNUSABLE_START && address < IO_START)
        }
    }

    /// The byte at `address`; the read must succeed.
    pub fn read_byte(&self, address: u16) -> (r: u8)
        requires
            self@.can_read(address),
        ensures
            r == self@.read(address),
    {
        let bootrom_enabled = self.io[(0xFF50 - IO_START) as usize] == 0;
        if bootrom_enabled && address <= 0x00FF {
            return BOOTSTRAP_ROM[address as usize];
        } else if address < VRAM_START {
            return self.cartridge.read_rom(address);
        } else if address >= VRAM_START && address < ERAM_START {
            return self.vram[(address - VRAM_START) as usize];
        } else if address >= ERAM_START && address < WRAM_BANK0_START {
            return self.cartridge.read_ram(address - ERAM_START);
        } else if address >= WRAM_BANK0_START && address < ECHO_START {
            return self.wram[(address - WRAM_BANK0_START) as usize];
        } else if address >= ECHO_START && address < OAM_START {
            return self.wram[(address - ECHO_START) as usize];
        } else if address >= OAM_START && address < UNUSABLE_START {
            return self.oam[(address - OAM_START) as usize];
        } else if address >= IO_START && address < HRAM_START {
            return self.io[(address - IO_START) as usize];
        } else if address >= HRAM_START && address < IE {
            return self.hram[(address - HRAM_START) as usize];
        } else if address == IE {
            return self.ie;
        } else {
            vstd::pervasive::unreached()
        }
    }

    /// The sixteen-bit value at `address`: the byte there is the high byte,
    /// the byte after it the low byte.
    pub fn read_word(&self, address: u16) -> (r: u16)
        requires
            self@.can_read_word(address),
        ensures
            r == self@.read_word(address),
    {
        let hi = self.read_byte(address);
        let lo = self.read_byte(address + 1);
        proof {
            lemma_pair_bits(hi, lo);
        }
        ((hi as u16) << 8) | lo as u16
    }

    /// Writes `value` to `address`; the write must succeed.
    pub fn write_byte(&mut self, address: u16, value: u8)
        requires
            old(self)@.can_write(address),
        ensures
            final(self)@ == old(self)@.write(address, value),
    {
        if address < VRAM_START {
            vstd::pervasive::unreached()
        } else if address >= VRAM_START && address < ERAM_START {
            self.vram[(address - VRAM_START) as usize] = value;
        } else if address >= ERAM_START && address < WRAM_BANK0_START {
            self.cartridge.write(address - ERAM_START, value);
        } else if address >= WRAM_BANK0_START && address < ECHO_START {
            self.wram[(address - WRAM_BANK0_START) as usize] = value;
        } else if address >= ECHO_START && address < OAM_START {
            self.wram[(address - ECHO_START) as usize] = value;
        } else if address >= OAM_START && address < UNUSABLE_START {
            self.oam[(address - OAM_START) as usize] = value;
        } else if address >= IO_START && address < HRAM_START {
            self.io[(address - IO_START) as usize] = value;
        } else if address >= HRAM_START && address < IE {
            self.hram[(address - HRAM_START) as usize] = value;
        } else if address == IE {
            self.ie = value;
        } else {
            vstd::pervasive::unreached()
        }
    }

    /// Writes a sixteen-bit value: the high byte to `address`, the low byte
    /// to the address after it.
    pub fn write_word(&mut self, address: u16, value: u16)
        requires
            old(self)@.can_write_word(address),
        ensures
            final(self)@ == old(self)@.write_word(address, value),
    {
        proof {
            lemma_split_bits(value);
        }
        self.write_byte(address, (value >> 8) as u8);
        self.write_byte(address + 1, value as u8);
    }
}

/// What a read of each address gives: while I/O register 0xFF50 holds zero
/// the first 256 addresses read the boot ROM; otherwise addresses below
/// 0x8000 read the cartridge ROM wherever it has the byte, 0x8000 to
/// 0x9FFF video RAM, 0xA000 to 0xBFFF the cartridge's RAM wherever it has
/// the byte, 0xC000 to 0xDFFF work RAM, 0xE000 to 0xFDFF work RAM again
/// (0x2000 lower), 0xFE00 to 0xFE9F the sprite table, 0xFF00 to 0xFF7F the
/// I/O registers, 0xFF80 to 0xFFFE high RAM and 0xFFFF the interrupt
/// enable register; 0xFEA0 to 0xFEFF cannot be read.
pub proof fn law_memory_map_reads(m: MemView, address: u16)
    ensures
        m.io[0x50] == 0 && address <= 0x00FF ==> m.can_read(address) && m.read(address)
            == BOOTSTRAP_ROM@[address as int],
        !(m.io[0x50] == 0 && address <= 0x00FF) && address < 0x8000 ==> {
            &&& m.cart is Empty ==> !m.can_read(address)
            &&& m.cart matches CartView::Loaded { rom, .. } ==> (m.can_read(address) <==> address
                < rom.len()) && (address < rom.len() ==> m.read(address) == rom[address as int])
        },
        0x8000 <= address < 0xA000 ==> m.can_read(address) && m.read(address) == m.vram[address
            - 0x8000],
        0xA000 <= address < 0xC000 ==> {
            &&& m.cart is Empty ==> !m.can_read(address)
            &&& m.cart matches CartView::Loaded { ram, .. } ==> (m.can_read(address) <==> address
                - 0xA000 < ram.len()) && (address - 0xA000 < ram.len() ==> m.read(address)
                == ram[address - 0xA000])
        },
        0xC000 <= address < 0xE000 ==> m.can_read(address) && m.read(address) == m.wram[address
            - 0xC000],
        0xE000 <= address < 0xFE00 ==> m.can_read(address) && m.read(address) == m.wram[address
            - 0xE000],
        0xFE00 <= address < 0xFEA0 ==> m.can_read(address) && m.read(address) == m.oam[address
            - 0xFE00],
        0xFEA0 <= address < 0xFF00 ==> !m.can_read(address),
        0xFF00 <= address < 0xFF80 ==> m.can_read(address) && m.read(address) == m.io[address
            - 0xFF00],
        0xFF80 <= address < 0xFFFF ==> m.can_read(address) && m.read(address) == m.hram[address
            - 0xFF80],
        address == 0xFFFF ==> m.can_read(address) && m.read(address) == m.ie,
{
}

/// Which addresses can be written and what a write changes: never below
/// 0x8000 (ROM) nor from 0xFEA0 to 0xFEFF; 0x8000 to 0x9FFF set a byte of
/// video RAM, 0xA000 to 0xBFFF a byte of the cartridge's RAM where it has
/// one, 0xC000 to 0xDFFF and their echo 0xE000 to 0xFDFF a byte of work
/// RAM, 0xFE00 to 0xFE9F of the sprite table, 0xFF00 to 0xFF7F an I/O
/// register, 0xFF80 to 0xFFFE high RAM, and 0xFFFF the interrupt enable
/// register; nothing else changes.
pub proof fn law_memory_map_writes(m: MemView, address: u16, value: u8)
    ensures
        address < 0x8000 ==> !m.can_write(address),
        0xFEA0 <= address < 0xFF00 ==> !m.can_write(address),
        0x8000 <= address < 0xA000 ==> m.can_write(address) && m.write(address, value) == (MemView {
            vram: m.vram.update(address - 0x8000, value),
            ..m
        }),
        0xA000 <= address < 0xC000 ==> {
            &&& m.cart is Empty ==> !m.can_write(address)
            &&& m.cart matches CartView::Loaded { rom, ram } ==> (m.can_write(address) <==> address
                - 0xA000 < ram.len()) && m.write(address, value) == (MemView {
                cart: CartView::Loaded { rom, ram: ram.update(address - 0xA000, value) },
                ..m
            })
        },
        0xC000 <= address < 0xE000 ==> m.can_write(address) && m.write(address, value) == (MemView {
            wram: m.wram.update(address - 0xC000, value),
            ..m
        }),
        0xE000 <= address < 0xFE00 ==> m.can_write(address) && m.write(address, value) == (MemView {
            wram: m.wram.update(address - 0xE000, value),
            ..m
        }),
        0xFE00 <= address < 0xFEA0 ==> m.can_write(address) && m.write(address, value) == (MemView {
            oam: m.oam.update(address - 0xFE00, value),
            ..m
        }),
        0xFF00 <= address < 0xFF80 ==> m.can_write(address) && m.write(address, value) == (MemView {
            io: m.io.update(address - 0xFF00, value),
            ..m
        }),
        0xFF80 <= address < 0xFFFF ==> m.can_write(address) && m.write(address, value) == (MemView {
            hram: m.hram.update(address - 0xFF80, value),
            ..m
        }),
        address == 0xFFFF ==> m.can_write(address) && m.write(address, value) == (MemView {
            ie: value,
            ..m
        }),
{
}

/// A byte written to a writable address is what a read of that address
/// gives back.
pub proof fn law_read_after_write(m: MemView, address: u16, value: u8)
    requires
        m.wf(),
        m.can_write(address),
    ensures
        m.write(address, value).can_read(address),
        m.write(address, value).read(address) == value,
{
}

/// A write leaves every address that stands for another place as it was,
/// for reading (where a read succeeds); the one exception is that a write to
/// 0xFF50 switches the boot ROM, and with it what the first 256 addresses
/// read.
pub proof fn law_write_frame(m: MemView, address: u16, value: u8, other: u16)
    requires
        m.wf(),
        m.can_write(address),
        cell(address) != cell(other),
        address != 0xFF50 || other > 0x00FF,
    ensures
        m.write(address, value).wf(),
        m.write(address, value).can_read(other) == m.can_read(other),
        m.can_read(other) ==> m.write(address, value).read(other) == m.read(other),
{
}

/// A write never changes which addresses can be written.
pub proof fn law_write_keeps_writability(m: MemView, address: u16, value: u8, other: u16)
    requires
        m.can_write(address),
    ensures
        m.write(address, value).can_write(other) == m.can_write(other),
{
}

/// Echo RAM mirrors work RAM: each address from 0xE000 below 0xFE00 reads
/// and writes the work RAM byte 0x2000 below it.
pub proof fn law_echo_mirrors_wram(m: MemView, offset: u16, value: u8)
    requires
        m.wf(),
        offset < 0x1E00,
    ensures
        m.can_read((0xE000 + offset) as u16),
        m.read((0xE000 + offset) as u16) == m.read((0xC000 + offset) as u16),
        m.write((0xE000 + offset) as u16, value) == m.write((0xC000 + offset) as u16, value),
{
}

/// A sixteen-bit value written to a writable pair of addresses is what a
/// sixteen-bit read there gives back.
pub proof fn law_read_word_after_write_word(m: MemView, address: u16, value: u16)
    requires
        m.wf(),
        m.can_write_word(address),
    ensures
        m.write_word(address, value).can_read_word(address),
        m.write_word(address, value).read_word(address) == value,
{
    let next = (address + 1) as u16;
    let m1 = m.write(address, high_byte(value));
    law_read_after_write(m, address, high_byte(value));
    law_write_frame(m, address, high_byte(value), next);
    law_write_keeps_writability(m, address, high_byte(value), next);
    law_read_after_write(m1, next, low_byte(value));
    law_write_frame(m1, next, low_byte(value), address);
}

/// While I/O register 0xFF50 holds zero the first 256 addresses read the
/// boot ROM; once a non-zero value is written there they read the
/// cartridge ROM.
pub proof fn law_boot_rom_switch(m: MemView, address: u16, value: u8)
    requires
        m.wf(),
        address <= 0x00FF,
        value != 0,
    ensures
        m.bootrom_enabled() ==> m.can_read(address) && m.read(address)
            == BOOTSTRAP_ROM@[address as int],
        m.write(0xFF50, value).can_read(address) == m.cart.can_read_rom(address as int),
        m.write(0xFF50, value).read(address) == m.cart.rom_byte(address as int),
{
}

pub const BOOTSTRAP_ROM: [u8; 256] = [
    0x31, 0xFE, 0xFF, 0xAF, 0x21, 0xFF, 0x9F, 0x32, 0xCB, 0x7C, 0x20, 0xFB, 0x21, 0x26, 0xFF, 0x0E,
    0x11, 0x3E, 0x80, 0x32, 0xE2, 0x0C, 0x3E, 0xF3, 0xE2, 0x32, 0x3E, 0x77, 0x77, 0x3E, 0xFC, 0xE0,
    0x47, 0x11, 0x04, 0x01, 0x21, 0x10, 0x80, 0x1A, 0xCD, 0x95, 0x00, 0xCD, 0x96, 0x00, 0x13, 0x7B,
    0xFE, 0x34, 0x20, 0xF3, 0x11, 0xD8, 0x00, 0x06, 0x08, 0x1A, 0x13, 0x22, 0x23, 0x05, 0x20, 0xF9,
    0x3E, 0x19, 0xEA, 0x10, 0x99, 0x21, 0x2F, 0x99, 0x0E, 0x0C, 0x3D, 0x28, 0x08, 0x32, 0x0D, 0x20,
    0xF9, 0x2E, 0x0F, 0x18, 0xF3, 0x67, 0x3E, 0x64, 0x57, 0xE0, 0x42, 0x3E, 0x91, 0xE0, 0x40, 0x04,
    0x1E, 0x02, 0x0E, 0x0C, 0xF0, 0x44, 0xFE, 0x90, 0x20, 0xFA, 0x0D, 0x20, 0xF7, 0x1D, 0x20, 0xF2,
    0x0E, 0x13, 0x24, 0x7C, 0x1E, 0x83, 0xFE, 0x62, 0x28, 0x06, 0x1E, 0xC1, 0xFE, 0x64, 0x20, 0x06,
    0x7B, 0xE2, 0x0C, 0x3E, 0x87, 0xE2, 0xF0, 0x42, 0x90, 0xE0, 0x42, 0x15, 0x20, 0xD2, 0x05, 0x20,
    0x4F, 0x16, 0x20, 0x18, 0xCB, 0x4F, 0x06, 0x04, 0xC5, 0xCB, 0x11, 0x17, 0xC1, 0xCB, 0x11, 0x17,
    0x05, 0x20, 0xF5, 0x22, 0x23, 0x22, 0x23, 0xC9, 0xCE, 0xED, 0x66, 0x66, 0xCC, 0x0D, 0x00, 0x0B,
    0x03, 0x73, 0x00, 0x83, 0x00, 0x0C, 0x00, 0x0D, 0x00, 0x08, 0x11, 0x1F, 0x88, 0x89, 0x00, 0x0E,
    0xDC, 0xCC, 0x6E, 0xE6, 0xDD, 0xDD, 0xD9, 0x99, 0xBB, 0xBB, 0x67, 0x63, 0x6E, 0x0E, 0xEC, 0xCC,
    0xDD, 0xDC, 0x99, 0x9F, 0xBB, 0xB9, 0x33, 0x3E, 0x3c, 0x42, 0xB9, 0xA5, 0xB9, 0xA5, 0x42, 0x4C,
    0x21, 0x04, 0x01, 0x11, 0xA8, 0x00, 0x1A, 0x13, 0xBE, 0x20, 0xFE, 0x23, 0x7D, 0xFE, 0x34, 0x20,
    0xF5, 0x06, 0x19, 0x78, 0x86, 0x23, 0x05, 0x20, 0xFB, 0x86, 0x20, 0xFE, 0x3E, 0x01, 0xE0, 0x50,
];

} // verus!
