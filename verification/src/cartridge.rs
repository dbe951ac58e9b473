//! The cartridge slot: either empty, or a cartridge with its ROM image and
//! its external RAM.
use vstd::prelude::*;

verus! {

#[derive(Debug)]
pub enum Cartridge {
    Empty,
    Loaded { rom: Vec<u8>, ram: Vec<u8> },
}

/// What a cartridge slot holds, as sequences of bytes.
pub enum CartView {
    Empty,
    Loaded { rom: Seq<u8>, ram: Seq<u8> },
}

impl CartView {
    /// Whether byte `address` of the ROM can be read: a cartridge is in
    /// the slot and its ROM reaches that far.
    pub open spec fn can_read_rom(self, address: int) -> bool {
        match self {
            CartView::Empty => false,
            CartView::Loaded { rom, .. } => 0 <= address < rom.len(),
        }
    }

    /// Byte `address` of the ROM.
    pub open spec fn rom_byte(self, address: int) -> u8 {
        match self {
            CartView::Empty => 0,
            CartView::Loaded { rom, .. } => rom[address],
        }
    }

    /// Whether byte `address` of the external RAM exists.
    pub open spec fn has_ram_byte(self, address: int) -> bool {
        match self {
            CartView::Empty => false,
            CartView::Loaded { ram, .. } => 0 <= address < ram.len(),
        }
    }

    /// Byte `address` of the external RAM.
    pub open spec fn ram_byte(self, address: int) -> u8 {
        match self {
            CartView::Empty => 0,
            CartView::Loaded { ram, .. } => ram[address],
        }
    }

    /// The ROM image; empty when no cartridge is in the slot.
    pub open spec fn rom(self) -> Seq<u8> {
        match self {
            CartView::Empty => Seq::empty(),
            CartView::Loaded { rom, .. } => rom,
        }
    }

    /// The slot after byte `address` of the external RAM is set to `value`.
    pub open spec fn with_ram_byte(self, address: int, value: u8) -> CartView {
        match self {
            CartView::Empty => CartView::Empty,
            CartView::Loaded { rom, ram } => CartView::Loaded { rom, ram: ram.update(address, value) },
        }
    }
}

impl View for Cartridge {
    type V = CartView;

    open spec fn view(&self) -> CartView {
        match self {
            Cartridge::Empty => CartView::Empty,
            Cartridge::Loaded { rom, ram } => CartView::Loaded { rom: rom@, ram: ram@ },
        }
    }
}

/// A slot without a cartridge has no byte to read or write; a loaded
/// cartridge has exactly the bytes of its ROM image and of its RAM.
pub proof fn law_cartridge_bytes(cart: CartView, address: int)
    ensures
        cart is Empty ==> !cart.can_read_rom(address) && !cart.has_ram_byte(address),
        cart matches CartView::Loaded { rom, ram } ==> {
            &&& cart.can_read_rom(address) <==> 0 <= address < rom.len()
            &&& cart.rom_byte(address) == rom[address]
            &&& cart.has_ram_byte(address) <==> 0 <= address < ram.len()
            &&& cart.ram_byte(address) == ram[address]
        },
{
}

/// Writing a byte of the external RAM and reading it back gives the byte
/// written; every other byte of the RAM and the whole ROM are unchanged.
pub proof fn law_ram_write_read(cart: CartView, address: int, value: u8, other: int)
    requires
        cart.has_ram_byte(address),
    ensures
        cart.with_ram_byte(address, value).has_ram_byte(address),
        cart.with_ram_byte(address, value).ram_byte(address) == value,
        other != address && cart.has_ram_byte(other) ==> cart.with_ram_byte(address, value).ram_byte(
            other,
        ) == cart.ram_byte(other),
        cart.with_ram_byte(address, value).has_ram_byte(other) == cart.has_ram_byte(other),
        cart.with_ram_byte(address, value).can_read_rom(other) == cart.can_read_rom(other),
        cart.with_ram_byte(address, value).rom_byte(other) == cart.rom_byte(other),
{
}

impl Cartridge {
    /// A cartridge made from a ROM image, with no external RAM.
    pub fn from_rom(data: Vec<u8>) -> (r: Self)
        ensures
            r@ == (CartView::Loaded { rom: data@, ram: Seq::empty() }),
    {
        Cartridge::Loaded { rom: data, ram: Vec::new() }
    }

    /// Byte `address` of the ROM; the slot must hold a cartridge whose ROM
    /// reaches that far.
    pub fn read_rom(&self, address: u16) -> (r: u8)
        requires
            self@.can_read_rom(address as int),
        ensures
            r == self@.rom_byte(address as int),
    {
        match self {
            Self::Empty => vstd::pervasive::unreached(),
            Self::Loaded { rom, ram: _ } => rom[address as usize],
        }
    }

    /// Byte `address` of the external RAM, which must exist.
    pub fn read_ram(&self, address: u16) -> (r: u8)
        requires
            self@.has_ram_byte(address as int),
        ensures
            r == self@.ram_byte(address as int),
    {
        match self {
            Self::Empty => vstd::pervasive::unreached(),
            Self::Loaded { rom: _, ram } => ram[address as usize],
        }
    }

    /// Sets byte `address` of the external RAM, which must exist.
    pub fn write(&mut self, address: u16, value: u8)
        requires
            old(self)@.has_ram_byte(address as int),
        ensures
            final(self)@ == old(self)@.with_ram_byte(address as int, value),
    {
        match self {
            Self::Empty => vstd::pervasive::unreached(),
            Self::Loaded { rom: _, ram } => ram[address as usize] = value,
        }
    }

    /// Whether the slot holds a cartridge whose ROM reaches byte `address`.
    pub fn can_read_rom(&self, address: u16) -> (r: bool)
        ensures
            r == self@.can_read_rom(address as int),
    {
        match self {
            Self::Empty => false,
            Self::Loaded { rom, ram: _ } => (address as usize) < rom.len(),
        }
    }

    /// Whether the slot holds a cartridge whose external RAM has byte
    /// `address`.
    pub fn has_ram_byte(&self, address: u16) -> (r: bool)
        ensures
            r == self@.has_ram_byte(address as int),
    {
        match self {
            Self::Empty => false,
            Self::Loaded { rom: _, ram } => (address as usize) < ram.len(),
        }
    }
}

} // verus!
