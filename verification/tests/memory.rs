use rustboy::cartridge::Cartridge;
use rustboy::mmu::{BOOTSTRAP_ROM, MMU};

fn rom_image() -> Vec<u8> {
    let mut rom = vec![0u8; 0x8000];
    for (i, b) in rom.iter_mut().enumerate() {
        *b = (i % 251) as u8;
    }
    rom
}

#[test]
fn boot_rom_is_mapped_at_power_on() {
    let mmu = MMU::new();
    assert!(mmu.can_read(0x0000));
    assert_eq!(mmu.read_byte(0x0000), 0x31);
    assert_eq!(mmu.read_byte(0x00FF), 0x50);
    assert_eq!(mmu.read_byte(0x0004), BOOTSTRAP_ROM[4]);
}

#[test]
fn cartridge_rom_cannot_be_read_without_a_cartridge() {
    let mmu = MMU::new();
    assert!(!mmu.can_read(0x0100));
    assert!(!mmu.can_read(0x7FFF));
    assert!(!mmu.can_read(0xA000));
}

#[test]
fn unusable_region_can_be_neither_read_nor_written() {
    let mmu = MMU::new();
    assert!(!mmu.can_read(0xFEA0));
    assert!(!mmu.can_read(0xFEFF));
    assert!(!mmu.can_write(0xFEA0));
    assert!(mmu.can_read(0xFE9F));
    assert!(mmu.can_read(0xFF00));
}

#[test]
fn rom_cannot_be_written() {
    let mmu = MMU::new();
    assert!(!mmu.can_write(0x0000));
    assert!(!mmu.can_write(0x7FFF));
    assert!(mmu.can_write(0x8000));
}

#[test]
fn power_on_memory_is_zero() {
    let mmu = MMU::new();
    for address in [0x8000u16, 0x9FFF, 0xC000, 0xDFFF, 0xE000, 0xFE00, 0xFF00, 0xFF80, 0xFFFE, 0xFFFF] {
        assert_eq!(mmu.read_byte(address), 0);
    }
}

#[test]
fn reads_give_back_writes_in_every_writable_region() {
    let mut mmu = MMU::new();
    let cases = [
        (0x8000u16, 1u8),
        (0x9FFF, 2),
        (0xC000, 3),
        (0xDFFF, 4),
        (0xFE00, 5),
        (0xFE9F, 6),
        (0xFF00, 7),
        (0xFF7F, 8),
        (0xFF80, 9),
        (0xFFFE, 10),
        (0xFFFF, 11),
    ];
    for (address, value) in cases {
        mmu.write_byte(address, value);
    }
    for (address, value) in cases {
        assert_eq!(mmu.read_byte(address), value);
    }
}

#[test]
fn echo_ram_mirrors_work_ram() {
    let mut mmu = MMU::new();
    mmu.write_byte(0xC123, 0x42);
    assert_eq!(mmu.read_byte(0xE123), 0x42);
    mmu.write_byte(0xFDFF, 0x24);
    assert_eq!(mmu.read_byte(0xDDFF), 0x24);
}

#[test]
fn a_write_leaves_neighbours_alone() {
    let mut mmu = MMU::new();
    mmu.write_byte(0xC001, 0x77);
    assert_eq!(mmu.read_byte(0xC000), 0);
    assert_eq!(mmu.read_byte(0xC002), 0);
    assert_eq!(mmu.read_byte(0x8001), 0);
}

#[test]
fn words_are_stored_high_byte_first() {
    let mut mmu = MMU::new();
    mmu.write_word(0xC010, 0xBEEF);
    assert_eq!(mmu.read_byte(0xC010), 0xBE);
    assert_eq!(mmu.read_byte(0xC011), 0xEF);
    assert_eq!(mmu.read_word(0xC010), 0xBEEF);
}

#[test]
fn boot_rom_switch_uncovers_the_cartridge() {
    let mut mmu = MMU::new();
    mmu.load_cartridge(Cartridge::from_rom(rom_image()));
    assert_eq!(mmu.read_byte(0x0000), 0x31);
    assert_eq!(mmu.read_byte(0x0100), (0x100 % 251) as u8);
    mmu.write_byte(0xFF50, 1);
    assert_eq!(mmu.read_byte(0x0000), 0);
    assert_eq!(mmu.read_byte(0x00FF), (0xFF % 251) as u8);
    assert_eq!(mmu.read_byte(0x7FFF), (0x7FFF % 251) as u8);
}

#[test]
fn cartridge_ram_is_reached_through_its_window() {
    let mut mmu = MMU::new();
    mmu.load_cartridge(Cartridge::Loaded { rom: rom_image(), ram: vec![0u8; 0x2000] });
    assert!(mmu.can_write(0xA000));
    mmu.write_byte(0xA000, 0x11);
    mmu.write_byte(0xBFFF, 0x22);
    assert_eq!(mmu.read_byte(0xA000), 0x11);
    assert_eq!(mmu.read_byte(0xBFFF), 0x22);
}

#[test]
fn cartridge_without_ram_refuses_ram_access() {
    let mut mmu = MMU::new();
    mmu.load_cartridge(Cartridge::from_rom(rom_image()));
    assert!(!mmu.can_read(0xA000));
    assert!(!mmu.can_write(0xA000));
}

#[test]
fn cartridge_reads_and_writes() {
    let mut cart = Cartridge::Loaded { rom: vec![1, 2, 3], ram: vec![0, 0] };
    assert_eq!(cart.read_rom(2), 3);
    assert!(cart.can_read_rom(2));
    assert!(!cart.can_read_rom(3));
    assert!(cart.has_ram_byte(1));
    assert!(!cart.has_ram_byte(2));
    cart.write(1, 9);
    assert_eq!(cart.read_ram(1), 9);
    assert_eq!(cart.read_ram(0), 0);
    assert_eq!(cart.read_rom(1), 2);
    let empty = Cartridge::Empty;
    assert!(!empty.can_read_rom(0));
    assert!(!empty.has_ram_byte(0));
}
