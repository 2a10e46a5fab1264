//! Bus dispatch: echo RAM, banking, word access, the stack, the post-boot
//! snapshot and the cartridge decoders.

use gbcore::cartridge::{Cartridge, CartridgeError, Model};
use gbcore::cpu::Cpu;
use gbcore::mmu::Mmu;

fn rom_image(kind: u8, ram_code: u8, len: usize) -> Vec<u8> {
    let mut rom = vec![0u8; len];
    rom[0x147] = kind;
    rom[0x149] = ram_code;
    let mut sum: u8 = 0;
    for i in 0x134..0x14D {
        sum = sum.wrapping_sub(rom[i]).wrapping_sub(1);
    }
    rom[0x14D] = sum;
    rom
}

#[test]
fn echo_ram_mirrors_work_ram() {
    let mut m = Mmu::new();
    m.write_byte(0xC123, 0x5A);
    assert_eq!(m.read_byte(0xE123), 0x5A);
    m.write_byte(0xFDFF, 0xA5);
    assert_eq!(m.read_byte(0xDDFF), 0xA5);
}

#[test]
fn word_round_trip_wram_and_hram() {
    let mut m = Mmu::new();
    m.write_word(0xC800, 0xBEEF);
    assert_eq!(m.read_word(0xC800), 0xBEEF);
    m.write_word(0xFF80, 0x1234);
    assert_eq!(m.read_word(0xFF80), 0x1234);
}

#[test]
fn wram_bank_switch_swaps_contents() {
    let mut m = Mmu::new();
    m.write_byte(0xFF70, 0x03);
    m.write_byte(0xD000, 0xAA);
    m.write_byte(0xFF70, 0x01);
    assert!(m.read_byte(0xD000) != 0xAA);
    m.write_byte(0xFF70, 0x03);
    assert_eq!(m.read_byte(0xD000), 0xAA);
}

#[test]
fn wram_bank_zero_maps_to_one() {
    let mut m = Mmu::new();
    m.write_byte(0xFF70, 0x00);
    assert_eq!(m.read_byte(0xFF70), 0x01);
    m.write_byte(0xFF70, 0x07);
    assert_eq!(m.read_byte(0xFF70), 0x07);
}

#[test]
fn prohibited_area_reads_ff() {
    let m = Mmu::new();
    assert_eq!(m.read_byte(0xFEA0), 0xFF);
    assert_eq!(m.read_byte(0xFEFF), 0xFF);
}

#[test]
fn interrupt_registers_hold_values() {
    let mut m = Mmu::new();
    m.write_byte(0xFFFF, 0x1F);
    m.write_byte(0xFF0F, 0x05);
    assert_eq!(m.read_byte(0xFFFF), 0x1F);
    assert_eq!(m.read_byte(0xFF0F), 0x05);
}

#[test]
fn push_pop_round_trip_restores_sp() {
    let mut cpu = Cpu::new();
    let mut m = Mmu::new();
    cpu.sp = 0xD000;
    cpu.push_word(&mut m, 0xBEEF);
    assert_eq!(cpu.sp, 0xCFFE);
    let v = cpu.pop_word(&mut m);
    assert_eq!(v, 0xBEEF);
    assert_eq!(cpu.sp, 0xD000);
}

#[test]
fn reset_writes_post_boot_snapshot() {
    let mut m = Mmu::new();
    m.reset();
    assert_eq!(m.read_byte(0xFF40), 0x91);
    assert_eq!(m.read_byte(0xFF42), 0x00);
    assert_eq!(m.read_byte(0xFF45), 0x00);
    assert_eq!(m.read_byte(0xFF47), 0xFC);
    assert_eq!(m.read_byte(0xFF48), 0xFF);
    assert_eq!(m.read_byte(0xFF49), 0xFF);
    assert_eq!(m.read_byte(0xFF05), 0x00);
    assert_eq!(m.read_byte(0xFF07), 0x00);
}

#[test]
fn speed_switch_latch_and_toggle() {
    let mut m = Mmu::new();
    assert_eq!(m.read_byte(0xFF4D), 0x00);
    m.write_byte(0xFF4D, 0x01);
    assert_eq!(m.read_byte(0xFF4D), 0x01);
    m.toggle_speed();
    assert_eq!(m.read_byte(0xFF4D), 0x80);
}

#[test]
fn cartridge_too_short_is_rejected() {
    let rom = vec![0u8; 0x100];
    assert_eq!(Cartridge::from_bytes(rom).err(), Some(CartridgeError::TooShort));
}

#[test]
fn cartridge_unknown_type_is_rejected() {
    let rom = rom_image(0xFE, 0, 0x8000);
    assert_eq!(Cartridge::from_bytes(rom).err(), Some(CartridgeError::UnknownMbcType));
}

#[test]
fn cartridge_bad_checksum_is_rejected() {
    let mut rom = rom_image(0x00, 0, 0x8000);
    rom[0x14D] = rom[0x14D].wrapping_add(1);
    assert_eq!(Cartridge::from_bytes(rom).err(), Some(CartridgeError::BadChecksum));
}

#[test]
fn cartridge_header_selects_model() {
    let mut rom = rom_image(0x00, 0, 0x8000);
    rom[0x143] = 0x80;
    let mut sum: u8 = 0;
    for i in 0x134..0x14D {
        sum = sum.wrapping_sub(rom[i]).wrapping_sub(1);
    }
    rom[0x14D] = sum;
    let cart = Cartridge::from_bytes(rom).unwrap();
    assert!(cart.get_model() == Model::Cgb);
}

#[test]
fn plain_rom_reads_through() {
    let mut rom = rom_image(0x00, 0, 0x8000);
    rom[0x2000] = 0x77;
    let mut m = Mmu::new();
    m.load_cartridge(rom).unwrap();
    assert_eq!(m.read_byte(0x2000), 0x77);
    // ROM-area writes are dropped.
    m.write_byte(0x2000, 0x11);
    assert_eq!(m.read_byte(0x2000), 0x77);
}

#[test]
fn mbc1_switches_rom_banks() {
    let mut rom = rom_image(0x01, 0, 0x4000 * 4);
    rom[0x4000] = 0x11;
    rom[0x8000] = 0x22;
    rom[0xC000] = 0x33;
    let mut m = Mmu::new();
    m.load_cartridge(rom).unwrap();
    // Bank register resets to 1.
    assert_eq!(m.read_byte(0x4000), 0x11);
    m.write_byte(0x2000, 0x02);
    assert_eq!(m.read_byte(0x4000), 0x22);
    m.write_byte(0x2000, 0x03);
    assert_eq!(m.read_byte(0x4000), 0x33);
    // A zero write selects bank 1.
    m.write_byte(0x2000, 0x00);
    assert_eq!(m.read_byte(0x4000), 0x11);
}

#[test]
fn mbc1_ram_needs_enable() {
    let rom = rom_image(0x03, 0x02, 0x8000);
    let mut m = Mmu::new();
    m.load_cartridge(rom).unwrap();
    m.write_byte(0xA000, 0x55);
    assert_eq!(m.read_byte(0xA000), 0xFF);
    m.write_byte(0x0000, 0x0A);
    m.write_byte(0xA000, 0x55);
    assert_eq!(m.read_byte(0xA000), 0x55);
    m.write_byte(0x0000, 0x00);
    assert_eq!(m.read_byte(0xA000), 0xFF);
}

#[test]
fn mbc2_banking_and_nibble_ram() {
    let mut rom = rom_image(0x06, 0, 0x4000 * 4);
    rom[0xC000] = 0x44;
    let mut m = Mmu::new();
    m.load_cartridge(rom).unwrap();
    // The bank register answers only writes with address bit 8 set.
    m.write_byte(0x2100, 0x03);
    assert_eq!(m.read_byte(0x4000), 0x44);
    // RAM stays disabled until 0x0A lands in an even-page register write.
    m.write_byte(0xA000, 0x09);
    assert_eq!(m.read_byte(0xA000), 0xFF);
    m.write_byte(0x2000, 0x0A);
    m.write_byte(0xA000, 0x39);
    // Only the low nibble is stored; the upper bits read back set.
    assert_eq!(m.read_byte(0xA000), 0xF9);
    // The 512 half-bytes echo through the whole external-RAM window.
    assert_eq!(m.read_byte(0xA200), 0xF9);
}

#[test]
fn mbc5_nine_bit_rom_bank() {
    let mut rom = rom_image(0x19, 0, 0x4000 * 4);
    rom[0xC000] = 0x99;
    let mut m = Mmu::new();
    m.load_cartridge(rom).unwrap();
    m.write_byte(0x2000, 0x03);
    assert_eq!(m.read_byte(0x4000), 0x99);
    // The high bank bit wraps past the image size back to bank 3 mod 4.
    m.write_byte(0x3000, 0x01);
    m.write_byte(0x2000, 0x03);
    assert_eq!(m.read_byte(0x4000), 0x99);
}
