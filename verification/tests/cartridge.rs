use pogboy::interrupt::Interrupt as CpuInterrupt;
use pogboy::memory::cartridge::{Cartridge, CartridgeInfo};
use pogboy::memory::interrupt::Interrupt as BusInterrupt;
use pogboy::memory::mbc::{Mbc1, Mbc2, Mbc3, Mbc5, MbcNone, MbcType};

fn banked_rom(banks: usize) -> Vec<u8> {
    let mut rom = vec![0u8; banks * 0x4000];
    for bank in 0..banks {
        rom[bank * 0x4000] = bank as u8;
        rom[bank * 0x4000 + 1] = 0xA0 + bank as u8;
    }
    rom
}

#[test]
fn rom_only_maps_rom_and_ram() {
    let mut m = MbcNone::new(banked_rom(2));
    assert_eq!(m.read(0x4000), 1);
    assert_eq!(m.read(0x8000), 0);
    m.write(0x8123, 0x55);
    assert_eq!(m.read(0x8123), 0x55);
    m.write(0x0000, 0x66);
    assert_eq!(m.read(0x0000), 0);
    m.write(0xBFFF, 0x77);
    assert_eq!(m.read(0xBFFF), 0x77);
}

#[test]
fn mbc1_switches_rom_banks_and_skips_the_dead_ones() {
    let mut m = Mbc1::new(banked_rom(0x80));
    assert_eq!(m.read(0x4000), 1);
    m.write(0x2000, 0x05);
    assert_eq!(m.read(0x4000), 5);
    m.write(0x2000, 0x00);
    assert_eq!(m.read(0x4000), 1);
    m.write(0x4000, 0x01);
    assert_eq!(m.read(0x4000), 0x21);
    m.write(0x2000, 0x03);
    assert_eq!(m.read(0x4000), 0x23);
    assert_eq!(m.read(0x0000), 0);
}

#[test]
fn mbc1_ram_needs_enabling_and_is_banked() {
    let mut m = Mbc1::new(banked_rom(2));
    m.write(0xA000, 0x12);
    assert_eq!(m.read(0xA000), 0);
    m.write(0x0000, 0x0A);
    m.write(0xA000, 0x12);
    assert_eq!(m.read(0xA000), 0x12);
    m.write(0x6000, 0x01);
    m.write(0x4000, 0x01);
    assert_eq!(m.read(0xA000), 0);
    m.write(0xA001, 0x34);
    assert_eq!(m.read(0xA001), 0x34);
    m.write(0x4000, 0x00);
    assert_eq!(m.read(0xA000), 0x12);
    m.write(0x0000, 0x00);
    assert_eq!(m.read(0xA000), 0);
}

#[test]
fn mbc2_keeps_half_bytes_and_selects_with_address_bit_8() {
    let mut m = Mbc2::new(banked_rom(2));
    m.write(0x0000, 0x0A);
    m.write(0xA010, 0xAB);
    assert_eq!(m.read(0xA010), 0x0B);
    m.write(0x0100, 0x00);
    assert_eq!(m.read(0xA010), 0x0B);
    m.write(0x2100, 0x00);
    assert_eq!(m.read(0x4000), 0xA0);
    assert_eq!(m.read(0x4000 - 1), 0);
    assert_eq!(m.read(0xC000), 0);
}

#[test]
fn mbc3_banks_ram_and_clock_registers() {
    let mut m = Mbc3::new(banked_rom(4));
    assert_eq!(m.read(0x4000), 1);
    m.write(0x2000, 0x83);
    assert_eq!(m.read(0x4000), 3);
    m.write(0x4000, 0x02);
    m.write(0xA005, 0x99);
    assert_eq!(m.read(0xA005), 0x99);
    m.write(0x4000, 0x08);
    m.write(0xA000, 0x3B);
    assert_eq!(m.read(0xA000), 0x3B);
    m.write(0x4000, 0x0C);
    m.write(0xA000, 0x01);
    assert_eq!(m.read(0xBFFF), 0x01);
    m.write(0x4000, 0x02);
    assert_eq!(m.read(0xA005), 0x99);
    m.write(0x4000, 0x05);
    assert_eq!(m.read(0xA000), 0);
}

#[test]
fn mbc5_ram_reads_as_zero_and_rom_bank_has_nine_bits() {
    let mut m = Mbc5::new(banked_rom(0x102));
    assert_eq!(m.read(0x4001), 0xA0);
    m.write(0x2000, 0x01);
    m.write(0x3000, 0x01);
    assert_eq!(m.read(0x4000), 0x01);
    assert_eq!(m.read(0x4001), 0xA0 + 1);
    m.write(0x0000, 0x0A);
    m.write(0xA000, 0x42);
    assert_eq!(m.read(0xA000), 0);
}

#[test]
fn mbc_type_follows_the_header_code() {
    let rom_only = MbcType::new(0x00, banked_rom(2));
    assert!(matches!(rom_only, MbcType::RomOnly(_)));
    assert!(matches!(MbcType::new(0x02, banked_rom(2)), MbcType::Mbc1(_)));
    assert!(matches!(MbcType::new(0x06, banked_rom(2)), MbcType::Mbc2(_)));
    assert!(matches!(MbcType::new(0x13, banked_rom(2)), MbcType::Mbc3(_)));
    let mut mbc5 = MbcType::new(0x1E, banked_rom(2));
    assert!(matches!(mbc5, MbcType::Mbc5(_)));
    mbc5.write(0x2000, 1);
    assert_eq!(mbc5.read(0x4000), 1);
}

#[test]
fn interrupt_registers_start_cleared() {
    let bus = BusInterrupt::default();
    assert_eq!((bus.master_enabled, bus.enabled, bus.flag), (0, 0, 0));
    let cpu = CpuInterrupt::default();
    assert_eq!(cpu.enabled, false);
}

fn header(title: &[u8]) -> CartridgeInfo {
    let mut t = [0u8; 15];
    t.copy_from_slice(title);
    CartridgeInfo {
        entry_point: [0; 4],
        nintendo_logo: [0; 24],
        title: t,
        cgb_flag: 0,
        new_licensee_code: [0; 2],
        sgb_flag: 0,
        cartridge_type: 0,
        rom_size: 0,
        ram_size: 0,
        destination_code: 0,
        old_licensee_code: 0,
        mask_rom_version: 0,
        header_checksum: 0,
        global_checksum: 0,
    }
}

#[test]
fn game_title_is_the_header_text_or_bad_header() {
    let info = header(b"TETRIS\0\0\0\0\0\0\0\0\0");
    assert_eq!(info.game_title(), "TETRIS\0\0\0\0\0\0\0\0\0");
    let bad = header(&[0xFF; 15]);
    assert_eq!(bad.game_title(), "BAD HEADER");
    let cartridge = Cartridge { cartridge_info: Some(info), rom: vec![9, 8, 7] };
    assert_eq!(cartridge.get_item(1), 8);
    cartridge.set_item(0, 1);
    assert_eq!(cartridge.get_item(1), 8);
}

#[test]
fn cartridge_header_text_lists_its_fields() {
    let mut info = header(b"TETRIS\0\0\0\0\0\0\0\0\0");
    info.entry_point = [0x00, 0xC3, 0x50, 0x01];
    info.cartridge_type = 1;
    info.destination_code = 1;
    info.header_checksum = 0x0A;
    info.global_checksum = 0xBEEF;
    let expected = "Cartridge : {
            entry_point: 0x00 0xC3 0x50 0x01
            cgb: 0
            game_title: \"TETRIS\\0\\0\\0\\0\\0\\0\\0\\0\\0\"
            sgb_flag: 0
            cartridge_type: 1
            rom_size: 0
            ram_size: 0
            dest_code: Non-Jap
            header_checksum: 0x000A
            global_checksum: 0xBEEF
        }";
    assert_eq!(info.to_text(), expected);
}
