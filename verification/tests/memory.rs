use pogboy::cpu::registers::RegisterItem;
use pogboy::cpu::CPU;
use pogboy::memory::cartridge::Cartridge;
use pogboy::memory::mmu::MMU;
use pogboy::memory::op_codes_parser::{get_instructions_from_json, OpCodeEntry, OpCodesJson, OperandEntry};
use pogboy::ppu::PPU;

fn memory_entry(mnemonic: &str, bytes: i64, cycles: Vec<i64>, operands: Vec<(&str, bool, Option<i64>)>) -> OpCodeEntry {
    OpCodeEntry {
        mnemonic: mnemonic.to_string(),
        bytes,
        cycles,
        operands: operands
            .into_iter()
            .map(|(name, immediate, bytes)| OperandEntry { immediate, name: name.to_string(), bytes })
            .collect(),
        immediate: true,
    }
}

fn memory_op_codes() -> OpCodesJson {
    OpCodesJson {
        categories: vec![
            (
                "unprefixed".to_string(),
                vec![
                    ("0x00".to_string(), memory_entry("NOP", 1, vec![4], vec![])),
                    ("0x3E".to_string(), memory_entry("LD", 2, vec![8], vec![("A", true, None), ("d8", true, Some(1))])),
                    ("0x21".to_string(), memory_entry("LD", 3, vec![12], vec![("HL", true, None), ("d16", true, Some(2))])),
                ],
            ),
            (
                "cbprefixed".to_string(),
                vec![("0x7C".to_string(), memory_entry("BIT", 2, vec![8], vec![("7", true, None), ("H", true, None)]))],
            ),
        ],
    }
}

fn memory_dummy_mmu() -> MMU {
    let mut rom = vec![0; 0x108];
    rom[0x100] = 0x00;
    rom[0x101] = 0x3E;
    rom[0x102] = 0x0F;
    rom[0x103] = 0xCB;
    rom[0x104] = 0x7C;
    rom[0x105] = 0x21;
    rom[0x106] = 0xFE;
    rom[0x107] = 0xC0;
    let cartridge = Cartridge { cartridge_info: None, rom };
    let json = memory_op_codes();
    let unprefixed = get_instructions_from_json(&json, "unprefixed");
    let prefixed = get_instructions_from_json(&json, "cbprefixed");
    let mut mmu = MMU::new(Some(cartridge), PPU::new(), unprefixed, prefixed);
    mmu.PPU.video_ram = [1; 0x2000];
    mmu.external_ram = [2; 0x2000];
    mmu.work_ram = [3; 0x2000];
    mmu.io_registers = [4; 0x100];
    mmu.high_ram = [5; 0x80];
    mmu
}

#[test]
fn memory_decoder_can_parse_correctly() {
    let dummy_mmu = memory_dummy_mmu();
    let (next_address, nop_instruction) = dummy_mmu.decode(0x100);
    let (next_address, ld_a_d8_instruction) = dummy_mmu.decode(next_address);
    let (next_address, bit_7_h) = dummy_mmu.decode(next_address);
    let (_, ld_hl_d16_instruction) = dummy_mmu.decode(next_address);
    println!("{} NOP INSTRUCT2iO", nop_instruction.to_text());
    assert_eq!(nop_instruction.mnemonic, "NOP");
    let d8 = ld_a_d8_instruction.operands.into_iter().find(|operand| operand.name == "d8").unwrap();
    assert_eq!(d8.value.unwrap(), 0x0F);
    assert_eq!(bit_7_h.prefixed, true);
    let d16 = ld_hl_d16_instruction.operands.into_iter().find(|operand| operand.name == "d16").unwrap();
    assert_eq!(d16.value.unwrap(), 0xC0FE);
}

#[test]
fn memory_memory_can_read_and_write() {
    let mut dummy_mmu = memory_dummy_mmu();

    assert_eq!(dummy_mmu.read_byte(0x0), 0x31);
    dummy_mmu.write_byte(0x0, 0xFF);
    assert_eq!(dummy_mmu.read_byte(0x0), 0xFF);

    assert_eq!(dummy_mmu.read_byte(0x8000), 0x1);
    dummy_mmu.write_byte(0x8000, 0xFF);
    assert_eq!(dummy_mmu.read_byte(0x8000), 0xFF);

    assert_eq!(dummy_mmu.read_byte(0xA000), 0x2);
    dummy_mmu.write_byte(0xA000, 0xFF);
    assert_eq!(dummy_mmu.read_byte(0xA000), 0xFF);

    assert_eq!(dummy_mmu.read_byte(0xC000), 0x3);
    dummy_mmu.write_byte(0xC000, 0xFF);
    assert_eq!(dummy_mmu.read_byte(0xC000), 0xFF);

    assert_eq!(dummy_mmu.read_byte(0xFF80), 0x5);
    dummy_mmu.write_byte(0xFF80, 0xFF);
    assert_eq!(dummy_mmu.read_byte(0xFF80), 0xFF);

    assert_eq!(dummy_mmu.read_byte(0xFFFF), 0);
    dummy_mmu.write_byte(0xFFFF, 0x0);
    assert_eq!(dummy_mmu.read_byte(0xFFFF), 0x0);

    dummy_mmu.write_word(0xA000, 0xC0FE);
    assert_eq!(dummy_mmu.read_word(0xA000), 0xC0FE);
}

#[test]
fn memory_push_and_pop_works() {
    let dummy_mmu = memory_dummy_mmu();
    let mut cpu = CPU::new(dummy_mmu);

    assert_eq!(cpu.Registers.get_item(RegisterItem::SP), 0xFFFE);
    cpu.write_to_stack(0xC0FE);
    assert_eq!(cpu.Registers.get_item(RegisterItem::SP), 0xFFFE - 2);
    assert_eq!(cpu.read_from_stack(), 0xC0FE);

    cpu.write_to_stack(0xFEAB);
    assert_eq!(cpu.read_from_stack(), 0xFEAB);

    cpu.Registers.set_item(RegisterItem::BC, 0xFFEE);
    cpu.push_rr(RegisterItem::BC);
    cpu.pop_rr(RegisterItem::DE);
    assert_eq!(cpu.Registers.get_item(RegisterItem::DE), 0xFFEE)
}

#[test]
fn echo_ram_mirrors_work_ram() {
    let mut mmu = memory_dummy_mmu();
    mmu.write_byte(0xC123, 0x42);
    assert_eq!(mmu.read_byte(0xE123), 0x42);
    mmu.write_byte(0xE456, 0x17);
    assert_eq!(mmu.read_byte(0xC456), 0x17);
    assert_eq!(mmu.read_byte(0xC124), 0x3);
}

#[test]
fn boot_rom_is_unmapped_by_ff50() {
    let mut mmu = memory_dummy_mmu();
    assert_eq!(mmu.read_byte(0x0), 0x31);
    mmu.write_byte(0xFF50, 0x1);
    assert_eq!(mmu.is_past_bios, true);
    assert_eq!(mmu.read_byte(0x0), 0x0);
    mmu.write_byte(0x0, 0x99);
    assert_eq!(mmu.read_byte(0x0), 0x0);
}

#[test]
fn dma_copies_a_page_into_the_attribute_table() {
    let mut mmu = memory_dummy_mmu();
    for i in 0..0xA0 {
        mmu.write_byte(0xC000 + i, i as u8);
    }
    mmu.write_byte(0xFF46, 0xC0);
    for i in 0..0xA0 {
        assert_eq!(mmu.read_byte(0xFE00 + i), i as u8);
    }
    assert_eq!(mmu.PPU.sprite_set[0].y, -16);
    assert_eq!(mmu.PPU.sprite_set[0].x, 1 - 8);
    assert_eq!(mmu.PPU.sprite_set[1].y, 4 - 16);
    assert_eq!(mmu.PPU.sprite_set[1].tile_number, 6);
}

#[test]
fn timer_registers_read_back() {
    let mut mmu = memory_dummy_mmu();
    mmu.write_byte(0xFF05, 0x12);
    mmu.write_byte(0xFF06, 0x34);
    mmu.write_byte(0xFF07, 0xFF);
    assert_eq!(mmu.read_byte(0xFF05), 0x12);
    assert_eq!(mmu.read_byte(0xFF06), 0x34);
    assert_eq!(mmu.read_byte(0xFF07), 0x7);
    mmu.write_byte(0xFF04, 0x99);
    assert_eq!(mmu.read_byte(0xFF04), 0);
}
