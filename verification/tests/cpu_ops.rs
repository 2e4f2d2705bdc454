use pogboy::cpu::registers::RegisterItem;
use pogboy::cpu::{JumpCondition, CPU};
use pogboy::memory::cartridge::Cartridge;
use pogboy::memory::mmu::MMU;
use pogboy::memory::op_codes_parser::{
    get_instructions_from_json, Instruction, OpCodeEntry, OpCodesJson, Operand, OperandEntry,
};
use pogboy::ppu::PPU;

fn table_entry(mnemonic: &str, bytes: i64, cycles: Vec<i64>, operands: Vec<(&str, bool, Option<i64>)>) -> OpCodeEntry {
    OpCodeEntry {
        mnemonic: mnemonic.to_string(),
        bytes,
        cycles,
        operands: operands
            .into_iter()
            .map(|(name, immediate, bytes)| OperandEntry { immediate, name: name.to_string(), bytes })
            .collect(),
        immediate: true,
    }
}

fn dummy_op_codes() -> OpCodesJson {
    OpCodesJson {
        categories: vec![
            (
                "unprefixed".to_string(),
                vec![
                    ("0x00".to_string(), table_entry("NOP", 1, vec![4], vec![])),
                    ("0x3E".to_string(), table_entry("LD", 2, vec![8], vec![("A", true, None), ("d8", true, Some(1))])),
                    ("0x21".to_string(), table_entry("LD", 3, vec![12], vec![("HL", true, None), ("d16", true, Some(2))])),
                ],
            ),
            (
                "cbprefixed".to_string(),
                vec![("0x7C".to_string(), table_entry("BIT", 2, vec![8], vec![("7", true, None), ("H", true, None)]))],
            ),
        ],
    }
}

fn dummy_cartridge() -> Cartridge {
    let mut rom = vec![0; 0x108];
    rom[0x100] = 0x00;
    rom[0x101] = 0x3E;
    rom[0x102] = 0x0F;
    rom[0x103] = 0xCB;
    rom[0x104] = 0x7C;
    rom[0x105] = 0x21;
    rom[0x106] = 0xFE;
    rom[0x107] = 0xC0;
    Cartridge { cartridge_info: None, rom }
}

fn dummy_mmu() -> MMU {
    let json = dummy_op_codes();
    let unprefixed = get_instructions_from_json(&json, "unprefixed");
    let prefixed = get_instructions_from_json(&json, "cbprefixed");
    let mut mmu = MMU::new(Some(dummy_cartridge()), PPU::new(), unprefixed, prefixed);
    mmu.PPU.video_ram = [1; 0x2000];
    mmu.external_ram = [2; 0x2000];
    mmu.work_ram = [3; 0x2000];
    mmu.io_registers = [4; 0x100];
    mmu.high_ram = [5; 0x80];
    mmu
}

fn dummy_cpu() -> CPU {
    CPU::new(dummy_mmu())
}

fn dummy_instruction(operand_name: &str, operand_value: u16) -> Instruction {
    Instruction {
        opcode: 0,
        immediate: false,
        operands: vec![Operand {
            immediate: false,
            name: operand_name.to_string(),
            bytes: None,
            value: Some(operand_value),
            adjust: None,
        }],
        cycles: vec![],
        bytes: 0,
        mnemonic: "".to_string(),
        comment: None,
        prefixed: false,
    }
}

#[test]
fn tests_decoder_can_parse_correctly() {
    let dummy_mmu = dummy_mmu();
    let (next_address, nop_instruction) = dummy_mmu.decode(0x100);
    let (next_address, ld_a_d8_instruction) = dummy_mmu.decode(next_address);
    let (next_address, bit_7_h) = dummy_mmu.decode(next_address);
    let (_, ld_hl_d16_instruction) = dummy_mmu.decode(next_address);
    println!("{} NOP INSTRUCT2iO", nop_instruction.to_text());
    assert_eq!(nop_instruction.mnemonic, "NOP");
    let d8 = ld_a_d8_instruction.operands.into_iter().find(|operand| operand.name == "d8").unwrap();
    assert_eq!(d8.value.unwrap(), 0x0F);
    assert_eq!(bit_7_h.prefixed, true);
    let d16 = ld_hl_d16_instruction.operands.into_iter().find(|operand| operand.name == "d16").unwrap();
    assert_eq!(d16.value.unwrap(), 0xC0FE);
}

#[test]
fn add_sets_right_flags() {
    let mut cpu = dummy_cpu();
    cpu.Registers.set_item(RegisterItem::A, 0xFF);
    cpu.Registers.set_item(RegisterItem::B, 0xFF);

    cpu.add_a_r(RegisterItem::B);
    assert_eq!(cpu.Registers.get_item(RegisterItem::A), 254);
    assert_eq!(cpu.Registers.get_item(RegisterItem::FlagC), 1);
    assert_eq!(cpu.Registers.get_item(RegisterItem::FlagN), 0);
    assert_eq!(cpu.Registers.get_item(RegisterItem::FlagZ), 0);
    assert_eq!(cpu.Registers.get_item(RegisterItem::FlagH), 1);

    cpu.Registers.set_item(RegisterItem::A, 0x8);
    cpu.Registers.set_item(RegisterItem::B, 0x8);
    cpu.add_a_r(RegisterItem::B);
    assert_eq!(cpu.Registers.get_item(RegisterItem::A), 16);
    assert_eq!(cpu.Registers.get_item(RegisterItem::FlagC), 0);
    assert_eq!(cpu.Registers.get_item(RegisterItem::FlagN), 0);
    assert_eq!(cpu.Registers.get_item(RegisterItem::FlagZ), 0);
    assert_eq!(cpu.Registers.get_item(RegisterItem::FlagH), 1);

    cpu.Registers.set_item(RegisterItem::HL, 0xA000);
    cpu.Registers.set_item(RegisterItem::A, 0x1);
    cpu.add_a_hl();
    assert_eq!(cpu.Registers.get_item(RegisterItem::A), 0x3);
}

#[test]
fn adc_sets_right_flags() {
    let mut cpu = dummy_cpu();
    cpu.Registers.set_item(RegisterItem::A, 0xFF);
    cpu.Registers.set_item(RegisterItem::B, 0xFF);
    cpu.adc_a_r(RegisterItem::B);
    assert_eq!(cpu.Registers.get_item(RegisterItem::A), 254);

    cpu.Registers.set_item(RegisterItem::B, 0x1);
    cpu.adc_a_r(RegisterItem::B);
    assert_eq!(cpu.Registers.get_item(RegisterItem::A), 0);
    assert_eq!(cpu.Registers.get_item(RegisterItem::FlagZ), 1);

    cpu.Registers.set_item(RegisterItem::A, 0x1);
    cpu.Registers.set_item(RegisterItem::FlagC, 0x0);
    cpu.Registers.set_item(RegisterItem::HL, 0xA000);
    cpu.adc_a_hl();
    assert_eq!(cpu.Registers.get_item(RegisterItem::A), 0x3);
}

#[test]
fn sub_sets_right_flags() {
    let mut cpu = dummy_cpu();
    cpu.Registers.set_item(RegisterItem::A, 0x9);
    cpu.Registers.set_item(RegisterItem::B, 0x2);
    cpu.sub_a_r(RegisterItem::B);
    assert_eq!(cpu.Registers.get_item(RegisterItem::A), 7);

    cpu.Registers.set_item(RegisterItem::A, 0xFF);
    cpu.Registers.set_item(RegisterItem::B, 0xFF);
    cpu.sub_a_r(RegisterItem::B);
    assert_eq!(cpu.Registers.get_item(RegisterItem::A), 0);
    assert_eq!(cpu.Registers.get_item(RegisterItem::FlagZ), 1);
    assert_eq!(cpu.Registers.get_item(RegisterItem::FlagN), 1);

    cpu.Registers.set_item(RegisterItem::A, 0x0F);
    cpu.Registers.set_item(RegisterItem::B, 0xFF);
    cpu.sub_a_r(RegisterItem::B);
    assert_eq!(cpu.Registers.get_item(RegisterItem::A), 0x10);
    assert_eq!(cpu.Registers.get_item(RegisterItem::FlagC), 1);

    cpu.Registers.set_item(RegisterItem::A, 0x03);
    cpu.Registers.set_item(RegisterItem::B, 0x0F);
    cpu.sub_a_r(RegisterItem::B);
    assert_eq!(cpu.Registers.get_item(RegisterItem::FlagH), 1);
}

#[test]
fn subc_sets_right_flags() {
    let mut cpu = dummy_cpu();
    cpu.Registers.set_item(RegisterItem::FlagC, 1);
    cpu.Registers.set_item(RegisterItem::A, 0x3);
    cpu.Registers.set_item(RegisterItem::B, 0x2);
    cpu.sbc_a_r(RegisterItem::B);
    assert_eq!(cpu.Registers.get_item(RegisterItem::A), 0);
    assert_eq!(cpu.Registers.get_item(RegisterItem::FlagZ), 1);

    cpu.Registers.set_item(RegisterItem::FlagC, 1);
    cpu.Registers.set_item(RegisterItem::A, 0x3);
    cpu.Registers.set_item(RegisterItem::B, 0x3);
    cpu.sbc_a_r(RegisterItem::B);
    assert_eq!(cpu.Registers.get_item(RegisterItem::FlagH), 1);
}

#[test]
fn and_sets_right_flags() {
    let mut cpu = dummy_cpu();
    cpu.Registers.set_item(RegisterItem::A, 0x3);
    cpu.Registers.set_item(RegisterItem::B, 0x2);
    cpu.and_a_r(RegisterItem::B);

    assert_eq!(cpu.Registers.get_item(RegisterItem::A), 2);
    assert_eq!(cpu.Registers.get_item(RegisterItem::FlagN), 0);
    assert_eq!(cpu.Registers.get_item(RegisterItem::FlagH), 1);
    assert_eq!(cpu.Registers.get_item(RegisterItem::FlagC), 0);
    assert_eq!(cpu.Registers.get_item(RegisterItem::FlagZ), 0);

    cpu.Registers.set_item(RegisterItem::A, 0x0);
    cpu.Registers.set_item(RegisterItem::B, 0x0);
    cpu.and_a_r(RegisterItem::B);
    assert_eq!(cpu.Registers.get_item(RegisterItem::FlagZ), 1);
}

#[test]
fn or_sets_right_flags() {
    let mut cpu = dummy_cpu();
    cpu.Registers.set_item(RegisterItem::A, 0x3);
    cpu.Registers.set_item(RegisterItem::B, 0x2);
    cpu.or_a_r(RegisterItem::B);

    assert_eq!(cpu.Registers.get_item(RegisterItem::A), 3);
    assert_eq!(cpu.Registers.get_item(RegisterItem::FlagN), 0);
    assert_eq!(cpu.Registers.get_item(RegisterItem::FlagH), 0);
    assert_eq!(cpu.Registers.get_item(RegisterItem::FlagC), 0);
    assert_eq!(cpu.Registers.get_item(RegisterItem::FlagZ), 0);

    cpu.Registers.set_item(RegisterItem::A, 0x0);
    cpu.Registers.set_item(RegisterItem::B, 0x0);
    cpu.or_a_r(RegisterItem::B);
    assert_eq!(cpu.Registers.get_item(RegisterItem::A), 0);
    assert_eq!(cpu.Registers.get_item(RegisterItem::FlagZ), 1);

    cpu.Registers.set_item(RegisterItem::A, 0x2);
    cpu.Registers.set_item(RegisterItem::B, 0x3);
    cpu.or_a_r(RegisterItem::B);
    assert_eq!(cpu.Registers.get_item(RegisterItem::A), 3);
}

#[test]
fn xor_sets_right_flags() {
    let mut cpu = dummy_cpu();
    cpu.Registers.set_item(RegisterItem::A, 0x3);
    cpu.Registers.set_item(RegisterItem::B, 0x2);
    cpu.xor_a_r(RegisterItem::B);

    assert_eq!(cpu.Registers.get_item(RegisterItem::A), 1);
    assert_eq!(cpu.Registers.get_item(RegisterItem::FlagN), 0);
    assert_eq!(cpu.Registers.get_item(RegisterItem::FlagH), 0);
    assert_eq!(cpu.Registers.get_item(RegisterItem::FlagC), 0);
    assert_eq!(cpu.Registers.get_item(RegisterItem::FlagZ), 0);

    cpu.Registers.set_item(RegisterItem::A, 0x3);
    cpu.Registers.set_item(RegisterItem::B, 0x3);
    cpu.xor_a_r(RegisterItem::B);

    assert_eq!(cpu.Registers.get_item(RegisterItem::A), 0);
    assert_eq!(cpu.Registers.get_item(RegisterItem::FlagZ), 1);
}

#[test]
fn cp_sets_right_flags() {
    let mut cpu = dummy_cpu();
    cpu.Registers.set_item(RegisterItem::A, 0xFF);
    cpu.Registers.set_item(RegisterItem::B, 0xFF);
    cpu.cp_a_r(RegisterItem::B);
    assert_eq!(cpu.Registers.get_item(RegisterItem::A), 0xFF);
    assert_eq!(cpu.Registers.get_item(RegisterItem::FlagZ), 1);
    assert_eq!(cpu.Registers.get_item(RegisterItem::FlagN), 1);

    cpu.Registers.set_item(RegisterItem::B, 0xFF);
    cpu.Registers.set_item(RegisterItem::A, 0x0F);
    cpu.cp_a_r(RegisterItem::B);
    assert_eq!(cpu.Registers.get_item(RegisterItem::A), 0x0F);
    assert_eq!(cpu.Registers.get_item(RegisterItem::FlagC), 1);

    cpu.Registers.set_item(RegisterItem::B, 0x0F);
    cpu.Registers.set_item(RegisterItem::A, 0x03);
    cpu.cp_a_r(RegisterItem::B);
    assert_eq!(cpu.Registers.get_item(RegisterItem::A), 0x03);
    assert_eq!(cpu.Registers.get_item(RegisterItem::FlagH), 1);
}

#[test]
fn inc_sets_right_flags() {
    let mut cpu = dummy_cpu();
    cpu.Registers.set_item(RegisterItem::A, 0xFF);

    let previous_c_value = cpu.Registers.get_item(RegisterItem::FlagC);
    cpu.inc(RegisterItem::A);
    assert_eq!(cpu.Registers.get_item(RegisterItem::FlagC), previous_c_value);
    assert_eq!(cpu.Registers.get_item(RegisterItem::FlagN), 0);
    assert_eq!(cpu.Registers.get_item(RegisterItem::FlagZ), 1);
    assert_eq!(cpu.Registers.get_item(RegisterItem::A), 0);

    cpu.Registers.set_item(RegisterItem::A, 0x0F);
    cpu.inc(RegisterItem::A);
    assert_eq!(cpu.Registers.get_item(RegisterItem::FlagH), 1);
    assert_eq!(cpu.Registers.get_item(RegisterItem::A), 0x10);

    cpu.Registers.set_item(RegisterItem::BC, 0xFFFF);
    cpu.inc_nn(RegisterItem::BC);
    assert_eq!(cpu.Registers.get_item(RegisterItem::BC), 0x0);
}

#[test]
fn dec_sets_right_flags() {
    let mut cpu = dummy_cpu();
    cpu.Registers.set_item(RegisterItem::A, 0x1);

    cpu.dec(RegisterItem::A);
    assert_eq!(cpu.Registers.get_item(RegisterItem::FlagN), 1);
    assert_eq!(cpu.Registers.get_item(RegisterItem::FlagZ), 1);
    assert_eq!(cpu.Registers.get_item(RegisterItem::A), 0);

    cpu.Registers.set_item(RegisterItem::A, 0x10);
    cpu.dec(RegisterItem::A);
    assert_eq!(cpu.Registers.get_item(RegisterItem::FlagH), 1);
    assert_eq!(cpu.Registers.get_item(RegisterItem::A), 0xF);

    cpu.Registers.set_item(RegisterItem::A, 0x0);
    cpu.dec(RegisterItem::A);
    assert_eq!(cpu.Registers.get_item(RegisterItem::FlagH), 1);
    assert_eq!(cpu.Registers.get_item(RegisterItem::A), 0xFF);

    cpu.Registers.set_item(RegisterItem::BC, 0x00);
    cpu.dec_nn(RegisterItem::BC);
    assert_eq!(cpu.Registers.get_item(RegisterItem::BC), 0xFFFF);
}

#[test]
fn right_rotations_works() {
    let mut cpu = dummy_cpu();
    cpu.Registers.set_item(RegisterItem::A, 0x03);

    cpu.rrc_r(RegisterItem::A, true);
    assert_eq!(cpu.Registers.get_item(RegisterItem::FlagC), 1);
    assert_eq!(cpu.Registers.get_item(RegisterItem::A), 0x81);

    cpu.Registers.set_item(RegisterItem::A, 0x06);
    cpu.rrc_r(RegisterItem::A, true);
    assert_eq!(cpu.Registers.get_item(RegisterItem::FlagC), 0);
    assert_eq!(cpu.Registers.get_item(RegisterItem::A), 0x03);

    cpu.Registers.set_item(RegisterItem::A, 0x03);
    cpu.Registers.set_item(RegisterItem::FlagC, 1);
    cpu.rr_r(RegisterItem::A, true);
    assert_eq!(cpu.Registers.get_item(RegisterItem::FlagC), 1);
    assert_eq!(cpu.Registers.get_item(RegisterItem::A), 0x81);

    cpu.Registers.set_item(RegisterItem::A, 0x04);
    cpu.Registers.set_item(RegisterItem::FlagC, 0);
    cpu.rr_r(RegisterItem::A, true);
    assert_eq!(cpu.Registers.get_item(RegisterItem::FlagC), 0);
    assert_eq!(cpu.Registers.get_item(RegisterItem::A), 0x02);

    cpu.Registers.set_item(RegisterItem::HL, 0xC000);
    cpu.MMU.write_byte(0xC000, 0x3);
    cpu.rrc_hl_pointer();
    assert_eq!(cpu.MMU.read_byte(0xC000), 0x81);

    cpu.MMU.write_byte(0xC000, 0x3);
    cpu.rr_hl_pointer();
    assert_eq!(cpu.MMU.read_byte(0xC000), 0x81);
}

#[test]
fn left_rotations_works() {
    let mut cpu = dummy_cpu();
    cpu.Registers.set_item(RegisterItem::A, 0x81);
    cpu.Registers.set_item(RegisterItem::FlagC, 0);

    cpu.rlc_r(RegisterItem::A, true);
    assert_eq!(cpu.Registers.get_item(RegisterItem::FlagC), 1);
    assert_eq!(cpu.Registers.get_item(RegisterItem::A), 0x3);

    cpu.rl_r(RegisterItem::A, true);
    assert_eq!(cpu.Registers.get_item(RegisterItem::FlagC), 0);
    assert_eq!(cpu.Registers.get_item(RegisterItem::A), 0x7);

    cpu.Registers.set_item(RegisterItem::HL, 0xC000);
    cpu.MMU.write_byte(0xC000, 0x81);
    cpu.rlc_hl_pointer();
    assert_eq!(cpu.MMU.read_byte(0xC000), 0x3);

    cpu.rl_hl_pointer();
    assert_eq!(cpu.MMU.read_byte(0xC000), 0x7);
}

#[test]
fn sla_sra_and_srl_sets_right_flags() {
    let mut cpu = dummy_cpu();

    cpu.Registers.set_item(RegisterItem::A, 0x80);
    cpu.sla_r(RegisterItem::A);
    assert_eq!(cpu.Registers.get_item(RegisterItem::FlagC), 1);
    assert_eq!(cpu.Registers.get_item(RegisterItem::FlagZ), 1);

    cpu.Registers.set_item(RegisterItem::A, 0x20);
    cpu.sla_r(RegisterItem::A);
    assert_eq!(cpu.Registers.get_item(RegisterItem::A), 0x40);

    cpu.Registers.set_item(RegisterItem::HL, 0xC000);
    cpu.MMU.write_byte(0xC000, 0x80);
    cpu.sla_hl_pointer();
    assert_eq!(cpu.MMU.read_byte(0xC000), 0);
    assert_eq!(cpu.Registers.get_item(RegisterItem::FlagC), 1);
    assert_eq!(cpu.Registers.get_item(RegisterItem::FlagZ), 1);

    cpu.Registers.set_item(RegisterItem::A, 0x1);
    cpu.sra_r(RegisterItem::A);
    assert_eq!(cpu.Registers.get_item(RegisterItem::FlagC), 1);
    assert_eq!(cpu.Registers.get_item(RegisterItem::FlagZ), 1);

    cpu.Registers.set_item(RegisterItem::A, 0xa0);
    cpu.sra_r(RegisterItem::A);
    assert_eq!(cpu.Registers.get_item(RegisterItem::A), 0xd0);

    cpu.Registers.set_item(RegisterItem::HL, 0xC000);
    cpu.MMU.write_byte(0xC000, 0xa0);
    cpu.sra_hl_pointer();
    assert_eq!(cpu.MMU.read_byte(0xC000), 0xd0);

    cpu.Registers.set_item(RegisterItem::A, 0xa0);
    cpu.srl_r(RegisterItem::A);
    assert_eq!(cpu.Registers.get_item(RegisterItem::A), 0x50);

    cpu.Registers.set_item(RegisterItem::HL, 0xC000);
    cpu.MMU.write_byte(0xC000, 0xa0);
    cpu.srl_hl_pointer();
    assert_eq!(cpu.MMU.read_byte(0xC000), 0x50);
}

#[test]
fn swap_works() {
    let mut cpu = dummy_cpu();

    cpu.Registers.set_item(RegisterItem::A, 0x0);
    cpu.swap_r(RegisterItem::A);
    assert_eq!(cpu.Registers.get_item(RegisterItem::A), 0x0);
    assert_eq!(cpu.Registers.get_item(RegisterItem::FlagH), 0);
    assert_eq!(cpu.Registers.get_item(RegisterItem::FlagN), 0);
    assert_eq!(cpu.Registers.get_item(RegisterItem::FlagC), 0);
    assert_eq!(cpu.Registers.get_item(RegisterItem::FlagZ), 1);

    cpu.Registers.set_item(RegisterItem::A, 0x38);
    cpu.swap_r(RegisterItem::A);
    assert_eq!(cpu.Registers.get_item(RegisterItem::A), 0x83);

    cpu.Registers.set_item(RegisterItem::HL, 0xC000);
    cpu.MMU.write_byte(0xC000, 0x38);
    cpu.swap_hl_pointer();
    assert_eq!(cpu.MMU.read_byte(0xC000), 0x83);
}

#[test]
fn bit_works() {
    let mut cpu = dummy_cpu();

    cpu.Registers.set_item(RegisterItem::A, 0xFF);
    cpu.bit_n_r(0, RegisterItem::A);
    assert_eq!(cpu.Registers.get_item(RegisterItem::FlagZ), 0);

    cpu.Registers.set_item(RegisterItem::A, 0x2);
    cpu.bit_n_r(0, RegisterItem::A);
    assert_eq!(cpu.Registers.get_item(RegisterItem::FlagZ), 1);

    cpu.Registers.set_item(RegisterItem::HL, 0xC000);
    cpu.MMU.write_byte(0xC000, 0x2);
    cpu.bit_hl_pointer(0);
    assert_eq!(cpu.Registers.get_item(RegisterItem::FlagZ), 1);
}

#[test]
fn reset_works() {
    let mut cpu = dummy_cpu();

    cpu.Registers.set_item(RegisterItem::A, 0xa);
    cpu.res_n_r(1, RegisterItem::A);
    assert_eq!(cpu.Registers.get_item(RegisterItem::A), 0x8);

    cpu.Registers.set_item(RegisterItem::A, 0xFF);
    cpu.res_n_r(0, RegisterItem::A);
    cpu.res_n_r(1, RegisterItem::A);
    cpu.res_n_r(2, RegisterItem::A);
    cpu.res_n_r(3, RegisterItem::A);
    cpu.res_n_r(4, RegisterItem::A);
    cpu.res_n_r(5, RegisterItem::A);
    cpu.res_n_r(6, RegisterItem::A);
    cpu.res_n_r(7, RegisterItem::A);
    assert_eq!(cpu.Registers.get_item(RegisterItem::A), 0);

    cpu.Registers.set_item(RegisterItem::HL, 0xC000);
    cpu.MMU.write_byte(0xC000, 0xa);
    cpu.res_hl_pointer(1);
    assert_eq!(cpu.MMU.read_byte(0xC000), 0x8);
}

#[test]
fn set_works() {
    let mut cpu = dummy_cpu();

    cpu.Registers.set_item(RegisterItem::A, 0x1);
    cpu.set_n_r(1, RegisterItem::A);
    assert_eq!(cpu.Registers.get_item(RegisterItem::A), 0x3);

    cpu.Registers.set_item(RegisterItem::A, 0x0);
    cpu.set_n_r(0, RegisterItem::A);
    cpu.set_n_r(1, RegisterItem::A);
    cpu.set_n_r(2, RegisterItem::A);
    cpu.set_n_r(3, RegisterItem::A);
    cpu.set_n_r(4, RegisterItem::A);
    cpu.set_n_r(5, RegisterItem::A);
    cpu.set_n_r(6, RegisterItem::A);
    cpu.set_n_r(7, RegisterItem::A);
    assert_eq!(cpu.Registers.get_item(RegisterItem::A), 0xFF);

    cpu.Registers.set_item(RegisterItem::HL, 0xC000);
    cpu.MMU.write_byte(0xC000, 0x1);
    cpu.set_hl_pointer(1);
    assert_eq!(cpu.MMU.read_byte(0xC000), 0x3);
}

#[test]
fn add_hl_nn_sets_right_flags() {
    let mut cpu = dummy_cpu();
    cpu.Registers.set_item(RegisterItem::HL, 0xFFFF);
    cpu.Registers.set_item(RegisterItem::BC, 0x0001);

    cpu.add_hl_n(RegisterItem::BC);
    assert_eq!(cpu.Registers.get_item(RegisterItem::HL), 0x0000);
    assert_eq!(cpu.Registers.get_item(RegisterItem::FlagC), 1);
    assert_eq!(cpu.Registers.get_item(RegisterItem::FlagH), 1);

    cpu.Registers.set_item(RegisterItem::HL, 0x0FFF);
    cpu.Registers.set_item(RegisterItem::BC, 0x0001);

    cpu.add_hl_n(RegisterItem::BC);
    assert_eq!(cpu.Registers.get_item(RegisterItem::HL), 0x1000);
    assert_eq!(cpu.Registers.get_item(RegisterItem::FlagC), 0);
    assert_eq!(cpu.Registers.get_item(RegisterItem::FlagH), 1);
}

#[test]
fn ld_hl_works() {
    let mut cpu = dummy_cpu();

    cpu.Registers.set_item(RegisterItem::HL, 0xC000);
    cpu.Registers.set_item(RegisterItem::B, 0x4);
    cpu.ld_address_value(RegisterItem::HL, RegisterItem::B);
    assert_eq!(cpu.MMU.read_byte(0xC000), 0x4);

    cpu.Registers.set_item(RegisterItem::BC, 0xC001);
    cpu.Registers.set_item(RegisterItem::A, 0x3);
    cpu.ld_address_value(RegisterItem::BC, RegisterItem::A);
    assert_eq!(cpu.MMU.read_byte(0xC001), 0x3);
}

#[test]
fn inc_and_dec_hl_pointer_works() {
    let mut cpu = dummy_cpu();

    cpu.Registers.set_item(RegisterItem::HL, 0xC000);
    cpu.MMU.write_byte(0xC000, 0x5);
    cpu.inc_hl_pointer();
    assert_eq!(cpu.MMU.read_byte(0xC000), 0x6);

    cpu.dec_hl_pointer();
    assert_eq!(cpu.MMU.read_byte(0xC000), 0x5);
}

#[test]
fn memory_pointer_ops_works() {
    let mut cpu = dummy_cpu();
    let ld_hl_pointer_0xf_instruction = dummy_instruction("d8", 0xF);

    cpu.Registers.set_item(RegisterItem::HL, 0xC000);
    cpu.ld_hl_pointer_d8(ld_hl_pointer_0xf_instruction);
    assert_eq!(cpu.MMU.read_byte(0xC000), 0xF);

    cpu.Registers.set_item(RegisterItem::HL, 0xC000);
    cpu.Registers.set_item(RegisterItem::A, 3);
    cpu.ld_hl_pointer_dec_inc_a(true);
    assert_eq!(cpu.MMU.read_byte(0xC000), 0x3);
    assert_eq!(cpu.Registers.get_item(RegisterItem::HL), 0xC001);

    let ld_a16_pointer_sp_instruction = dummy_instruction("a16", 0xC000);
    cpu.Registers.set_item(RegisterItem::SP, 0xC0FE);
    cpu.ld_a16_pointer_sp(ld_a16_pointer_sp_instruction);
    assert_eq!(cpu.MMU.read_word(0xC000), 0xC0FE);
}

#[test]
fn tests_push_and_pop_works() {
    let mut cpu = dummy_cpu();

    assert_eq!(cpu.Registers.get_item(RegisterItem::SP), 0xFFFE);
    cpu.write_to_stack(0xC0FE);
    assert_eq!(cpu.Registers.get_item(RegisterItem::SP), 0xFFFE - 2);
    assert_eq!(cpu.read_from_stack(), 0xC0FE);

    cpu.write_to_stack(0xFEAB);
    assert_eq!(cpu.read_from_stack(), 0xFEAB);

    cpu.Registers.set_item(RegisterItem::BC, 0xFFEE);
    cpu.push_rr(RegisterItem::BC);
    cpu.pop_rr(RegisterItem::DE);
    assert_eq!(cpu.Registers.get_item(RegisterItem::DE), 0xFFEE)
}

#[test]
fn rst_works() {
    let mut cpu = dummy_cpu();

    cpu.Registers.set_item(RegisterItem::PC, 0xC0FE);
    cpu.rst(0x30);
    assert_eq!(cpu.Registers.get_item(RegisterItem::PC), 0x0030);
    assert_eq!(cpu.read_from_stack(), 0xC0FE);
}

#[test]
fn jump_works() {
    let mut cpu = dummy_cpu();

    let jp_r8_instruction = dummy_instruction("r8", 0x5);
    cpu.Registers.set_item(RegisterItem::PC, 0);
    cpu.jr_r8(jp_r8_instruction, JumpCondition::Always);
    assert_eq!(cpu.Registers.get_item(RegisterItem::PC), 5);

    cpu.Registers.set_item(RegisterItem::FlagZ, 0);
    cpu.Registers.set_item(RegisterItem::PC, 0);
    cpu.jr_r8(dummy_instruction("r8", 0x1), JumpCondition::NotZero);
    assert_eq!(cpu.clock, 0x4);
    assert_eq!(cpu.Registers.get_item(RegisterItem::PC), 1);
    cpu.Registers.set_item(RegisterItem::FlagZ, 1);
    cpu.jr_r8(dummy_instruction("r8", 0x1), JumpCondition::NotZero);
    assert_eq!(cpu.Registers.get_item(RegisterItem::PC), 1);
}

#[test]
fn return_works() {
    let mut cpu = dummy_cpu();

    cpu.write_to_stack(0xC0FE);
    cpu.ret(JumpCondition::Always, false);
    assert_eq!(cpu.Registers.get_item(RegisterItem::PC), 0xC0FE);

    cpu.Registers.set_item(RegisterItem::FlagZ, 1);
    cpu.write_to_stack(0xC0FE);
    cpu.ret(JumpCondition::Zero, true);
    assert_eq!(cpu.clock, 0xC);
    assert_eq!(cpu.Registers.get_item(RegisterItem::PC), 0xC0FE);
    assert_eq!(cpu.MMU.interrupt_master_enabled, true);
}

#[test]
fn c_pointer_instructions_works() {
    let mut cpu = dummy_cpu();

    cpu.MMU.write_byte(0xFF03, 5);
    cpu.Registers.set_item(RegisterItem::C, 3);
    cpu.ld_a_c_pointer();
    assert_eq!(cpu.Registers.get_item(RegisterItem::A), 5);

    cpu.Registers.set_item(RegisterItem::A, 8);
    cpu.ld_c_pointer_a();
    assert_eq!(cpu.MMU.read_byte(0xFF03), 8);
}

#[test]
fn a_register_with_d8_operand_instructions_works() {
    let mut cpu = dummy_cpu();
    let d8_instruction = dummy_instruction("d8", 0xFF);

    cpu.Registers.set_item(RegisterItem::A, 0xFF);
    cpu.adc_a_d8(d8_instruction);
    assert_eq!(cpu.Registers.get_item(RegisterItem::A), 254);
    assert_eq!(cpu.Registers.get_item(RegisterItem::FlagC), 1);

    let d8_instruction = dummy_instruction("d8", 0x2);
    cpu.Registers.set_item(RegisterItem::FlagC, 1);
    cpu.Registers.set_item(RegisterItem::A, 0x3);
    cpu.sbc_a_d8(d8_instruction);
    assert_eq!(cpu.Registers.get_item(RegisterItem::A), 0);
    assert_eq!(cpu.Registers.get_item(RegisterItem::FlagZ), 1);

    let d8_instruction = dummy_instruction("d8", 0x2);
    cpu.Registers.set_item(RegisterItem::A, 0x3);
    cpu.xor_a_d8(d8_instruction);

    assert_eq!(cpu.Registers.get_item(RegisterItem::A), 1);
    assert_eq!(cpu.Registers.get_item(RegisterItem::FlagN), 0);
    assert_eq!(cpu.Registers.get_item(RegisterItem::FlagH), 0);
    assert_eq!(cpu.Registers.get_item(RegisterItem::FlagC), 0);
    assert_eq!(cpu.Registers.get_item(RegisterItem::FlagZ), 0);

    let d8_instruction = dummy_instruction("d8", 0xFF);
    cpu.Registers.set_item(RegisterItem::A, 0xF);
    cpu.cp_a_d8(d8_instruction);
    assert_eq!(cpu.Registers.get_item(RegisterItem::A), 0x0F);
    assert_eq!(cpu.Registers.get_item(RegisterItem::FlagC), 1);
}
