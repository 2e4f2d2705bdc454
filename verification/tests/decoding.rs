use pogboy::decoder::Decoder;
use pogboy::memory::op_codes_parser::{
    get_instructions_from_json, opcode_key_value, AdjustTypes, Instruction, OpCodeEntry, OpCodesJson, Operand,
    OperandEntry,
};

fn decoding_entry(mnemonic: &str, bytes: i64, cycles: Vec<i64>, operands: Vec<(&str, bool, Option<i64>)>) -> OpCodeEntry {
    OpCodeEntry {
        mnemonic: mnemonic.to_string(),
        bytes,
        cycles,
        operands: operands
            .into_iter()
            .map(|(name, immediate, bytes)| OperandEntry { immediate, name: name.to_string(), bytes })
            .collect(),
        immediate: true,
    }
}

fn decoding_json() -> OpCodesJson {
    OpCodesJson {
        categories: vec![
            (
                "unprefixed".to_string(),
                vec![
                    ("0x00".to_string(), decoding_entry("NOP", 1, vec![4], vec![])),
                    ("0x3E".to_string(), decoding_entry("LD", 2, vec![8], vec![("A", true, None), ("d8", true, Some(1))])),
                    ("0x21".to_string(), decoding_entry("LD", 3, vec![12], vec![("HL", true, None), ("d16", true, Some(2))])),
                    ("0xEA".to_string(), decoding_entry("LD", 3, vec![16], vec![("a16", false, Some(2)), ("A", true, None)])),
                    ("0x3e".to_string(), decoding_entry("LDX", 258, vec![264, 8, 12], vec![("A", true, None), ("d8", true, Some(1))])),
                ],
            ),
            (
                "cbprefixed".to_string(),
                vec![("0x7C".to_string(), decoding_entry("BIT", 2, vec![8], vec![("7", true, None), ("H", true, None)]))],
            ),
        ],
    }
}

#[test]
fn opcode_keys_are_hexadecimal_bytes() {
    assert_eq!(opcode_key_value("0x3E"), Some(0x3E));
    assert_eq!(opcode_key_value("0x0x0xff"), Some(0xFF));
    assert_eq!(opcode_key_value("+7"), Some(7));
    assert_eq!(opcode_key_value("0x"), None);
    assert_eq!(opcode_key_value("0x100"), None);
    assert_eq!(opcode_key_value("0xG1"), None);
    assert_eq!(opcode_key_value("-1"), None);
    assert_eq!(opcode_key_value(""), None);
}

#[test]
fn instruction_table_takes_low_bytes_and_the_last_entry() {
    let json = decoding_json();
    let table = get_instructions_from_json(&json, "unprefixed");
    assert!(table.get(&0x01).is_none());
    let ld = table.get(&0x3E).unwrap();
    assert_eq!(ld.mnemonic, "LDX");
    assert_eq!(ld.bytes, 2);
    assert_eq!(ld.cycles, vec![8, 8, 12]);
    assert_eq!(ld.opcode, 0x3E);
    assert_eq!(ld.prefixed, false);
    assert_eq!(ld.operands[1].bytes, Some(1));
    assert_eq!(ld.operands[1].value, None);
    let prefixed = get_instructions_from_json(&json, "cbprefixed");
    assert_eq!(prefixed.get(&0x7C).unwrap().prefixed, true);
    assert_eq!(prefixed.get(&0x7C).unwrap().mnemonic, "BIT");
}

#[test]
fn decoder_reads_operands_little_endian() {
    let json = decoding_json();
    let rom = vec![0x00, 0x21, 0xFE, 0xC0, 0xEA, 0x34, 0x12, 0x00];
    let decoder = Decoder::new(rom, &json);
    assert_eq!(decoder.address, 0);
    assert_eq!(decoder.read(1, 3), &[0x21, 0xFE, 0xC0]);
    let (next, nop) = decoder.decode(0);
    assert_eq!((next, nop.mnemonic.as_str()), (1, "NOP"));
    let (next, ld_hl) = decoder.decode(next);
    assert_eq!(next, 4);
    assert_eq!(ld_hl.operands[1].value, Some(0xC0FE));
    let (next, ld_a16) = decoder.decode(next);
    assert_eq!(next, 7);
    assert_eq!(ld_a16.operands[0].value, Some(0x1234));
    assert_eq!(ld_a16.to_text(), "LD    (0x1234), A");
}

#[test]
fn instructions_and_operands_are_shown_as_text() {
    let operand = |name: &str, immediate: bool, bytes: Option<u8>, value: Option<u16>| Operand {
        immediate,
        name: name.to_string(),
        bytes,
        value,
        adjust: None,
    };
    assert_eq!(operand("d8", true, Some(1), Some(0xF)).to_text(), "0x0F");
    assert_eq!(operand("r8", true, None, Some(250)).to_text(), "250");
    assert_eq!(operand("HL", false, None, None).to_text(), "(HL)");
    let instruction = Instruction {
        opcode: 0x3E,
        immediate: true,
        operands: vec![operand("A", true, None, None), operand("d8", true, Some(1), Some(0xAB))],
        cycles: vec![8],
        bytes: 2,
        mnemonic: "LD".to_string(),
        comment: Some("x"),
        prefixed: false,
    };
    assert_eq!(instruction.to_text(), "LD    A, 0xAB ; x   ");
    assert_eq!(AdjustTypes::POSITIVE.to_text(), "");
}
