use vstd::prelude::*;
use vstd::slice::slice_subrange;
use byteorder::{LittleEndian, ReadBytesExt};
use crate::memory::mmu::{operand_offset, lemma_operand_offset_monotone};
use std::collections::HashMap;
use crate::memory::op_codes_parser::{table_lookup, 
    Instruction, Operand, OpCodeEntry, OpCodesJson, get_instructions_from_json,
    category_entries, opcode_key, is_instruction_table, duplicate_cycles,
};

verus! {

broadcast use vstd::std_specs::hash::group_hash_axioms;

/// The byte that announces an opcode of the prefixed table.
pub const INSTRUCTIONS_PREFIX: u8 = 203;

/// `ReadBytesExt::read_u8` of byteorder on a byte slice: its first byte.
#[verifier::external_body]
fn first_byte(bytes: &[u8]) -> (v: u8)
    requires
        bytes@.len() >= 1,
    ensures
        v == bytes@[0],
{
    let mut reader = bytes;
    reader.read_u8().unwrap()
}

/// `ReadBytesExt::read_u16::<LittleEndian>` of byteorder on a byte slice: its
/// first two bytes, the first one the low byte.
#[verifier::external_body]
fn little_endian_u16(bytes: &[u8]) -> (v: u16)
    requires
        bytes@.len() >= 2,
    ensures
        v == bytes@[0] as int + 256 * bytes@[1] as int,
{
    let mut reader = bytes;
    reader.read_u16::<LittleEndian>().unwrap()
}

/// A disassembler over a ROM image, with the opcode tables it decodes by.
pub struct Decoder {
    pub data: Vec<u8>,
    pub address: u32,
    pub unprefixed_op_codes: HashMap<u8, Instruction>,
    pub prefixed_op_codes: HashMap<u8, Instruction>,
}

/// The opcode table file has a category `category`, and every key of it names an opcode.
pub open spec fn has_category(json: OpCodesJson, category: Seq<char>) -> bool {
    &&& category_entries(json.categories@, category) is Some
    &&& forall|i: int|
        0 <= i < category_entries(json.categories@, category).unwrap().len() ==> opcode_key(
            #[trigger] category_entries(json.categories@, category).unwrap()[i].0@,
        ) is Some
}

impl Decoder {
    /// A decoder over `rom` at address 0; both of its tables are built from the
    /// "unprefixed" category of the file.
    pub fn new(rom: Vec<u8>, json_op_codes: &OpCodesJson) -> (d: Decoder)
        requires
            has_category(*json_op_codes, "unprefixed"@),
        ensures
            d.data@ == rom@,
            d.address == 0,
            is_instruction_table(
                d.unprefixed_op_codes@,
                category_entries(json_op_codes.categories@, "unprefixed"@).unwrap(),
                false,
            ),
            is_instruction_table(
                d.prefixed_op_codes@,
                category_entries(json_op_codes.categories@, "unprefixed"@).unwrap(),
                false,
            ),
    {
        proof {
            reveal_strlit("unprefixed");
            reveal_strlit("cbprefixed");
            assert("unprefixed"@[0] != "cbprefixed"@[0]);
        }
        let unprefixed_op_codes = get_instructions_from_json(json_op_codes, "unprefixed");
        let prefixed_op_codes = get_instructions_from_json(json_op_codes, "unprefixed");
        Decoder { data: rom, address: 0, unprefixed_op_codes, prefixed_op_codes }
    }

    /// Whether `read` of `count` bytes at `address` stays within the data.
    pub open spec fn in_data(&self, address: int, count: int) -> bool {
        &&& self.data@.len() <= i32::MAX
        &&& 0 <= address
        &&& address + count <= self.data@.len()
    }

    /// The `count` bytes of the data at `address`.
    pub fn read(&self, address: i32, count: u8) -> (bytes: &[u8])
        requires
            self.in_data(address as int, count as int),
        ensures
            bytes@ == self.data@.subrange(address as int, address + count),
    {
        let end_address = address + count as i32;
        slice_subrange(self.data.as_slice(), address as usize, end_address as usize)
    }

    /// The opcode at `address`, the table it is looked up in, and where its
    /// operands' data starts: after the 0xCB prefix, the next byte is looked up in
    /// the prefixed table.
    pub open spec fn opcode_at(&self, address: i32) -> (bool, u8, int) {
        let op = self.data@[address as int];
        if op == INSTRUCTIONS_PREFIX {
            (true, self.data@[address + 1], address + 2)
        } else {
            (false, op, address + 1)
        }
    }

    /// The table entry the instruction at `address` is decoded from.
    pub open spec fn table_entry(&self, address: i32) -> Option<Instruction> {
        let (prefixed, code, _) = self.opcode_at(address);
        if prefixed {
            table_lookup(self.prefixed_op_codes@, code)
        } else {
            table_lookup(self.unprefixed_op_codes@, code)
        }
    }

    /// An operand of the table with its value read from `at`, when it has data.
    pub open spec fn operand_read(&self, operand: Operand, at: int) -> Operand {
        match operand.bytes {
            Some(b) => Operand {
                value: Some(
                    if b == 1 {
                        self.data@[at] as u16
                    } else {
                        (self.data@[at + 1] as int * 256 + self.data@[at] as int) as u16
                    },
                ),
                ..operand
            },
            None => operand,
        }
    }

    /// Whether decoding at `address` is defined: the opcode bytes are in the data,
    /// the table has an entry for them, and each operand has one or two bytes of
    /// data, all in the data.
    pub open spec fn decode_defined(&self, address: i32) -> bool {
        let (prefixed, code, start) = self.opcode_at(address);
        &&& self.in_data(address as int, 1)
        &&& prefixed ==> self.in_data(address + 1, 1)
        &&& self.table_entry(address) is Some
        &&& ({
            let ops = self.table_entry(address).unwrap().operands@;
            &&& self.in_data(start, operand_offset(ops, ops.len() as int))
            &&& forall|i: int|
                0 <= i < ops.len() ==> match #[trigger] ops[i].bytes {
                    Some(b) => b == 1 || b == 2,
                    None => true,
                }
        })
    }

    /// `ins` is the instruction at `address`, its operands' values read, and
    /// `next` is the address after it.
    pub open spec fn decoded(&self, address: i32, next: i32, ins: Instruction) -> bool {
        let (prefixed, code, start) = self.opcode_at(address);
        let t = self.table_entry(address).unwrap();
        &&& ins.opcode == t.opcode
        &&& ins.immediate == t.immediate
        &&& ins.cycles@ == t.cycles@
        &&& ins.bytes == t.bytes
        &&& ins.mnemonic@ == t.mnemonic@
        &&& ins.comment == t.comment
        &&& ins.prefixed == t.prefixed
        &&& ins.operands@.len() == t.operands@.len()
        &&& forall|i: int|
            0 <= i < t.operands@.len() ==> #[trigger] ins.operands@[i] == self.operand_read(
                t.operands@[i],
                start + operand_offset(t.operands@, i),
            )
        &&& next == start + operand_offset(t.operands@, t.operands@.len() as int)
    }

    /// Decodes the instruction at `address`: the opcode (after a 0xCB prefix, the
    /// prefixed one), its table entry, and the values of its operands read from the
    /// bytes that follow, little-endian. Returns the address after it too.
    pub fn decode(&self, address: i32) -> (r: (i32, Instruction))
        requires
            self.decode_defined(address),
        ensures
            self.decoded(address, r.0, r.1),
    {
        let ghost first = address;
        let mut address = address;
        let mut op_code = self.read(address, 1);
        address = address + 1;
        let instruction = {
            if op_code[0] == INSTRUCTIONS_PREFIX {
                op_code = self.read(address, 1);
                address = address + 1;
                self.prefixed_op_codes.get(&op_code[0]).unwrap()
            } else {
                self.unprefixed_op_codes.get(&op_code[0]).unwrap()
            }
        };
        let ghost start = address as int;
        let ghost ops = instruction.operands@;
        assert(instruction.operands@ == self.table_entry(first).unwrap().operands@);
        let mut new_operands: Vec<Operand> = Vec::new();
        let mut i: usize = 0;
        while i < instruction.operands.len()
            invariant
                self.decode_defined(first),
                ops == self.table_entry(first).unwrap().operands@,
                ops == instruction.operands@,
                start == self.opcode_at(first).2,
                i <= ops.len(),
                address == start + operand_offset(ops, i as int),
                new_operands@.len() == i,
                forall|j: int|
                    0 <= j < i ==> #[trigger] new_operands@[j] == self.operand_read(
                        ops[j],
                        start + operand_offset(ops, j),
                    ),
            decreases ops.len() - i,
        {
            let operand = &instruction.operands[i];
            proof {
                assert(operand_offset(ops, i as int + 1) == operand_offset(ops, i as int)
                    + match ops[i as int].bytes {
                    Some(b) => b as int,
                    None => 0,
                });
                lemma_operand_offset_monotone(ops, i as int + 1, ops.len() as int);
                lemma_operand_offset_monotone(ops, 0, i as int);
                assert(match ops[i as int].bytes {
                    Some(b) => b == 1 || b == 2,
                    None => true,
                });
            }
            if operand.bytes.is_some() {
                let bytes = operand.bytes.unwrap();
                let operand_value = self.read(address, bytes);
                address = address + bytes as i32;
                let mut operand_to_be_pushed = operand.duplicate();
                let value: u16 = if bytes == 1 {
                    first_byte(operand_value) as u16
                } else {
                    little_endian_u16(operand_value)
                };
                operand_to_be_pushed.value = Some(value);
                new_operands.push(operand_to_be_pushed);
            } else {
                new_operands.push(operand.duplicate());
            }
            i += 1;
        }
        let decoded_instruction = Instruction {
            opcode: instruction.opcode,
            immediate: instruction.immediate,
            operands: new_operands,
            cycles: duplicate_cycles(&instruction.cycles),
            bytes: instruction.bytes,
            mnemonic: instruction.mnemonic.clone(),
            comment: instruction.comment,
            prefixed: instruction.prefixed,
        };
        (address, decoded_instruction)
    }
}

} // verus!
