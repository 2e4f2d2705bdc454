use vstd::prelude::*;
use vstd::string::{StrSliceExecFns, StringExecFns};
use std::collections::HashMap;
use crate::text::{hex_text, decimal_text, padded, append_hex, append_decimal, append_padded};

verus! {

broadcast use vstd::std_specs::hash::group_hash_axioms;

#[derive(Clone, Copy, PartialEq, Eq, Debug, Structural)]
#[allow(non_camel_case_types)]
pub enum AdjustTypes {
    POSITIVE,
    NEGATIVE,
}

/// An operand of an instruction: its name in the opcode table, how many bytes of
/// immediate data follow the opcode for it, and the value decoding gave it.
#[derive(Debug)]
pub struct Operand {
    pub immediate: bool,
    pub name: String,
    pub bytes: Option<u8>,
    pub value: Option<u16>,
    pub adjust: Option<AdjustTypes>,
}

/// An instruction of the opcode table, or a decoded one whose operands hold values.
#[derive(Debug)]
pub struct Instruction {
    pub opcode: u8,
    pub immediate: bool,
    pub operands: Vec<Operand>,
    pub cycles: Vec<u8>,
    pub bytes: u8,
    pub mnemonic: String,
    pub comment: Option<&'static str>,
    pub prefixed: bool,
}

/// The first operand of `operands` named `name`.
pub open spec fn first_operand_named(operands: Seq<Operand>, name: Seq<char>) -> Option<Operand>
    decreases operands.len(),
{
    if operands.len() == 0 {
        None
    } else if operands[0].name@ == name {
        Some(operands[0])
    } else {
        first_operand_named(operands.drop_first(), name)
    }
}

/// The value of the first operand named `name`, when there is one and it has a value.
pub open spec fn operand_value_named(operands: Seq<Operand>, name: Seq<char>) -> Option<u16> {
    match first_operand_named(operands, name) {
        Some(op) => op.value,
        None => None,
    }
}

impl Operand {
    /// A copy of the operand.
    pub fn duplicate(&self) -> (r: Operand)
        ensures
            r == *self,
    {
        Operand {
            immediate: self.immediate,
            name: self.name.clone(),
            bytes: self.bytes,
            value: self.value,
            adjust: self.adjust,
        }
    }
}

/// A copy of a list of operands.
pub fn duplicate_operands(operands: &Vec<Operand>) -> (r: Vec<Operand>)
    ensures
        r@ == operands@,
{
    let mut r: Vec<Operand> = Vec::new();
    let mut i: usize = 0;
    while i < operands.len()
        invariant
            i <= operands@.len(),
            r@ == operands@.take(i as int),
        decreases operands@.len() - i,
    {
        r.push(operands[i].duplicate());
        i += 1;
        assert(r@ =~= operands@.take(i as int));
    }
    assert(operands@.take(i as int) =~= operands@);
    r
}

/// A copy of a list of cycle counts.
pub fn duplicate_cycles(cycles: &Vec<u8>) -> (r: Vec<u8>)
    ensures
        r@ == cycles@,
{
    let mut r: Vec<u8> = Vec::new();
    let mut i: usize = 0;
    while i < cycles.len()
        invariant
            i <= cycles@.len(),
            r@ == cycles@.take(i as int),
        decreases cycles@.len() - i,
    {
        r.push(cycles[i]);
        i += 1;
        assert(r@ =~= cycles@.take(i as int));
    }
    assert(cycles@.take(i as int) =~= cycles@);
    r
}

impl Instruction {
    /// The two instructions hold the same fields.
    pub open spec fn same_as(self, other: Instruction) -> bool {
        &&& self.opcode == other.opcode
        &&& self.immediate == other.immediate
        &&& self.operands@ == other.operands@
        &&& self.cycles@ == other.cycles@
        &&& self.bytes == other.bytes
        &&& self.mnemonic@ == other.mnemonic@
        &&& self.comment == other.comment
        &&& self.prefixed == other.prefixed
    }

    /// A copy of the instruction.
    pub fn duplicate(&self) -> (r: Instruction)
        ensures
            r.same_as(*self),
    {
        Instruction {
            opcode: self.opcode,
            immediate: self.immediate,
            operands: duplicate_operands(&self.operands),
            cycles: duplicate_cycles(&self.cycles),
            bytes: self.bytes,
            mnemonic: self.mnemonic.clone(),
            comment: self.comment,
            prefixed: self.prefixed,
        }
    }
}

/// The value of the first operand of `operands` named `name`: `None` when no operand
/// has that name, `Some(None)` when the first one has no value.
pub fn find_operand_value(operands: &Vec<Operand>, name: &str) -> (r: Option<Option<u16>>)
    ensures
        r == match first_operand_named(operands@, name@) {
            Some(op) => Some(op.value),
            None => None,
        },
{
    let wanted = name.to_owned();
    let mut i: usize = 0;
    assert(operands@.subrange(0, operands@.len() as int) =~= operands@);
    while i < operands.len()
        invariant
            i <= operands@.len(),
            wanted@ == name@,
            first_operand_named(operands@, name@) == first_operand_named(
                operands@.subrange(i as int, operands@.len() as int),
                name@,
            ),
        decreases operands@.len() - i,
    {
        let ghost rest = operands@.subrange(i as int, operands@.len() as int);
        assert(rest[0] == operands@[i as int]);
        if operands[i].name == wanted {
            return Some(operands[i].value);
        }
        assert(rest.drop_first() =~= operands@.subrange(i as int + 1, operands@.len() as int));
        i += 1;
    }
    None
}

/// An operand as the opcode table file describes it.
pub struct OperandEntry {
    pub immediate: bool,
    pub name: String,
    pub bytes: Option<i64>,
}

/// An instruction as the opcode table file describes it.
pub struct OpCodeEntry {
    pub mnemonic: String,
    pub bytes: i64,
    pub cycles: Vec<i64>,
    pub operands: Vec<OperandEntry>,
    pub immediate: bool,
}

/// The opcode table file: for each category ("unprefixed", "cbprefixed"), its
/// entries in the file's order, each under its hexadecimal key ("0x3E").
pub struct OpCodesJson {
    pub categories: Vec<(String, Vec<(String, OpCodeEntry)>)>,
}

/// The value of a hexadecimal digit.
pub open spec fn hex_digit(c: char) -> Option<int> {
    if '0' <= c && c <= '9' {
        Some(c as int - '0' as int)
    } else if 'a' <= c && c <= 'f' {
        Some(c as int - 'a' as int + 10)
    } else if 'A' <= c && c <= 'F' {
        Some(c as int - 'A' as int + 10)
    } else {
        None
    }
}

/// The number that a run of hexadecimal digits writes, when each is one.
pub open spec fn hex_value(s: Seq<char>) -> Option<int>
    decreases s.len(),
{
    if s.len() == 0 {
        Some(0)
    } else {
        match (hex_value(s.drop_last()), hex_digit(s.last())) {
            (Some(v), Some(d)) => Some(v * 16 + d),
            _ => None,
        }
    }
}

/// `s` with every leading "0x" taken off.
pub open spec fn without_hex_prefix(s: Seq<char>) -> Seq<char>
    decreases s.len(),
{
    if s.len() >= 2 && s[0] == '0' && s[1] == 'x' {
        without_hex_prefix(s.subrange(2, s.len() as int))
    } else {
        s
    }
}

/// A byte written in hexadecimal: an optional '+' and at least one digit, of value below 256.
pub open spec fn hex_byte(s: Seq<char>) -> Option<u8> {
    let digits = if s.len() > 0 && s[0] == '+' { s.drop_first() } else { s };
    if digits.len() == 0 {
        None
    } else {
        match hex_value(digits) {
            Some(v) => if v < 256 { Some(v as u8) } else { None },
            None => None,
        }
    }
}

/// The opcode an entry's key names: the key without its "0x" prefixes, in hexadecimal.
pub open spec fn opcode_key(key: Seq<char>) -> Option<u8> {
    hex_byte(without_hex_prefix(key))
}

/// A prefix of digits worth at least `x` leaves the whole run worth at least
/// `x`, or not a number.
proof fn lemma_hex_value_grows(s: Seq<char>, j: int, k: int)
    requires
        0 <= j <= k <= s.len(),
        hex_value(s.subrange(0, j)) is Some,
    ensures
        hex_value(s.subrange(0, k)) is None || hex_value(s.subrange(0, k)).unwrap() >= hex_value(
            s.subrange(0, j),
        ).unwrap(),
    decreases k - j,
{
    if j < k {
        lemma_hex_value_grows(s, j, k - 1);
        assert(s.subrange(0, k).drop_last() =~= s.subrange(0, k - 1));
        if hex_value(s.subrange(0, k - 1)) is Some {
            assert(hex_value(s.subrange(0, k - 1)).unwrap() >= 0) by {
                lemma_hex_value_nonnegative(s.subrange(0, k - 1));
            }
        }
    }
}

/// A prefix that is not a number leaves the whole run not a number.
proof fn lemma_hex_value_stays_none(s: Seq<char>, j: int, k: int)
    requires
        0 <= j <= k <= s.len(),
        hex_value(s.subrange(0, j)) is None,
    ensures
        hex_value(s.subrange(0, k)) is None,
    decreases k - j,
{
    if j < k {
        lemma_hex_value_stays_none(s, j, k - 1);
        assert(s.subrange(0, k).drop_last() =~= s.subrange(0, k - 1));
    }
}

/// Hexadecimal values are never negative.
proof fn lemma_hex_value_nonnegative(s: Seq<char>)
    requires
        hex_value(s) is Some,
    ensures
        hex_value(s).unwrap() >= 0,
    decreases s.len(),
{
    if s.len() > 0 {
        lemma_hex_value_nonnegative(s.drop_last());
    }
}

/// The opcode that the key of a table entry names, or `None` where the key is
/// not a byte in hexadecimal.
pub fn opcode_key_value(key: &str) -> (r: Option<u8>)
    ensures
        r == opcode_key(key@),
{
    let n = key.unicode_len();
    let mut start: usize = 0;
    assert(key@.subrange(0, n as int) =~= key@);
    while n - start >= 2 && key.get_char(start) == '0' && key.get_char(start + 1) == 'x'
        invariant
            n == key@.len(),
            start <= n,
            without_hex_prefix(key@) == without_hex_prefix(key@.subrange(start as int, n as int)),
        decreases n - start,
    {
        assert(key@.subrange(start as int, n as int).subrange(2, n - start) =~= key@.subrange(
            start + 2,
            n as int,
        ));
        start = start + 2;
    }
    let ghost rest = key@.subrange(start as int, n as int);
    assert(without_hex_prefix(rest) == rest);
    assert(opcode_key(key@) == hex_byte(rest));
    if start < n && key.get_char(start) == '+' {
        start = start + 1;
    }
    let ghost digits = key@.subrange(start as int, n as int);
    assert(digits == if rest.len() > 0 && rest[0] == '+' { rest.drop_first() } else { rest });
    if start >= n {
        return None;
    }
    let mut value: u32 = 0;
    let mut i: usize = start;
    assert(digits.subrange(0, 0) =~= Seq::<char>::empty());
    while i < n
        invariant
            n == key@.len(),
            start <= i <= n,
            digits == key@.subrange(start as int, n as int),
            digits.len() > 0,
            opcode_key(key@) == hex_byte(rest),
            digits == if rest.len() > 0 && rest[0] == '+' { rest.drop_first() } else { rest },
            hex_value(digits.subrange(0, i - start)) == Some(value as int),
            value < 256,
        decreases n - i,
    {
        let c = key.get_char(i);
        let ghost prefix = digits.subrange(0, i + 1 - start);
        assert(prefix.drop_last() =~= digits.subrange(0, i - start));
        assert(prefix.last() == c);
        let d: u32 = if '0' <= c && c <= '9' {
            (c as u32) - ('0' as u32)
        } else if 'a' <= c && c <= 'f' {
            (c as u32) - ('a' as u32) + 10
        } else if 'A' <= c && c <= 'F' {
            (c as u32) - ('A' as u32) + 10
        } else {
            proof {
                assert(hex_digit(c) is None);
                assert(hex_value(prefix) is None);
                lemma_hex_value_stays_none(digits, i + 1 - start, digits.len() as int);
                assert(digits.subrange(0, digits.len() as int) =~= digits);
                assert(hex_value(digits) is None);
            }
            return None;
        };
        value = value * 16 + d;
        if value >= 256 {
            proof {
                assert(hex_value(prefix) == Some(value as int));
                lemma_hex_value_grows(digits, i + 1 - start, digits.len() as int);
                assert(digits.subrange(0, digits.len() as int) =~= digits);
            }
            return None;
        }
        i = i + 1;
    }
    assert(digits.subrange(0, n - start) =~= digits);
    Some(value as u8)
}

/// The last entry of `entries` whose key names `code`.
pub open spec fn last_entry_with_key(entries: Seq<(String, OpCodeEntry)>, code: u8) -> Option<int>
    decreases entries.len(),
{
    if entries.len() == 0 {
        None
    } else if opcode_key(entries.last().0@) == Some(code) {
        Some(entries.len() - 1)
    } else {
        last_entry_with_key(entries.drop_last(), code)
    }
}

/// `ins` is the table instruction that entry `e` describes for opcode `code`:
/// each number is taken by its low byte, and the operands have no value yet.
pub open spec fn instruction_from_entry(ins: Instruction, e: OpCodeEntry, code: u8, prefixed: bool) -> bool {
    &&& ins.opcode == code
    &&& ins.immediate == e.immediate
    &&& ins.operands@.len() == e.operands@.len()
    &&& forall|j: int| 0 <= j < e.operands@.len() ==> {
        let o = #[trigger] ins.operands@[j];
        let eo = e.operands@[j];
        &&& o.immediate == eo.immediate
        &&& o.name@ == eo.name@
        &&& o.bytes == match eo.bytes {
            Some(b) => Some(b as u8),
            None => None,
        }
        &&& o.value is None
        &&& o.adjust is None
    }
    &&& ins.cycles@.len() == e.cycles@.len()
    &&& forall|j: int| 0 <= j < e.cycles@.len() ==> #[trigger] ins.cycles@[j] == e.cycles@[j] as u8
    &&& ins.bytes == e.bytes as u8
    &&& ins.mnemonic@ == e.mnemonic@
    &&& ins.comment is None
    &&& ins.prefixed == prefixed
}

/// The entries of the first category of `categories` named `category`.
pub open spec fn category_entries(categories: Seq<(String, Vec<(String, OpCodeEntry)>)>, category: Seq<char>) -> Option<Seq<(String, OpCodeEntry)>>
    decreases categories.len(),
{
    if categories.len() == 0 {
        None
    } else if categories[0].0@ == category {
        Some(categories[0].1@)
    } else {
        category_entries(categories.drop_first(), category)
    }
}

/// `table` is the instruction table of `entries`, keyed by opcode: each entry
/// under the opcode its key names, a later entry replacing an earlier one.
pub open spec fn is_instruction_table(table: Map<u8, Instruction>, entries: Seq<(String, OpCodeEntry)>, prefixed: bool) -> bool {
    forall|code: u8|
        match last_entry_with_key(entries, code) {
            Some(i) => #[trigger] table.contains_key(code) && instruction_from_entry(
                table[code],
                entries[i].1,
                code,
                prefixed,
            ),
            None => !table.contains_key(code),
        }
}

/// The instruction a table holds under `code`, if any.
pub open spec fn table_lookup(table: Map<u8, Instruction>, code: u8) -> Option<Instruction> {
    if table.contains_key(code) {
        Some(table[code])
    } else {
        None
    }
}

/// The table instruction for entry `e` under opcode `code`.
fn instruction_of_entry(e: &OpCodeEntry, code: u8, prefixed: bool) -> (ins: Instruction)
    ensures
        instruction_from_entry(ins, *e, code, prefixed),
{
    let mut operands: Vec<Operand> = Vec::new();
    let mut j: usize = 0;
    while j < e.operands.len()
        invariant
            j <= e.operands@.len(),
            operands@.len() == j,
            forall|k: int| 0 <= k < j ==> {
                let o = #[trigger] operands@[k];
                let eo = e.operands@[k];
                &&& o.immediate == eo.immediate
                &&& o.name@ == eo.name@
                &&& o.bytes == match eo.bytes {
                    Some(b) => Some(b as u8),
                    None => None,
                }
                &&& o.value is None
                &&& o.adjust is None
            },
        decreases e.operands@.len() - j,
    {
        let eo = &e.operands[j];
        let bytes = match eo.bytes {
            Some(b) => Some(b as u8),
            None => None,
        };
        operands.push(Operand {
            immediate: eo.immediate,
            name: eo.name.clone(),
            bytes,
            value: None,
            adjust: None,
        });
        j = j + 1;
    }
    let mut cycles: Vec<u8> = Vec::new();
    let mut k: usize = 0;
    while k < e.cycles.len()
        invariant
            k <= e.cycles@.len(),
            cycles@.len() == k,
            forall|m: int| 0 <= m < k ==> #[trigger] cycles@[m] == e.cycles@[m] as u8,
        decreases e.cycles@.len() - k,
    {
        cycles.push(e.cycles[k] as u8);
        k = k + 1;
    }
    Instruction {
        opcode: code,
        immediate: e.immediate,
        operands,
        cycles,
        bytes: e.bytes as u8,
        mnemonic: e.mnemonic.clone(),
        comment: None,
        prefixed,
    }
}

/// The instruction table of category `category`, keyed by opcode: each entry
/// goes under the opcode its key names, a later entry replacing an earlier one
/// with the same opcode; instructions of "cbprefixed" are marked prefixed.
pub fn get_instructions_from_json(json_op_codes: &OpCodesJson, category: &str) -> (table: HashMap<u8, Instruction>)
    requires
        category_entries(json_op_codes.categories@, category@) is Some,
        forall|i: int| 0 <= i < category_entries(json_op_codes.categories@, category@).unwrap().len()
            ==> opcode_key(#[trigger] category_entries(json_op_codes.categories@, category@).unwrap()[i].0@) is Some,
    ensures
        is_instruction_table(
            table@,
            category_entries(json_op_codes.categories@, category@).unwrap(),
            category@ == "cbprefixed"@,
        ),
{
    let ghost entries = category_entries(json_op_codes.categories@, category@).unwrap();
    let wanted = category.to_owned();
    let ghost cats = json_op_codes.categories@;
    let mut c: usize = 0;
    assert(cats.subrange(0, cats.len() as int) =~= cats);
    while c < json_op_codes.categories.len() && json_op_codes.categories[c].0 != wanted
        invariant
            c <= cats.len(),
            cats == json_op_codes.categories@,
            wanted@ == category@,
            category_entries(cats, category@) == category_entries(
                cats.subrange(c as int, cats.len() as int),
                category@,
            ),
        decreases cats.len() - c,
    {
        assert(cats.subrange(c as int, cats.len() as int).drop_first() =~= cats.subrange(
            c + 1,
            cats.len() as int,
        ));
        c = c + 1;
    }
    let list = &json_op_codes.categories[c].1;
    assert(cats.subrange(c as int, cats.len() as int)[0] == cats[c as int]);
    let prefixed = wanted == "cbprefixed".to_owned();
    let mut table: HashMap<u8, Instruction> = HashMap::new();
    let mut n: usize = 0;
    while n < list.len()
        invariant
            n <= list@.len(),
            list@ == entries,
            prefixed == (category@ == "cbprefixed"@),
            forall|i: int| 0 <= i < entries.len() ==> opcode_key(#[trigger] entries[i].0@) is Some,
            forall|code: u8|
                match last_entry_with_key(entries.take(n as int), code) {
                    Some(i) => #[trigger] table@.contains_key(code) && instruction_from_entry(
                        table@[code],
                        entries[i].1,
                        code,
                        prefixed,
                    ),
                    None => !table@.contains_key(code),
                },
        decreases list@.len() - n,
    {
        let (key, entry) = &list[n];
        let code = opcode_key_value(key.as_str()).unwrap();
        let ins = instruction_of_entry(entry, code, prefixed);
        let ghost before = table@;
        table.insert(code, ins);
        proof {
            assert(entries.take(n + 1).drop_last() =~= entries.take(n as int));
            assert(entries.take(n + 1).last() == entries[n as int]);
            assert forall|c: u8|
                match last_entry_with_key(entries.take(n + 1), c) {
                    Some(i) => #[trigger] table@.contains_key(c) && instruction_from_entry(
                        table@[c],
                        entries[i].1,
                        c,
                        prefixed,
                    ),
                    None => !table@.contains_key(c),
                } by {
                if c != code {
                    assert(table@.contains_key(c) == before.contains_key(c));
                    assert(last_entry_with_key(entries.take(n + 1), c) == last_entry_with_key(
                        entries.take(n as int),
                        c,
                    ));
                    if before.contains_key(c) {
                        assert(table@[c] == before[c]);
                    }
                }
            }
        }
        n = n + 1;
    }
    assert(entries.take(n as int) =~= entries);
    assert(is_instruction_table(table@, entries, prefixed));
    table
}

/// How an operand is shown: its value when it has one (with "0x" and at least
/// two hexadecimal digits when it came from instruction data, in decimal
/// otherwise), else its name; in brackets when it is not immediate.
pub open spec fn operand_text(o: Operand) -> Seq<char> {
    let shown = match o.value {
        None => o.name@,
        Some(v) => if o.bytes is Some {
            seq!['0', 'x'] + (if v < 16 { seq!['0'] } else { Seq::empty() }) + hex_text(v as nat)
        } else {
            decimal_text(v as nat)
        },
    };
    if o.immediate {
        shown
    } else {
        seq!['('] + shown + seq![')']
    }
}

/// The first `n` operands shown, each but the last of all followed by ", ".
pub open spec fn operands_text(ops: Seq<Operand>, n: int) -> Seq<char>
    decreases n,
{
    if n <= 0 {
        Seq::empty()
    } else {
        operands_text(ops, n - 1) + operand_text(ops[n - 1]) + if n - 1 == ops.len() - 1 {
            Seq::empty()
        } else {
            seq![',', ' ']
        }
    }
}

/// How an instruction is shown: the mnemonic padded to six characters, the
/// operands, and " ; " and the comment padded to four when there is one.
pub open spec fn instruction_text(ins: Instruction) -> Seq<char> {
    padded(ins.mnemonic@, 6) + operands_text(ins.operands@, ins.operands@.len() as int) + match ins.comment {
        Some(c) => seq![' ', ';', ' '] + padded(c@, 4),
        None => Seq::empty(),
    }
}

impl Operand {
    /// The operand as it is shown (see `operand_text`).
    pub fn to_text(&self) -> (text: String)
        ensures
            text@ == operand_text(*self),
    {
        proof {
            reveal_strlit("");
            reveal_strlit("0x");
            reveal_strlit("0x0");
            reveal_strlit("(");
            reveal_strlit(")");
        }
        let mut text = String::from_str("");
        if !self.immediate {
            text.append("(");
        }
        match self.value {
            None => {
                text.append(self.name.as_str());
            },
            Some(v) => {
                if self.bytes.is_some() {
                    if v < 16 {
                        text.append("0x0");
                    } else {
                        text.append("0x");
                    }
                    append_hex(&mut text, v);
                } else {
                    append_decimal(&mut text, v);
                }
            },
        }
        if !self.immediate {
            text.append(")");
        }
        assert(text@ =~= operand_text(*self));
        text
    }
}

impl Instruction {
    /// The instruction as it is shown (see `instruction_text`).
    pub fn to_text(&self) -> (text: String)
        ensures
            text@ == instruction_text(*self),
    {
        proof {
            reveal_strlit("");
            reveal_strlit(", ");
            reveal_strlit(" ; ");
        }
        let mut text = String::from_str("");
        append_padded(&mut text, self.mnemonic.as_str(), 6);
        let ghost head = text@;
        let mut pos: usize = 0;
        while pos < self.operands.len()
            invariant
                pos <= self.operands@.len(),
                head == padded(self.mnemonic@, 6),
                text@ == head + operands_text(self.operands@, pos as int),
            decreases self.operands@.len() - pos,
        {
            proof {
                reveal_strlit(", ");
            }
            let operand_text_now = self.operands[pos].to_text();
            text.append(operand_text_now.as_str());
            if pos != self.operands.len() - 1 {
                text.append(", ");
            }
            pos = pos + 1;
            assert(text@ =~= head + operands_text(self.operands@, pos as int));
        }
        match self.comment {
            Some(c) => {
                text.append(" ; ");
                append_padded(&mut text, c, 4);
            },
            None => {},
        }
        assert(text@ =~= instruction_text(*self));
        text
    }
}

impl AdjustTypes {
    /// How an adjustment is shown: as nothing.
    pub fn to_text(&self) -> (text: String)
        ensures
            text@ == Seq::<char>::empty(),
    {
        proof {
            reveal_strlit("");
        }
        String::from_str("")
    }
}

} // verus!
