use vstd::prelude::*;
use vstd::string::{StrSliceExecFns, StringExecFns};
use crate::text::{zero_padded_hex, binary_text, decimal_text, append_zero_padded_hex, append_binary, append_decimal};

verus! {

/// Something that can be read or written in the register file: an 8-bit register,
/// a 16-bit register pair, the program counter, the stack pointer or one of the four
/// flags held in the upper nibble of `F`.
#[derive(Clone, Copy, PartialEq, Eq, Debug, Structural)]
pub enum RegisterItem {
    A,
    F,
    B,
    C,
    D,
    E,
    H,
    L,
    AF,
    BC,
    DE,
    HL,
    PC,
    SP,
    /// zero flag, bit 7 of `F`
    FlagZ,
    /// subtract flag, bit 6 of `F`
    FlagN,
    /// half carry flag, bit 5 of `F`
    FlagH,
    /// carry flag, bit 4 of `F`
    FlagC,
}

impl RegisterItem {
    pub open spec fn is_flag(self) -> bool {
        ||| self == RegisterItem::FlagZ
        ||| self == RegisterItem::FlagN
        ||| self == RegisterItem::FlagH
        ||| self == RegisterItem::FlagC
    }

    pub open spec fn is_byte_register(self) -> bool {
        ||| self == RegisterItem::A
        ||| self == RegisterItem::F
        ||| self == RegisterItem::B
        ||| self == RegisterItem::C
        ||| self == RegisterItem::D
        ||| self == RegisterItem::E
        ||| self == RegisterItem::H
        ||| self == RegisterItem::L
    }

    pub open spec fn is_word_register(self) -> bool {
        !self.is_flag() && !self.is_byte_register()
    }
}

/// The register file of the CPU: four register pairs, the program counter and the
/// stack pointer. The flags live in the upper nibble of `F`, the low byte of `AF`.
#[derive(Clone, Copy, PartialEq, Eq, Debug, Structural)]
#[allow(non_snake_case)]
pub struct Registers {
    pub AF: u16,
    pub BC: u16,
    pub DE: u16,
    pub HL: u16,
    pub PC: u16,
    pub SP: u16,
}

/// The register file as the program sees it: the accumulator, the four flags, the
/// four unused low bits of `F`, and the other pairs as 16-bit values.
pub struct RegistersView {
    pub a: u8,
    pub zf: bool,
    pub nf: bool,
    pub hf: bool,
    pub cf: bool,
    pub f_low: u8,
    pub bc: u16,
    pub de: u16,
    pub hl: u16,
    pub pc: u16,
    pub sp: u16,
}

pub open spec fn bit_value(b: bool) -> u16 {
    if b {
        1
    } else {
        0
    }
}

impl RegistersView {
    /// The byte `F` holding the four flags and the four low bits.
    pub open spec fn f_byte(self) -> u16 {
        ((if self.zf { 0x80u16 } else { 0u16 }) + (if self.nf { 0x40u16 } else { 0u16 }) + (if self.hf {
            0x20u16
        } else {
            0u16
        }) + (if self.cf { 0x10u16 } else { 0u16 }) + self.f_low as u16) as u16
    }

    /// `F` written as a whole: the flags are its upper nibble.
    pub open spec fn with_f_byte(self, f: u16) -> RegistersView
        recommends
            f < 256,
    {
        RegistersView {
            zf: f / 128 % 2 == 1,
            nf: f / 64 % 2 == 1,
            hf: f / 32 % 2 == 1,
            cf: f / 16 % 2 == 1,
            f_low: (f % 16) as u8,
            ..self
        }
    }

    /// The value that reading `item` gives.
    pub open spec fn get(self, item: RegisterItem) -> u16 {
        match item {
            RegisterItem::A => self.a as u16,
            RegisterItem::F => self.f_byte(),
            RegisterItem::B => self.bc / 256,
            RegisterItem::C => self.bc % 256,
            RegisterItem::D => self.de / 256,
            RegisterItem::E => self.de % 256,
            RegisterItem::H => self.hl / 256,
            RegisterItem::L => self.hl % 256,
            RegisterItem::AF => (self.a as u16 * 256 + self.f_byte()) as u16,
            RegisterItem::BC => self.bc,
            RegisterItem::DE => self.de,
            RegisterItem::HL => self.hl,
            RegisterItem::PC => self.pc,
            RegisterItem::SP => self.sp,
            RegisterItem::FlagZ => bit_value(self.zf),
            RegisterItem::FlagN => bit_value(self.nf),
            RegisterItem::FlagH => bit_value(self.hf),
            RegisterItem::FlagC => bit_value(self.cf),
        }
    }

    /// The register file after writing `value` to `item`: a byte register keeps the low
    /// byte of `value`, a flag is set when `value` is 1 and cleared when it is 0.
    pub open spec fn set(self, item: RegisterItem, value: u16) -> RegistersView {
        match item {
            RegisterItem::A => RegistersView { a: (value % 256) as u8, ..self },
            RegisterItem::F => self.with_f_byte(value % 256),
            RegisterItem::B => RegistersView { bc: ((value % 256) * 256 + self.bc % 256) as u16, ..self },
            RegisterItem::C => RegistersView { bc: (self.bc / 256 * 256 + value % 256) as u16, ..self },
            RegisterItem::D => RegistersView { de: ((value % 256) * 256 + self.de % 256) as u16, ..self },
            RegisterItem::E => RegistersView { de: (self.de / 256 * 256 + value % 256) as u16, ..self },
            RegisterItem::H => RegistersView { hl: ((value % 256) * 256 + self.hl % 256) as u16, ..self },
            RegisterItem::L => RegistersView { hl: (self.hl / 256 * 256 + value % 256) as u16, ..self },
            RegisterItem::AF => RegistersView { a: (value / 256) as u8, ..self }.with_f_byte(
                value % 256,
            ),
            RegisterItem::BC => RegistersView { bc: value, ..self },
            RegisterItem::DE => RegistersView { de: value, ..self },
            RegisterItem::HL => RegistersView { hl: value, ..self },
            RegisterItem::PC => RegistersView { pc: value, ..self },
            RegisterItem::SP => RegistersView { sp: value, ..self },
            RegisterItem::FlagZ => RegistersView { zf: value == 1, ..self },
            RegisterItem::FlagN => RegistersView { nf: value == 1, ..self },
            RegisterItem::FlagH => RegistersView { hf: value == 1, ..self },
            RegisterItem::FlagC => RegistersView { cf: value == 1, ..self },
        }
    }

    /// Writing `item` is defined for every value but for a flag, which takes 0 or 1.
    pub open spec fn can_set(item: RegisterItem, value: u16) -> bool {
        item.is_flag() ==> value <= 1
    }

    /// Accumulator and the four flags replaced at once, the low bits of `F` kept.
    pub open spec fn with_a_flags(self, a: u8, z: bool, n: bool, h: bool, c: bool) -> RegistersView {
        RegistersView { a, zf: z, nf: n, hf: h, cf: c, ..self }
    }

    /// The four flags replaced, all else kept.
    pub open spec fn with_flags(self, z: bool, n: bool, h: bool, c: bool) -> RegistersView {
        RegistersView { zf: z, nf: n, hf: h, cf: c, ..self }
    }
}

impl View for Registers {
    type V = RegistersView;

    open spec fn view(&self) -> RegistersView {
        RegistersView {
            a: (self.AF >> 8) as u8,
            zf: self.AF & 0x80 != 0,
            nf: self.AF & 0x40 != 0,
            hf: self.AF & 0x20 != 0,
            cf: self.AF & 0x10 != 0,
            f_low: (self.AF & 0x0F) as u8,
            bc: self.BC,
            de: self.DE,
            hl: self.HL,
            pc: self.PC,
            sp: self.SP,
        }
    }
}

proof fn lemma_af_low_byte(af: u16)
    by (bit_vector)
    ensures
        af & 0xFF == (if af & 0x80 != 0 { 0x80u16 } else { 0u16 }) + (if af & 0x40 != 0 {
            0x40u16
        } else {
            0u16
        }) + (if af & 0x20 != 0 { 0x20u16 } else { 0u16 }) + (if af & 0x10 != 0 {
            0x10u16
        } else {
            0u16
        }) + (af & 0x0F),
        af >> 8 == af / 256,
        af >> 8 < 256,
        af & 0xFF == af % 256,
{
}

proof fn lemma_byte_pair(x: u16, y: u16)
    requires
        x < 256,
        y < 256,
    ensures
        ((x * 256 + y) as u16) / 256 == x,
        ((x * 256 + y) as u16) % 256 == y,
        x * 256 + y < 0x10000,
{
    assert(((x * 256 + y) as u16) / 256 == x && ((x * 256 + y) as u16) % 256 == y && x * 256 + y
        < 0x10000) by (bit_vector)
        requires
            x < 256,
            y < 256,
    ;
}

proof fn lemma_f_roundtrip(f: u16)
    requires
        f < 256,
    ensures
        ((if f / 128 % 2 == 1 { 0x80u16 } else { 0u16 }) + (if f / 64 % 2 == 1 {
            0x40u16
        } else {
            0u16
        }) + (if f / 32 % 2 == 1 { 0x20u16 } else { 0u16 }) + (if f / 16 % 2 == 1 {
            0x10u16
        } else {
            0u16
        }) + f % 16) == f,
{
    assert(((if f / 128 % 2 == 1 { 0x80u16 } else { 0u16 }) + (if f / 64 % 2 == 1 {
        0x40u16
    } else {
        0u16
    }) + (if f / 32 % 2 == 1 { 0x20u16 } else { 0u16 }) + (if f / 16 % 2 == 1 {
        0x10u16
    } else {
        0u16
    }) + f % 16) == f) by (bit_vector)
        requires
            f < 256,
    ;
}

proof fn lemma_af_flags_of_byte(af: u16)
    ensures
        (af & 0x80 != 0) == ((af & 0xFF) / 128 % 2 == 1),
        (af & 0x40 != 0) == ((af & 0xFF) / 64 % 2 == 1),
        (af & 0x20 != 0) == ((af & 0xFF) / 32 % 2 == 1),
        (af & 0x10 != 0) == ((af & 0xFF) / 16 % 2 == 1),
        af & 0x0F == (af & 0xFF) % 16,
{
    assert(((af & 0x80 != 0) == ((af & 0xFF) / 128 % 2 == 1)) && ((af & 0x40 != 0) == ((af & 0xFF) / 64 % 2 == 1)) && ((af & 0x20 != 0) == ((af & 0xFF) / 32 % 2 == 1)) && ((af & 0x10 != 0) == ((af & 0xFF) / 16 % 2 == 1)) && (af & 0x0F == (af & 0xFF) % 16)) by (bit_vector);
}

/// Writing the high or the low byte of a word keeps the other byte, and, of AF,
/// the flag bits.
proof fn lemma_byte_written(x: u16, value: u16)
    by (bit_vector)
    ensures
        ((x & 0xFF) | ((value & 0xFF) << 8)) >> 8 == value % 256,
        ((x & 0xFF) | ((value & 0xFF) << 8)) & 0x80 == x & 0x80,
        ((x & 0xFF) | ((value & 0xFF) << 8)) & 0x40 == x & 0x40,
        ((x & 0xFF) | ((value & 0xFF) << 8)) & 0x20 == x & 0x20,
        ((x & 0xFF) | ((value & 0xFF) << 8)) & 0x10 == x & 0x10,
        ((x & 0xFF) | ((value & 0xFF) << 8)) & 0x0F == x & 0x0F,
        ((x & 0xFF) | ((value & 0xFF) << 8)) == (value % 256) * 256 + x % 256,
        ((x & 0xFF00) | (value & 0xFF)) >> 8 == x >> 8,
        ((x & 0xFF00) | (value & 0xFF)) & 0xFF == value % 256,
        ((x & 0xFF00) | (value & 0xFF)) == x / 256 * 256 + value % 256,
{
}

/// Setting or clearing one flag bit of AF leaves A, the low nibble and the other
/// flag bits as they were.
proof fn lemma_flag_written(af: u16, m: u16, value: u16, nv: u16)
    by (bit_vector)
    requires
        m == 0x80 || m == 0x40 || m == 0x20 || m == 0x10,
        nv == if value == 1 { af | m } else { af & !m },
    ensures
        nv >> 8 == af >> 8,
        (nv & m != 0) == (value == 1),
        nv & 0x0F == af & 0x0F,
        m != 0x80 ==> nv & 0x80 == af & 0x80,
        m != 0x40 ==> nv & 0x40 == af & 0x40,
        m != 0x20 ==> nv & 0x20 == af & 0x20,
        m != 0x10 ==> nv & 0x10 == af & 0x10,
{
}

impl Registers {
    /// The register file at power-on: everything zero but the program counter, at
    /// 0x200, and the stack pointer, at the top of high RAM (0xFFFE).
    pub open spec fn new_view() -> RegistersView {
        RegistersView {
            a: 0,
            zf: false,
            nf: false,
            hf: false,
            cf: false,
            f_low: 0,
            bc: 0,
            de: 0,
            hl: 0,
            pc: 0x200,
            sp: 0xFFFE,
        }
    }

    /// The register file at power-on: everything zero but the program counter, at
    /// 0x200, and the stack pointer, at the top of high RAM (0xFFFE).
    pub fn new() -> (r: Registers)
        ensures
            r@ == Self::new_view(),
    {
        let r = Registers { AF: 0, BC: 0, DE: 0, HL: 0, PC: 0x200, SP: 0xFFFE };
        assert(0u16 >> 8 == 0 && 0u16 & 0x80 == 0 && 0u16 & 0x40 == 0 && 0u16 & 0x20 == 0
            && 0u16 & 0x10 == 0 && 0u16 & 0x0F == 0) by (bit_vector);
        r
    }

    fn get_pair(&self, item: RegisterItem) -> (r: u16)
        requires
            item.is_word_register(),
        ensures
            r == match item {
                RegisterItem::AF => self.AF,
                RegisterItem::BC => self.BC,
                RegisterItem::DE => self.DE,
                RegisterItem::HL => self.HL,
                RegisterItem::PC => self.PC,
                _ => self.SP,
            },
    {
        match item {
            RegisterItem::AF => self.AF,
            RegisterItem::BC => self.BC,
            RegisterItem::DE => self.DE,
            RegisterItem::HL => self.HL,
            RegisterItem::PC => self.PC,
            _ => self.SP,
        }
    }

    /// Reads an 8-bit register, a pair, PC, SP, or a flag (as 0 or 1).
    pub fn get_item(&self, item: RegisterItem) -> (r: u16)
        ensures
            r == self@.get(item),
    {
        let af = self.AF;
        let bc = self.BC;
        let de = self.DE;
        let hl = self.HL;
        proof {
            lemma_af_low_byte(af);
        }
        assert((bc >> 8 == bc / 256 && bc & 0xFF == bc % 256) && (de >> 8 == de / 256 && de & 0xFF == de % 256) && (hl >> 8 == hl / 256 && hl & 0xFF == hl % 256) && ((af >> 8) as u8 as u16 == af >> 8) && ((af >> 7u16) & 1 == bit_value(af & 0x80 != 0)) && ((af >> 6u16) & 1 == bit_value(af & 0x40 != 0)) && ((af >> 5u16) & 1 == bit_value(af & 0x20 != 0)) && ((af >> 4u16) & 1 == bit_value(af & 0x10 != 0)) && (af == (af >> 8) * 256 + (af & 0xFF))) by (bit_vector);
        match item {
            RegisterItem::A => {
                self.AF >> 8
            },
            RegisterItem::F => self.AF & 0xFF,
            RegisterItem::B => self.BC >> 8,
            RegisterItem::C => self.BC & 0xFF,
            RegisterItem::D => self.DE >> 8,
            RegisterItem::E => self.DE & 0xFF,
            RegisterItem::H => self.HL >> 8,
            RegisterItem::L => self.HL & 0xFF,
            RegisterItem::FlagZ => {
                self.AF >> 7 & 1
            },
            RegisterItem::FlagN => {
                self.AF >> 6 & 1
            },
            RegisterItem::FlagH => {
                self.AF >> 5 & 1
            },
            RegisterItem::FlagC => {
                self.AF >> 4 & 1
            },
            _ => {
                self.get_pair(item)
            },
        }
    }

    /// Writes an item: a byte register takes the low byte of `value`, a flag is set by 1
    /// and cleared by 0, and the pairs, PC and SP take `value` whole.
    pub fn set_item(&mut self, item: RegisterItem, value: u16)
        requires
            RegistersView::can_set(item, value),
        ensures
            final(self)@ == old(self)@.set(item, value),
    {
        let af = self.AF;
        match item {
            RegisterItem::A => {
                let nv = (af & 0xFF) | ((value & 0xFF) << 8);
                proof {
                    lemma_byte_written(af, value);
                }
                self.AF = nv;
            },
            RegisterItem::F => {
                let nv = (af & 0xFF00) | (value & 0xFF);
                proof {
                    lemma_byte_written(af, value);
                }
                proof {
                    lemma_af_flags_of_byte(nv);
                }
                self.AF = nv;
            },
            RegisterItem::AF => {
                proof {
                    lemma_af_flags_of_byte(value);
                    lemma_af_low_byte(value);
                }
                self.AF = value;
            },
            RegisterItem::B | RegisterItem::D | RegisterItem::H => {
                let old_v = self.get_pair(
                    match item {
                        RegisterItem::B => RegisterItem::BC,
                        RegisterItem::D => RegisterItem::DE,
                        _ => RegisterItem::HL,
                    },
                );
                let nv = (old_v & 0xFF) | ((value & 0xFF) << 8);
                proof {
                    lemma_byte_written(old_v, value);
                }
                match item {
                    RegisterItem::B => self.BC = nv,
                    RegisterItem::D => self.DE = nv,
                    _ => self.HL = nv,
                }
            },
            RegisterItem::C | RegisterItem::E | RegisterItem::L => {
                let old_v = self.get_pair(
                    match item {
                        RegisterItem::C => RegisterItem::BC,
                        RegisterItem::E => RegisterItem::DE,
                        _ => RegisterItem::HL,
                    },
                );
                let nv = (old_v & 0xFF00) | (value & 0xFF);
                proof {
                    lemma_byte_written(old_v, value);
                }
                match item {
                    RegisterItem::C => self.BC = nv,
                    RegisterItem::E => self.DE = nv,
                    _ => self.HL = nv,
                }
            },
            RegisterItem::BC => self.BC = value,
            RegisterItem::DE => self.DE = value,
            RegisterItem::HL => self.HL = value,
            RegisterItem::PC => self.PC = value,
            RegisterItem::SP => self.SP = value,
            RegisterItem::FlagZ => {
                let nv = if value == 1 { af | 0x80 } else { af & !0x80u16 };
                proof {
                    lemma_flag_written(af, 0x80u16, value, nv);
                }
                self.AF = nv;
            },
            RegisterItem::FlagN => {
                let nv = if value == 1 { af | 0x40 } else { af & !0x40u16 };
                proof {
                    lemma_flag_written(af, 0x40u16, value, nv);
                }
                self.AF = nv;
            },
            RegisterItem::FlagH => {
                let nv = if value == 1 { af | 0x20 } else { af & !0x20u16 };
                proof {
                    lemma_flag_written(af, 0x20u16, value, nv);
                }
                self.AF = nv;
            },
            RegisterItem::FlagC => {
                let nv = if value == 1 { af | 0x10 } else { af & !0x10u16 };
                proof {
                    lemma_flag_written(af, 0x10u16, value, nv);
                }
                self.AF = nv;
            },
        }
    }
}

/// Writing an item and reading it back gives what was written, as far as the item
/// holds it: the low byte for a byte register, the whole value otherwise.
pub proof fn law_get_after_set(r: RegistersView, item: RegisterItem, value: u16)
    requires
        RegistersView::can_set(item, value),
    ensures
        r.set(item, value).get(item) == if item.is_byte_register() {
            value % 256
        } else {
            value
        },
{
    let v = value % 256;
    match item {
        RegisterItem::F => {
            lemma_f_roundtrip(v);
        },
        RegisterItem::B => {
            lemma_byte_pair(v, r.bc % 256);
        },
        RegisterItem::C => {
            lemma_byte_pair(r.bc / 256, v);
        },
        RegisterItem::D => {
            lemma_byte_pair(v, r.de % 256);
        },
        RegisterItem::E => {
            lemma_byte_pair(r.de / 256, v);
        },
        RegisterItem::H => {
            lemma_byte_pair(v, r.hl % 256);
        },
        RegisterItem::L => {
            lemma_byte_pair(r.hl / 256, v);
        },
        RegisterItem::AF => {
            lemma_f_roundtrip(v);
            assert(value == value / 256 * 256 + value % 256);
            assert((value / 256) as u8 as u16 == value / 256);
        },
        _ => {},
    }
}

/// Writing one item leaves every item that shares no bits with it unchanged.
pub proof fn law_set_leaves_others(
    r: RegistersView,
    item: RegisterItem,
    value: u16,
    other: RegisterItem,
)
    requires
        RegistersView::can_set(item, value),
        disjoint_items(item, other),
    ensures
        r.set(item, value).get(other) == r.get(other),
{
    let v = value % 256;
    match item {
        RegisterItem::B => {
            lemma_byte_pair(v, r.bc % 256);
        },
        RegisterItem::C => {
            lemma_byte_pair(r.bc / 256, v);
        },
        RegisterItem::D => {
            lemma_byte_pair(v, r.de % 256);
        },
        RegisterItem::E => {
            lemma_byte_pair(r.de / 256, v);
        },
        RegisterItem::H => {
            lemma_byte_pair(v, r.hl % 256);
        },
        RegisterItem::L => {
            lemma_byte_pair(r.hl / 256, v);
        },
        _ => {},
    }
}

/// Whether two items share no bit of the register file.
pub open spec fn disjoint_items(x: RegisterItem, y: RegisterItem) -> bool {
    &&& x != y
    &&& (pair_of(x) != pair_of(y) || (!x.is_word_register() && !y.is_word_register() && !(x
        == RegisterItem::F && y.is_flag()) && !(y == RegisterItem::F && x.is_flag())))
}

/// The 16-bit register an item lives in.
pub open spec fn pair_of(x: RegisterItem) -> RegisterItem {
    match x {
        RegisterItem::A | RegisterItem::F | RegisterItem::FlagZ | RegisterItem::FlagN
        | RegisterItem::FlagH | RegisterItem::FlagC | RegisterItem::AF => RegisterItem::AF,
        RegisterItem::B | RegisterItem::C | RegisterItem::BC => RegisterItem::BC,
        RegisterItem::D | RegisterItem::E | RegisterItem::DE => RegisterItem::DE,
        RegisterItem::H | RegisterItem::L | RegisterItem::HL => RegisterItem::HL,
        RegisterItem::PC => RegisterItem::PC,
        RegisterItem::SP => RegisterItem::SP,
    }
}

/// The register file as the debugging dump shows it: the pairs in four
/// hexadecimal digits, SP in binary, then the four flags.
pub open spec fn registers_text(r: Registers) -> Seq<char> {
    "REGISTERS - AF : 0x"@ + zero_padded_hex(r.AF as nat, 4) + " BC : 0x"@ + zero_padded_hex(
        r.BC as nat,
        4,
    ) + " DE : 0x"@ + zero_padded_hex(r.DE as nat, 4) + " HL : 0x"@ + zero_padded_hex(
        r.HL as nat,
        4,
    ) + " PC : 0x"@ + zero_padded_hex(r.PC as nat, 4) + " SP : "@ + binary_text(r.SP as nat)
        + "\nFLAGS - z:"@ + decimal_text(r@.get(RegisterItem::FlagZ) as nat) + " n:"@
        + decimal_text(r@.get(RegisterItem::FlagN) as nat) + " h:"@ + decimal_text(
        r@.get(RegisterItem::FlagH) as nat,
    ) + " c:"@ + decimal_text(r@.get(RegisterItem::FlagC) as nat)
}

impl Registers {
    /// The register file as the debugging dump shows it (see `registers_text`).
    pub fn to_text(&self) -> (text: String)
        ensures
            text@ == registers_text(*self),
    {
        let mut text = String::from_str("REGISTERS - AF : 0x");
        append_zero_padded_hex(&mut text, self.AF, 4);
        text.append(" BC : 0x");
        append_zero_padded_hex(&mut text, self.BC, 4);
        text.append(" DE : 0x");
        append_zero_padded_hex(&mut text, self.DE, 4);
        text.append(" HL : 0x");
        append_zero_padded_hex(&mut text, self.HL, 4);
        text.append(" PC : 0x");
        append_zero_padded_hex(&mut text, self.PC, 4);
        text.append(" SP : ");
        append_binary(&mut text, self.SP);
        text.append("\nFLAGS - z:");
        append_decimal(&mut text, self.get_item(RegisterItem::FlagZ));
        text.append(" n:");
        append_decimal(&mut text, self.get_item(RegisterItem::FlagN));
        text.append(" h:");
        append_decimal(&mut text, self.get_item(RegisterItem::FlagH));
        text.append(" c:");
        append_decimal(&mut text, self.get_item(RegisterItem::FlagC));
        assert(text@ =~= registers_text(*self));
        text
    }
}

} // verus!
