use vstd::prelude::*;
use vstd::utf8::{valid_utf8, decode_utf8};
use vstd::string::{StrSliceExecFns, StringExecFns};
use crate::text::{zero_padded_hex, decimal_text, append_zero_padded_hex, append_decimal};

verus! {

/// A cartridge: the header information read from it, and its whole ROM.
pub struct Cartridge {
    pub cartridge_info: Option<CartridgeInfo>,
    pub rom: Vec<u8>,
}

/// The cartridge header (bytes 0x100 to 0x14F of the ROM).
pub struct CartridgeInfo {
    pub entry_point: [u8; 4],
    pub nintendo_logo: [u16; 24],
    pub title: [u8; 15],
    /// unused
    pub cgb_flag: u8,
    /// licensee code in ASCII, considered when `old_licensee_code` is 0x33
    pub new_licensee_code: [u8; 2],
    /// whether the cartridge supports the Super Game Boy
    pub sgb_flag: u8,
    /// the hardware on the cartridge
    pub cartridge_type: u8,
    /// the ROM is 32 KiB × (1 << rom_size)
    pub rom_size: u8,
    pub ram_size: u8,
    /// 0 for Japan
    pub destination_code: u8,
    pub old_licensee_code: u8,
    /// ROM version number, usually 0
    pub mask_rom_version: u8,
    /// value to check the header checksum against
    pub header_checksum: u8,
    /// used only by Pokémon
    pub global_checksum: u16,
}

/// `std::str::from_utf8`: the text the bytes encode, when they are valid UTF-8.
#[verifier::external_body]
fn utf8_text(bytes: &[u8]) -> (text: Option<&str>)
    ensures
        text is Some <==> valid_utf8(bytes@),
        text matches Some(t) ==> t@ == decode_utf8(bytes@),
{
    std::str::from_utf8(bytes).ok()
}

impl CartridgeInfo {
    /// The title as text, or "BAD HEADER" when it is not valid UTF-8.
    pub fn game_title(&self) -> (title: &str)
        ensures
            valid_utf8(self.title@) ==> title@ == decode_utf8(self.title@),
            !valid_utf8(self.title@) ==> title@ == "BAD HEADER"@,
    {
        match utf8_text(self.title.as_slice()) {
            Some(value) => value,
            None => "BAD HEADER",
        }
    }
}

impl Cartridge {
    /// Writes to the cartridge are ignored.
    pub fn set_item(&self, value: u8, address: usize) {
    }

    /// The ROM byte at `address`.
    pub fn get_item(&self, address: usize) -> (v: u8)
        requires
            address < self.rom@.len(),
        ensures
            v == self.rom@[address as int],
    {
        self.rom[address]
    }
}

/// What `<str as std::fmt::Debug>::fmt` writes for a text: the text in double
/// quotes, with quotes, backslashes, control and unprintable characters escaped.
pub uninterp spec fn debug_quoted(text: Seq<char>) -> Seq<char>;

/// `<str as std::fmt::Debug>::fmt`, through `format!("{:?}", ..)`. Its escaping
/// follows Unicode's tables of printable and grapheme-extending characters, so
/// the result is known only through `debug_quoted`.
#[verifier::external_body]
fn debug_text(text: &str) -> (quoted: String)
    ensures
        quoted@ == debug_quoted(text@),
{
    format!("{:?}", text)
}

/// The title as `game_title` gives it.
pub open spec fn title_text(title: Seq<u8>) -> Seq<char> {
    if valid_utf8(title) {
        decode_utf8(title)
    } else {
        "BAD HEADER"@
    }
}

/// The cartridge header as the debugging dump shows it, one field a line.
pub open spec fn cartridge_info_text(i: CartridgeInfo) -> Seq<char> {
    "Cartridge : {\n            entry_point: 0x"@ + zero_padded_hex(i.entry_point[0] as nat, 2) + " 0x"@
        + zero_padded_hex(i.entry_point[1] as nat, 2) + " 0x"@ + zero_padded_hex(i.entry_point[2] as nat, 2)
        + " 0x"@ + zero_padded_hex(i.entry_point[3] as nat, 2) + "\n            cgb: "@ + decimal_text(
        i.cgb_flag as nat,
    ) + "\n            game_title: "@ + debug_quoted(title_text(i.title@)) + "\n            sgb_flag: "@
        + decimal_text(i.sgb_flag as nat) + "\n            cartridge_type: "@ + decimal_text(i.cartridge_type as nat)
        + "\n            rom_size: "@ + decimal_text(i.rom_size as nat) + "\n            ram_size: "@ + decimal_text(
        i.ram_size as nat,
    ) + "\n            dest_code: "@ + (if i.destination_code == 0 {
        "Jap"@
    } else {
        "Non-Jap"@
    }) + "\n            header_checksum: 0x"@ + zero_padded_hex(i.header_checksum as nat, 4)
        + "\n            global_checksum: 0x"@ + zero_padded_hex(i.global_checksum as nat, 4) + "\n        }"@
}

impl CartridgeInfo {
    /// The header as the debugging dump shows it (see `cartridge_info_text`).
    pub fn to_text(&self) -> (text: String)
        ensures
            text@ == cartridge_info_text(*self),
    {
        let mut text = String::from_str("Cartridge : {\n            entry_point: 0x");
        append_zero_padded_hex(&mut text, self.entry_point[0] as u16, 2);
        text.append(" 0x");
        append_zero_padded_hex(&mut text, self.entry_point[1] as u16, 2);
        text.append(" 0x");
        append_zero_padded_hex(&mut text, self.entry_point[2] as u16, 2);
        text.append(" 0x");
        append_zero_padded_hex(&mut text, self.entry_point[3] as u16, 2);
        text.append("\n            cgb: ");
        append_decimal(&mut text, self.cgb_flag as u16);
        text.append("\n            game_title: ");
        let title = debug_text(self.game_title());
        text.append(title.as_str());
        text.append("\n            sgb_flag: ");
        append_decimal(&mut text, self.sgb_flag as u16);
        text.append("\n            cartridge_type: ");
        append_decimal(&mut text, self.cartridge_type as u16);
        text.append("\n            rom_size: ");
        append_decimal(&mut text, self.rom_size as u16);
        text.append("\n            ram_size: ");
        append_decimal(&mut text, self.ram_size as u16);
        text.append("\n            dest_code: ");
        text.append(if self.destination_code == 0 { "Jap" } else { "Non-Jap" });
        text.append("\n            header_checksum: 0x");
        append_zero_padded_hex(&mut text, self.header_checksum as u16, 4);
        text.append("\n            global_checksum: 0x");
        append_zero_padded_hex(&mut text, self.global_checksum, 4);
        text.append("\n        }");
        assert(text@ =~= cartridge_info_text(*self));
        text
    }
}

} // verus!
