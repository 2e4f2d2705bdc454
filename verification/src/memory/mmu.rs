use vstd::prelude::*;
use crate::io::gamepad::gamepad;
use crate::memory::cartridge::Cartridge;
use std::collections::HashMap;
use crate::memory::op_codes_parser::{Instruction, Operand, duplicate_cycles, table_lookup};
use crate::ppu::{PPU, Sprite};

verus! {

broadcast use vstd::std_specs::hash::group_hash_axioms;

pub const INSTRUCTIONS_PREFIX: u8 = 0xCB;

/// The boot ROM mapped at 0x0000 until the program writes 1 or 0x11 to 0xFF50.
pub const BOOT_ROM: [u8; 256] = [
    0x31, 0xFE, 0xFF, 0xAF, 0x21, 0xFF, 0x9F, 0x32, 0xCB, 0x7C, 0x20, 0xFB, 0x21,
    0x26, 0xFF, 0x0E, 0x11, 0x3E, 0x80, 0x32, 0xE2, 0x0C, 0x3E, 0xF3, 0xE2, 0x32,
    0x3E, 0x77, 0x77, 0x3E, 0xFC, 0xE0, 0x47, 0x11, 0x04, 0x01, 0x21, 0x10, 0x80,
    0x1A, 0xCD, 0x95, 0x00, 0xCD, 0x96, 0x00, 0x13, 0x7B, 0xFE, 0x34, 0x20, 0xF3,
    0x11, 0xD8, 0x00, 0x06, 0x08, 0x1A, 0x13, 0x22, 0x23, 0x05, 0x20, 0xF9, 0x3E,
    0x19, 0xEA, 0x10, 0x99, 0x21, 0x2F, 0x99, 0x0E, 0x0C, 0x3D, 0x28, 0x08, 0x32,
    0x0D, 0x20, 0xF9, 0x2E, 0x0F, 0x18, 0xF3, 0x67, 0x3E, 0x64, 0x57, 0xE0, 0x42,
    0x3E, 0x91, 0xE0, 0x40, 0x04, 0x1E, 0x02, 0x0E, 0x0C, 0xF0, 0x44, 0xFE, 0x90,
    0x20, 0xFA, 0x0D, 0x20, 0xF7, 0x1D, 0x20, 0xF2, 0x0E, 0x13, 0x24, 0x7C, 0x1E,
    0x83, 0xFE, 0x62, 0x28, 0x06, 0x1E, 0xC1, 0xFE, 0x64, 0x20, 0x06, 0x7B, 0xE2,
    0x0C, 0x3E, 0x87, 0xF2, 0xF0, 0x42, 0x90, 0xE0, 0x42, 0x15, 0x20, 0xD2, 0x05,
    0x20, 0x4F, 0x16, 0x20, 0x18, 0xCB, 0x4F, 0x06, 0x04, 0xC5, 0xCB, 0x11, 0x17,
    0xC1, 0xCB, 0x11, 0x17, 0x05, 0x20, 0xF5, 0x22, 0x23, 0x22, 0x23, 0xC9, 0xCE,
    0xED, 0x66, 0x66, 0xCC, 0x0D, 0x00, 0x0B, 0x03, 0x73, 0x00, 0x83, 0x00, 0x0C,
    0x00, 0x0D, 0x00, 0x08, 0x11, 0x1F, 0x88, 0x89, 0x00, 0x0E, 0xDC, 0xCC, 0x6E,
    0xE6, 0xDD, 0xDD, 0xD9, 0x99, 0xBB, 0xBB, 0x67, 0x63, 0x6E, 0x0E, 0xEC, 0xCC,
    0xDD, 0xDC, 0x99, 0x9F, 0xBB, 0xB9, 0x33, 0x3E, 0x3c, 0x42, 0xB9, 0xA5, 0xB9,
    0xA5, 0x42, 0x4C, 0x21, 0x04, 0x01, 0x11, 0xA8, 0x00, 0x1A, 0x13, 0xBE, 0x20,
    0xFE, 0x23, 0x7D, 0xFE, 0x34, 0x20, 0xF5, 0x06, 0x19, 0x78, 0x86, 0x23, 0x05,
    0x20, 0xFB, 0x86, 0x20, 0xFE, 0x3E, 0x01, 0xE0, 0x50,
];

/// The memory bus: the boot ROM, the cartridge, the PPU, the joypad, the internal
/// RAMs, the interrupt and timer registers, and the opcode tables used to decode.
#[allow(non_snake_case)]
pub struct MMU {
    pub bios: [u8; 256],
    pub cartridge: Cartridge,
    pub PPU: PPU,
    pub gamepad: gamepad,
    pub external_ram: [u8; 0x2000],
    pub work_ram: [u8; 0x2000],
    pub io_registers: [u8; 0x100],
    pub high_ram: [u8; 0x80],
    pub non_io_internal_ram0: [u8; 0x60],
    pub non_io_internal_ram1: [u8; 0x34],
    pub is_past_bios: bool,
    /// IME
    pub interrupt_master_enabled: bool,
    /// IE
    pub interrupt_enabled: u8,
    /// IF
    pub interrupt_flag: u8,
    pub interrupt_queued: bool,
    /// DIV counter
    pub timer_divider_clock: i32,
    /// TIMA counter
    pub timer_clock: i32,
    /// DIV
    pub timer_divider: u8,
    /// TIMA
    pub timer_counter: u8,
    /// TMA
    pub timer_modulo: u8,
    /// TAC
    pub timer_control: u8,
    /// The unprefixed instructions, keyed by opcode.
    pub unprefixed_op_codes: HashMap<u8, Instruction>,
    /// The instructions that follow the 0xCB prefix, keyed by opcode.
    pub prefixed_op_codes: HashMap<u8, Instruction>,
}

/// The sprite after the four bytes of attribute entry `i` of `oam` have been written
/// to it, as far as they lie below `n`.
pub open spec fn sprite_partial(s: Sprite, oam: [u8; 0x2000], i: int, n: int) -> Sprite {
    let s0 = if 4 * i < n { s.with_attribute(0, oam[4 * i]) } else { s };
    let s1 = if 4 * i + 1 < n { s0.with_attribute(1, oam[4 * i + 1]) } else { s0 };
    let s2 = if 4 * i + 2 < n { s1.with_attribute(2, oam[4 * i + 2]) } else { s1 };
    if 4 * i + 3 < n { s2.with_attribute(3, oam[4 * i + 3]) } else { s2 }
}

/// Offset, from the first byte after the opcode, of the immediate data of operand `i`:
/// the bytes of the operands before it.
pub open spec fn operand_offset(operands: Seq<Operand>, i: int) -> int
    decreases i,
{
    if i <= 0 {
        0
    } else {
        operand_offset(operands, i - 1) + match operands[i - 1].bytes {
            Some(b) => b as int,
            None => 0,
        }
    }
}

/// Two buses with the same cartridge and boot ROM state can read, and so write, the same
/// addresses.
pub proof fn lemma_same_readability(a: MMU, b: MMU)
    requires
        a.is_past_bios == b.is_past_bios,
        a.cartridge.rom@.len() == b.cartridge.rom@.len(),
    ensures
        forall|address: i32| #[trigger] a.readable(address) == b.readable(address),
        forall|v: u8| #[trigger] a.dma_readable(v) == b.dma_readable(v),
        forall|address: i32, v: u8| #[trigger] a.writable(address, v) == b.writable(address, v),
{
    assert forall|v: u8| #[trigger] a.dma_readable(v) == b.dma_readable(v) by {
        if a.dma_readable(v) {
            assert forall|k: int| 0 <= k < 0xA0 implies #[trigger] b.readable((v as int * 0x100 + k) as i32) by {
                assert(a.readable((v as int * 0x100 + k) as i32));
            }
        }
        if b.dma_readable(v) {
            assert forall|k: int| 0 <= k < 0xA0 implies #[trigger] a.readable((v as int * 0x100 + k) as i32) by {
                assert(b.readable((v as int * 0x100 + k) as i32));
            }
        }
    }
}

impl MMU {
    /// Whether reading `address` reads a ROM byte the cartridge holds: reading past the
    /// end of the ROM panics.
    pub open spec fn readable(&self, address: i32) -> bool {
        let a = address as usize;
        (a <= 0xFF && self.is_past_bios || 0x100 <= a <= 0x7FFF) ==> a < self.cartridge.rom@.len()
    }

    /// What reading an I/O register (0xFF00 to 0xFF4B) gives.
    pub open spec fn spec_read_io(&self, a: usize) -> u8 {
        if a == 0xFF00 {
            self.gamepad.spec_read()
        } else if a == 0xFF04 {
            self.timer_divider
        } else if a == 0xFF05 {
            self.timer_counter
        } else if a == 0xFF06 {
            self.timer_modulo
        } else if a == 0xFF07 {
            self.timer_control
        } else if a == 0xFF0F {
            self.interrupt_flag
        } else if 0xFF10 <= a <= 0xFF3F {
            0
        } else if a == 0xFF40 {
            self.PPU.lcd_control
        } else if a == 0xFF46 {
            0
        } else if 0xFF41 <= a <= 0xFF4B {
            self.PPU.spec_read_byte(a)
        } else {
            self.io_registers[a - 0xFF00]
        }
    }

    /// What reading `address` gives.
    pub open spec fn spec_read_byte(&self, address: i32) -> u8 {
        let a = address as usize;
        if a <= 0xFF {
            if self.is_past_bios {
                self.cartridge.rom@[a as int]
            } else {
                self.bios[a as int]
            }
        } else if a <= 0x7FFF {
            self.cartridge.rom@[a as int]
        } else if a <= 0x9FFF {
            self.PPU.spec_read_byte(a)
        } else if a <= 0xBFFF {
            self.external_ram[a - 0xA000]
        } else if a <= 0xDFFF {
            self.work_ram[a - 0xC000]
        } else if a <= 0xFDFF {
            self.work_ram[a - 0xE000]
        } else if a <= 0xFE9F {
            self.PPU.spec_read_byte(a)
        } else if a <= 0xFEFF {
            self.non_io_internal_ram0[a - 0xFEA0]
        } else if a <= 0xFF4B {
            self.spec_read_io(a)
        } else if a <= 0xFF7F {
            self.non_io_internal_ram1[a - 0xFF4C]
        } else if a <= 0xFFFE {
            self.high_ram[a - 0xFF80]
        } else if a == 0xFFFF {
            self.interrupt_enabled
        } else {
            0
        }
    }

    /// `new` differs from `self` by a PPU write.
    pub open spec fn ppu_wrote(self, new: MMU, a: usize, value: u8) -> bool {
        &&& new == MMU { PPU: new.PPU, ..self }
        &&& self.PPU.wrote_byte(new.PPU, a, value)
    }

    /// `new` is `self` after an OAM DMA transfer from page `value`: the first 0xA0 bytes
    /// of the attribute table take what reading page `value` gave, and every sprite is
    /// decoded from its new entry.
    pub open spec fn dma_wrote(self, new: MMU, value: u8) -> bool {
        let offset = value as int * 0x100;
        &&& new == MMU { PPU: new.PPU, ..self }
        &&& new.PPU == PPU { oam: new.PPU.oam, sprite_set: new.PPU.sprite_set, ..self.PPU }
        &&& forall|k: int|
            0 <= k < 0x2000 ==> #[trigger] new.PPU.oam[k] == if k < 0xA0 {
                self.spec_read_byte((offset + k) as i32)
            } else {
                self.PPU.oam[k]
            }
        &&& forall|i: int|
            0 <= i < 40 ==> #[trigger] new.PPU.sprite_set[i] == sprite_partial(
                self.PPU.sprite_set[i],
                new.PPU.oam,
                i,
                0xA0,
            )
    }

    /// Whether every byte an OAM DMA transfer from page `value` reads is readable.
    pub open spec fn dma_readable(&self, value: u8) -> bool {
        forall|k: int| 0 <= k < 0xA0 ==> #[trigger] self.readable((value as int * 0x100 + k) as i32)
    }

    /// `new` is `self` after a write of `value` to I/O register `a`.
    pub open spec fn io_wrote(self, new: MMU, a: usize, value: u8) -> bool {
        if a == 0xFF00 {
            new == MMU { gamepad: self.gamepad.after_write(value), ..self }
        } else if a == 0xFF04 {
            new == MMU { timer_divider_clock: 0, timer_clock: 0, timer_divider: 0, ..self }
        } else if a == 0xFF05 {
            new == MMU { timer_counter: value, ..self }
        } else if a == 0xFF06 {
            new == MMU { timer_modulo: value, ..self }
        } else if a == 0xFF07 {
            new == MMU { timer_control: value & 0b111, ..self }
        } else if a == 0xFF0F {
            new == MMU { interrupt_flag: value, ..self }
        } else if 0xFF10 <= a <= 0xFF3F {
            new == self
        } else if a == 0xFF40 {
            new == MMU { PPU: self.PPU.after_set_lcdc(value), ..self }
        } else if a == 0xFF41 {
            new == MMU { PPU: self.PPU.after_stat_write(value), ..self }
        } else if a == 0xFF46 {
            self.dma_wrote(new, value)
        } else if 0xFF42 <= a <= 0xFF4B {
            self.ppu_wrote(new, a, value)
        } else {
            &&& new == MMU { io_registers: new.io_registers, ..self }
            &&& new.io_registers@ == self.io_registers@.update(a - 0xFF00, value)
        }
    }

    /// `new` is `self` after a write of `value` to `address`.
    pub open spec fn wrote_byte(self, new: MMU, address: i32, value: u8) -> bool {
        let a = address as usize;
        if a <= 0xFF && !self.is_past_bios {
            &&& new == MMU { bios: new.bios, ..self }
            &&& new.bios@ == self.bios@.update(a as int, value)
        } else if a <= 0x7FFF {
            new == self
        } else if a <= 0x9FFF {
            self.ppu_wrote(new, a, value)
        } else if a <= 0xBFFF {
            &&& new == MMU { external_ram: new.external_ram, ..self }
            &&& new.external_ram@ == self.external_ram@.update(a - 0xA000, value)
        } else if a <= 0xDFFF {
            &&& new == MMU { work_ram: new.work_ram, ..self }
            &&& new.work_ram@ == self.work_ram@.update(a - 0xC000, value)
        } else if a <= 0xFDFF {
            &&& new == MMU { work_ram: new.work_ram, ..self }
            &&& new.work_ram@ == self.work_ram@.update(a - 0xE000, value)
        } else if a <= 0xFE9F {
            self.ppu_wrote(new, a, value)
        } else if a <= 0xFEFF {
            &&& new == MMU { non_io_internal_ram0: new.non_io_internal_ram0, ..self }
            &&& new.non_io_internal_ram0@ == self.non_io_internal_ram0@.update(a - 0xFEA0, value)
        } else if a <= 0xFF4B {
            self.io_wrote(new, a, value)
        } else if a <= 0xFF7F {
            if a == 0xFF50 && !self.is_past_bios && (value == 0x1 || value == 0x11) {
                new == MMU { is_past_bios: true, ..self }
            } else {
                &&& new == MMU { non_io_internal_ram1: new.non_io_internal_ram1, ..self }
                &&& new.non_io_internal_ram1@ == self.non_io_internal_ram1@.update(
                    a - 0xFF4C,
                    value,
                )
            }
        } else if a <= 0xFFFE {
            &&& new == MMU { high_ram: new.high_ram, ..self }
            &&& new.high_ram@ == self.high_ram@.update(a - 0xFF80, value)
        } else {
            new == MMU { interrupt_enabled: value, ..self }
        }
    }

    /// Whether writing `value` to `address` is defined: the address is on the bus, and
    /// a DMA transfer reads only readable bytes.
    pub open spec fn writable(&self, address: i32, value: u8) -> bool {
        &&& 0 <= address <= 0xFFFF
        &&& address == 0xFF46 ==> self.dma_readable(value)
    }

    /// Reads a byte of the bus.
    pub fn read_byte(&self, address: i32) -> (v: u8)
        requires
            self.readable(address),
        ensures
            v == self.spec_read_byte(address),
        decreases if 0xE000 <= address as usize <= 0xFDFF { 1int } else { 0int },
    {
        let address = address as usize;
        match address {
            0..=0xFF => {
                if self.is_past_bios {
                    self.cartridge.get_item(address)
                } else {
                    self.bios[address]
                }
            },
            0x100..=0x3FFF => self.cartridge.get_item(address),
            0x4000..=0x7FFF => self.cartridge.get_item(address),
            0x8000..=0x9FFF => self.PPU.read_byte(address),
            0xA000..=0xBFFF => self.external_ram[address - 0xA000],
            0xC000..=0xDFFF => self.work_ram[address - 0xC000],
            0xE000..=0xFDFF => {
                self.read_byte((address - 0x2000) as i32)
            },
            0xFE00..=0xFE9F => self.PPU.read_byte(address),
            0xFEA0..=0xFEFF => self.non_io_internal_ram0[address - 0xFEA0],
            0xFF00..=0xFF4B => {
                match address {
                    0xFF00 => self.gamepad.read(),
                    0xFF04 => self.timer_divider,
                    0xFF05 => self.timer_counter,
                    0xFF06 => self.timer_modulo,
                    0xFF07 => self.timer_control,
                    0xFF0F => self.interrupt_flag,
                    0xFF10..=0xFF3F => 0,
                    0xFF40 => self.PPU.lcd_control,
                    0xFF41 => self.PPU.read_byte(address),
                    0xFF42 => self.PPU.read_byte(address),
                    0xFF43 => self.PPU.read_byte(address),
                    0xFF44 => self.PPU.read_byte(address),
                    0xFF45 => self.PPU.read_byte(address),
                    0xFF46 => 0,
                    0xFF47 => self.PPU.read_byte(address),
                    0xFF48 => self.PPU.read_byte(address),
                    0xFF49 => self.PPU.read_byte(address),
                    0xFF4A => self.PPU.read_byte(address),
                    0xFF4B => self.PPU.read_byte(address),
                    _ => self.io_registers[address - 0xFF00],
                }
            },
            0xFF4C..=0xFF7F => self.non_io_internal_ram1[address - 0xFF4C],
            0xFF80..=0xFFFE => self.high_ram[address - 0xFF80],
            0xFFFF => self.interrupt_enabled,
            _ => 0,
        }
    }

    /// Writes a byte of the bus: the boot ROM, while mapped, and the RAMs store it,
    /// cartridge ROM writes are ignored, registers react to it, and a write of
    /// 0xFF46 copies a page into the attribute table.
    pub fn write_byte(&mut self, address: i32, value: u8)
        requires
            old(self).writable(address, value),
        ensures
            old(self).wrote_byte(*final(self), address, value),
        decreases if address == 0xFF46 {
            2int
        } else if 0xE000 <= address <= 0xFDFF {
            1int
        } else {
            0int
        },
    {
        let address = address as usize;
        match address {
            0..=0xFF => {
                if self.is_past_bios {
                    self.cartridge.set_item(value, address);
                } else {
                    self.bios[address] = value;
                }
            },
            0x100..=0x3FFF => {
                self.cartridge.set_item(value, address);
            },
            0x4000..=0x7FFF => {
                self.cartridge.set_item(value, address);
            },
            0x8000..=0x9FFF => {
                self.PPU.write_byte(address, value);
            },
            0xA000..=0xBFFF => {
                self.external_ram[address - 0xA000] = value;
            },
            0xC000..=0xDFFF => {
                self.work_ram[address - 0xC000] = value;
            },
            0xE000..=0xFDFF => {
                self.write_byte((address - 0x2000) as i32, value)
            },
            0xFE00..=0xFE9F => self.PPU.write_byte(address, value),
            0xFEA0..=0xFEFF => {
                self.non_io_internal_ram0[address - 0xFEA0] = value;
            },
            0xFF00..=0xFF4B => {
                match address {
                    0xFF00 => self.gamepad.write(value),
                    0xFF01 => {
                        self.io_registers[address - 0xFF00] = value
                    },
                    0xFF04 => {
                        self.timer_divider_clock = 0;
                        self.timer_clock = 0;
                        self.timer_divider = 0
                    },
                    0xFF05 => self.timer_counter = value,
                    0xFF06 => self.timer_modulo = value,
                    0xFF07 => self.timer_control = value & 0b111,
                    0xFF0F => self.interrupt_flag = value,
                    0xFF10..=0xFF3F => (),
                    0xFF40 => self.PPU.set_lcdc(value),
                    0xFF41 => self.PPU.set_current_mode_from_value(value),
                    0xFF42 => self.PPU.write_byte(address, value),
                    0xFF43 => self.PPU.write_byte(address, value),
                    0xFF44 => self.PPU.write_byte(address, value),
                    0xFF45 => self.PPU.write_byte(address, value),
                    0xFF46 => self.transfer_dma(value),
                    0xFF47 => self.PPU.write_byte(address, value),
                    0xFF48 => self.PPU.write_byte(address, value),
                    0xFF49 => self.PPU.write_byte(address, value),
                    0xFF4A => self.PPU.write_byte(address, value),
                    0xFF4B => self.PPU.write_byte(address, value),
                    _ => self.io_registers[address - 0xFF00] = value,
                }
            },
            0xFF4C..=0xFF7F => {
                if address == 0xFF50 && !self.is_past_bios && (value == 0x1 || value == 0x11) {
                    self.is_past_bios = true;
                } else {
                    self.non_io_internal_ram1[address - 0xFF4C] = value
                }
            },
            0xFF80..=0xFFFE => self.high_ram[address - 0xFF80] = value,
            _ => self.interrupt_enabled = value,
        }
    }

    /// OAM DMA: copies the 0xA0 bytes at `value * 0x100` into the attribute table.
    pub fn transfer_dma(&mut self, value: u8)
        requires
            old(self).dma_readable(value),
        ensures
            old(self).dma_wrote(*final(self), value),
        decreases 1int,
    {
        let ghost start = *self;
        let target: i32 = 0xFE00;
        let offset: i32 = value as i32 * 0x100;
        let mut n: i32 = 0;
        while n < 0xA0
            invariant
                0 <= n <= 0xA0,
                offset == value as int * 0x100,
                target == 0xFE00,
                start.dma_readable(value),
                *self == (MMU { PPU: self.PPU, ..start }),
                self.PPU == (PPU { oam: self.PPU.oam, sprite_set: self.PPU.sprite_set, ..start.PPU }),
                forall|k: int|
                    0 <= k < 0x2000 ==> #[trigger] self.PPU.oam[k] == if k < n {
                        start.spec_read_byte((offset + k) as i32)
                    } else {
                        start.PPU.oam[k]
                    },
                forall|i: int|
                    0 <= i < 40 ==> #[trigger] self.PPU.sprite_set[i] == sprite_partial(
                        start.PPU.sprite_set[i],
                        self.PPU.oam,
                        i,
                        n as int,
                    ),
            decreases 0xA0 - n,
        {
            assert(start.readable((offset + n) as i32));
            let v = self.read_byte(offset + n);
            assert(v == start.spec_read_byte((offset + n) as i32));
            let ghost before = *self;
            self.write_byte(target + n, v);
            proof {
                let a = (target + n) as usize;
                assert(a == 0xFE00 + n);
                assert(before.PPU.wrote_byte(self.PPU, a, v));
                assert forall|i: int| 0 <= i < 40 implies #[trigger] self.PPU.sprite_set[i]
                    == sprite_partial(start.PPU.sprite_set[i], self.PPU.oam, i, n + 1) by {
                    assert(self.PPU.oam[4 * i] == before.PPU.oam[4 * i] || 4 * i == n);
                }
            }
            n += 1;
        }
    }

    /// `new` is `self` after a write of the low byte of `value` to `address` and of
    /// its high byte to `address + 1`.
    pub open spec fn wrote_word(self, new: MMU, address: i32, value: u16) -> bool {
        exists|mid: MMU|
            #[trigger] self.wrote_byte(mid, address, (value & 0xFF) as u8) && mid.wrote_byte(
                new,
                (address + 1) as i32,
                ((value & 0xFF00) >> 8) as u8,
            )
    }

    /// What reading the little-endian word at `address` gives.
    pub open spec fn spec_read_word(&self, address: i32) -> u16 {
        (self.spec_read_byte(address) as int + self.spec_read_byte((address + 1) as i32) as int
            * 256) as u16
    }

    /// Writes `value` little-endian: its low byte at `address`, its high byte after.
    pub fn write_word(&mut self, address: i32, value: u16)
        requires
            address < 0xFFFF,
            old(self).writable(address, (value & 0xFF) as u8),
            old(self).writable((address + 1) as i32, ((value & 0xFF00) >> 8) as u8),
        ensures
            old(self).wrote_word(*final(self), address, value),
    {
        let ghost start = *self;
        let lo = #[verifier::truncate] ((value & 0x00FF) as u8);
        let hi = #[verifier::truncate] (((value & 0xFF00) >> 8) as u8);
        self.write_byte(address, lo);
        let ghost mid = *self;
        proof {
            if address + 1 == 0xFF46 {
                assert(mid.cartridge == start.cartridge && mid.is_past_bios == start.is_past_bios);
                assert forall|k: int| 0 <= k < 0xA0 implies #[trigger] mid.readable(
                    (hi as int * 0x100 + k) as i32,
                ) by {
                    assert(start.readable((hi as int * 0x100 + k) as i32));
                }
            }
        }
        self.write_byte(address + 1, hi);
        assert(start.wrote_byte(mid, address, (value & 0xFF) as u8) && mid.wrote_byte(
            *self,
            (address + 1) as i32,
            ((value & 0xFF00) >> 8) as u8,
        ));
    }

    /// Reads the little-endian word at `address`.
    pub fn read_word(&self, address: i32) -> (v: u16)
        requires
            address < i32::MAX,
            self.readable(address),
            self.readable((address + 1) as i32),
        ensures
            v == self.spec_read_word(address),
    {
        let first_8_bits = self.read_byte(address) as u16;
        let last_8_bits = self.read_byte(address + 1) as u16;
        assert(first_8_bits | last_8_bits << 8 == first_8_bits + last_8_bits * 256) by (bit_vector)
            requires
                first_8_bits < 256,
                last_8_bits < 256,
        ;
        (first_8_bits | last_8_bits << 8) as u16
    }

    /// A bus with the boot ROM mapped, zeroed RAMs, interrupts disabled and IF at 0xE0.
    pub fn new(
        cartridge: Option<Cartridge>,
        ppu: PPU,
        unprefixed_op_codes: HashMap<u8, Instruction>,
        prefixed_op_codes: HashMap<u8, Instruction>,
    ) -> (mmu: MMU)
        requires
            cartridge is Some,
        ensures
            mmu.bios == BOOT_ROM,
            mmu.cartridge == cartridge.unwrap(),
            mmu.PPU == ppu,
            mmu.gamepad.value == 0 && mmu.gamepad.pressed_buttons@.len() == 0,
            mmu.gamepad.wf(),
            forall|i: int| 0 <= i < 0x2000 ==> mmu.external_ram[i] == 0 && mmu.work_ram[i] == 0,
            forall|i: int| 0 <= i < 0x100 ==> mmu.io_registers[i] == 0,
            forall|i: int| 0 <= i < 0x80 ==> mmu.high_ram[i] == 0,
            forall|i: int| 0 <= i < 0x60 ==> mmu.non_io_internal_ram0[i] == 0,
            forall|i: int| 0 <= i < 0x34 ==> mmu.non_io_internal_ram1[i] == 0,
            !mmu.is_past_bios,
            !mmu.interrupt_master_enabled,
            mmu.interrupt_enabled == 0,
            mmu.interrupt_flag == 0xE0,
            !mmu.interrupt_queued,
            mmu.timer_clock == 0 && mmu.timer_divider_clock == 0 && mmu.timer_divider == 0,
            mmu.timer_counter == 0 && mmu.timer_modulo == 0 && mmu.timer_control == 0,
            mmu.unprefixed_op_codes@ == unprefixed_op_codes@,
            mmu.prefixed_op_codes@ == prefixed_op_codes@,
    {
        MMU {
            bios: BOOT_ROM,
            cartridge: cartridge.unwrap(),
            PPU: ppu,
            gamepad: gamepad::default(),
            external_ram: [0u8; 0x2000],
            work_ram: [0u8; 0x2000],
            io_registers: [0u8; 0x100],
            high_ram: [0u8; 0x80],
            non_io_internal_ram0: [0u8; 0x60],
            non_io_internal_ram1: [0u8; 0x34],
            is_past_bios: false,
            interrupt_master_enabled: false,
            interrupt_enabled: 0,
            interrupt_flag: 0xE0,
            timer_clock: 0,
            timer_divider_clock: 0,
            timer_divider: 0,
            timer_counter: 0,
            timer_modulo: 0,
            timer_control: 0,
            unprefixed_op_codes,
            prefixed_op_codes,
            interrupt_queued: false,
        }
    }

    /// The opcode at `address`, the table it is looked up in, and where its operands'
    /// data starts: after the 0xCB prefix, the next byte is looked up in the prefixed
    /// table.
    pub open spec fn opcode_at(&self, address: i32) -> (bool, u8, int) {
        let op = self.spec_read_byte(address);
        if op == INSTRUCTIONS_PREFIX {
            (true, self.spec_read_byte((address + 1) as i32), address + 2)
        } else {
            (false, op, address + 1)
        }
    }

    /// The table entry the instruction at `address` is decoded from.
    pub open spec fn table_entry(&self, address: i32) -> Option<Instruction> {
        let (prefixed, code, _) = self.opcode_at(address);
        if prefixed {
            table_lookup(self.prefixed_op_codes@, code)
        } else {
            table_lookup(self.unprefixed_op_codes@, code)
        }
    }

    /// An operand of the table with its value read from `at`, when it has data.
    pub open spec fn operand_read(&self, operand: Operand, at: int) -> Operand {
        match operand.bytes {
            Some(b) => Operand {
                value: Some(
                    if b == 1 {
                        self.spec_read_byte(at as i32) as u16
                    } else {
                        (self.spec_read_byte((at + 1) as i32) as int * 256 + self.spec_read_byte(at as i32) as int) as u16
                    },
                ),
                ..operand
            },
            None => operand,
        }
    }

    /// Whether decoding at `address` is defined: the opcode bytes are readable, the
    /// table has an entry for them, each operand has one or two bytes of data that are
    /// readable, and no address leaves `i32`.
    pub open spec fn decode_defined(&self, address: i32) -> bool {
        let (prefixed, code, start) = self.opcode_at(address);
        &&& 0 <= address < i32::MAX - 1
        &&& self.readable(address)
        &&& prefixed ==> self.readable((address + 1) as i32)
        &&& self.table_entry(address) is Some
        &&& ({
            let ops = self.table_entry(address).unwrap().operands@;
            &&& start + operand_offset(ops, ops.len() as int) + 1 < i32::MAX
            &&& forall|i: int|
                0 <= i < ops.len() ==> match #[trigger] ops[i].bytes {
                    Some(b) => (b == 1 || b == 2) && self.readable((start + operand_offset(ops, i)) as i32)
                        && (b == 2 ==> self.readable((start + operand_offset(ops, i) + 1) as i32)),
                    None => true,
                }
        })
    }

    /// `ins` is the instruction at `address`, its operands' values read, and `next` is
    /// the address after it.
    pub open spec fn decoded(&self, address: i32, next: i32, ins: Instruction) -> bool {
        let (prefixed, code, start) = self.opcode_at(address);
        let t = self.table_entry(address).unwrap();
        &&& ins.opcode == t.opcode
        &&& ins.immediate == t.immediate
        &&& ins.cycles@ == t.cycles@
        &&& ins.bytes == t.bytes
        &&& ins.mnemonic@ == t.mnemonic@
        &&& ins.comment == t.comment
        &&& ins.prefixed == t.prefixed
        &&& ins.operands@.len() == t.operands@.len()
        &&& forall|i: int|
            0 <= i < t.operands@.len() ==> #[trigger] ins.operands@[i] == self.operand_read(
                t.operands@[i],
                start + operand_offset(t.operands@, i),
            )
        &&& next == start + operand_offset(t.operands@, t.operands@.len() as int)
    }

    /// Decodes the instruction at `address`: the opcode (after a 0xCB prefix, the
    /// prefixed one), its table entry, and the values of its operands read from the
    /// bytes that follow, little-endian. Returns the address after it too.
    pub fn decode(&self, address: i32) -> (r: (i32, Instruction))
        requires
            self.decode_defined(address),
        ensures
            self.decoded(address, r.0, r.1),
    {
        let mut address = address;
        let ghost first = address;
        let mut op_code = self.read_byte(address);
        address = address + 1;
        let instruction = {
            if op_code == INSTRUCTIONS_PREFIX {
                op_code = self.read_byte(address);
                address = address + 1;
                self.prefixed_op_codes.get(&op_code).unwrap()
            } else {
                self.unprefixed_op_codes.get(&op_code).unwrap()
            }
        };
        let ghost start = address as int;
        let ghost ops = instruction.operands@;
        assert(instruction.operands@ == self.table_entry(first).unwrap().operands@);
        let mut new_operands: Vec<Operand> = Vec::new();
        let mut i: usize = 0;
        while i < instruction.operands.len()
            invariant
                self.decode_defined(first),
                ops == self.table_entry(first).unwrap().operands@,
                ops == instruction.operands@,
                start == self.opcode_at(first).2,
                i <= ops.len(),
                address == start + operand_offset(ops, i as int),
                new_operands@.len() == i,
                forall|j: int| 0 <= j < i ==> #[trigger] new_operands@[j] == self.operand_read(ops[j], start + operand_offset(ops, j)),
            decreases ops.len() - i,
        {
            let operand = &instruction.operands[i];
            proof {
                assert(operand_offset(ops, i as int + 1) == operand_offset(ops, i as int) + match ops[i as int].bytes {
                    Some(b) => b as int,
                    None => 0,
                });
                lemma_operand_offset_monotone(ops, i as int + 1, ops.len() as int);
            }
            if operand.bytes.is_some() {
                let bytes = operand.bytes.unwrap();
                let mut operand_to_be_pushed = operand.duplicate();
                let operand_value: u16 = if bytes == 1 {
                    self.read_byte(address) as u16
                } else {
                    let first_byte = self.read_byte(address) as u16;
                    let second_byte = self.read_byte(address + 1) as u16;
                    assert((second_byte << 8) == second_byte * 256) by (bit_vector)
                        requires
                            second_byte < 256,
                    ;
                    (second_byte << 8) + first_byte
                };
                operand_to_be_pushed.value = Some(operand_value);
                new_operands.push(operand_to_be_pushed);
                address = address + bytes as i32;
            } else {
                new_operands.push(operand.duplicate());
            }
            i += 1;
        }
        let decoded_instruction = Instruction {
            opcode: instruction.opcode,
            immediate: instruction.immediate,
            operands: new_operands,
            cycles: duplicate_cycles(&instruction.cycles),
            bytes: instruction.bytes,
            mnemonic: instruction.mnemonic.clone(),
            comment: instruction.comment,
            prefixed: instruction.prefixed,
        };
        (address, decoded_instruction)
    }
}

/// Operand offsets never go down.
pub proof fn lemma_operand_offset_monotone(ops: Seq<Operand>, i: int, j: int)
    requires
        0 <= i <= j,
    ensures
        operand_offset(ops, i) <= operand_offset(ops, j),
    decreases j - i,
{
    if i < j {
        lemma_operand_offset_monotone(ops, i, j - 1);
    }
}

/// The addresses that hold plain RAM: external RAM, work RAM and its echo, the
/// unused block after the attribute table, high RAM, and IE.
pub open spec fn is_ram_address(a: int) -> bool {
    ||| 0xA000 <= a <= 0xFDFF
    ||| 0xFEA0 <= a <= 0xFEFF
    ||| 0xFF80 <= a <= 0xFFFF
}

/// The other address of the same RAM cell: work RAM below 0xDE00 and its echo.
pub open spec fn ram_alias(a: int) -> int {
    if 0xC000 <= a <= 0xDDFF {
        a + 0x2000
    } else if 0xE000 <= a <= 0xFDFF {
        a - 0x2000
    } else {
        a
    }
}

/// A byte written to RAM is read back, at its address and at the echo of it.
pub proof fn law_ram_reads_back(m: MMU, n: MMU, address: i32, value: u8)
    requires
        is_ram_address(address as int),
        m.wrote_byte(n, address, value),
    ensures
        n.spec_read_byte(address) == value,
        n.spec_read_byte(ram_alias(address as int) as i32) == value,
{
}

/// A write to RAM changes what no other address reads, but the echo of it.
pub proof fn law_ram_write_is_local(m: MMU, n: MMU, address: i32, value: u8, other: i32)
    requires
        is_ram_address(address as int),
        m.wrote_byte(n, address, value),
        0 <= other <= 0xFFFF,
        other != address,
        other != ram_alias(address as int),
    ensures
        n.spec_read_byte(other) == m.spec_read_byte(other),
{
    let a = address as usize;
    let b = other as usize;
    if 0xFF00 <= b <= 0xFF4B {
        assert(n.gamepad == m.gamepad && n.PPU == m.PPU);
    }
}

/// A word written to RAM is read back.
pub proof fn law_ram_word_reads_back(m: MMU, n: MMU, address: i32, value: u16)
    requires
        is_ram_address(address as int),
        is_ram_address(address + 1),
        m.wrote_word(n, address, value),
    ensures
        n.spec_read_word(address) == value,
{
    let mid = choose|mid: MMU|
        #[trigger] m.wrote_byte(mid, address, (value & 0xFF) as u8) && mid.wrote_byte(
            n,
            (address + 1) as i32,
            ((value & 0xFF00) >> 8) as u8,
        );
    law_ram_reads_back(m, mid, address, (value & 0xFF) as u8);
    law_ram_reads_back(mid, n, (address + 1) as i32, ((value & 0xFF00) >> 8) as u8);
    law_ram_write_is_local(mid, n, (address + 1) as i32, ((value & 0xFF00) >> 8) as u8, address);
    assert(((value & 0xFF) as u8) as int + (((value & 0xFF00) >> 8) as u8) as int * 256 == value)
        by (bit_vector);
}

impl MMU {
    /// Whether reading `address` is defined (see `readable`).
    pub fn is_readable(&self, address: i32) -> (b: bool)
        ensures
            b == self.readable(address),
    {
        let a = address as usize;
        if (a <= 0xFF && self.is_past_bios) || (0x100 <= a && a <= 0x7FFF) {
            a < self.cartridge.rom.len()
        } else {
            true
        }
    }

    /// Whether an OAM DMA transfer from page `value` is defined (see `dma_readable`).
    pub fn is_dma_readable(&self, value: u8) -> (b: bool)
        ensures
            b == self.dma_readable(value),
    {
        let mut k: i32 = 0;
        while k < 0xA0
            invariant
                0 <= k <= 0xA0,
                forall|j: int| 0 <= j < k ==> #[trigger] self.readable((value as int * 0x100 + j) as i32),
            decreases 0xA0 - k,
        {
            if !self.is_readable(value as i32 * 0x100 + k) {
                return false;
            }
            k = k + 1;
        }
        true
    }

    /// Whether writing `value` to `address` is defined (see `writable`).
    pub fn is_writable(&self, address: i32, value: u8) -> (b: bool)
        ensures
            b == self.writable(address, value),
    {
        if address < 0 || address > 0xFFFF {
            return false;
        }
        if address == 0xFF46 {
            return self.is_dma_readable(value);
        }
        true
    }

    /// Whether decoding at `address` is defined (see `decode_defined`).
    pub fn can_decode(&self, address: i32) -> (b: bool)
        ensures
            b == self.decode_defined(address),
    {
        if address < 0 || address >= i32::MAX - 1 || !self.is_readable(address) {
            return false;
        }
        let op = self.read_byte(address);
        let (entry, start) = if op == INSTRUCTIONS_PREFIX {
            if !self.is_readable(address + 1) {
                return false;
            }
            let code = self.read_byte(address + 1);
            (self.prefixed_op_codes.get(&code), address as i64 + 2)
        } else {
            (self.unprefixed_op_codes.get(&op), address as i64 + 1)
        };
        assert(match entry {
            Some(e) => self.table_entry(address) == Some(*e),
            None => self.table_entry(address) is None,
        });
        assert(start == self.opcode_at(address).2);
        match entry {
            None => false,
            Some(instruction) => {
                let ghost ops = instruction.operands@;
                let mut i: usize = 0;
                let mut offset: i64 = 0;
                if start >= i32::MAX as i64 - 1 {
                    proof {
                        lemma_operand_offset_monotone(ops, 0, ops.len() as int);
                    }
                    return false;
                }
                while i < instruction.operands.len()
                    invariant
                        ops == instruction.operands@,
                        ops == self.table_entry(address).unwrap().operands@,
                        start == self.opcode_at(address).2,
                        0 <= start,
                        i <= ops.len(),
                        offset == operand_offset(ops, i as int),
                        0 <= offset,
                        start + offset < i32::MAX - 1,
                        forall|j: int|
                            0 <= j < i ==> match #[trigger] ops[j].bytes {
                                Some(b) => (b == 1 || b == 2) && self.readable(
                                    (start + operand_offset(ops, j)) as i32,
                                ) && (b == 2 ==> self.readable(
                                    (start + operand_offset(ops, j) + 1) as i32,
                                )),
                                None => true,
                            },
                    decreases ops.len() - i,
                {
                    proof {
                        assert(operand_offset(ops, i as int + 1) == operand_offset(ops, i as int)
                            + match ops[i as int].bytes {
                            Some(b) => b as int,
                            None => 0,
                        });
                        lemma_operand_offset_monotone(ops, i as int + 1, ops.len() as int);
                    }
                    match instruction.operands[i].bytes {
                        Some(b) => {
                            if b != 1 && b != 2 {
                                return false;
                            }
                            if !self.is_readable((start + offset) as i32) {
                                return false;
                            }
                            if b == 2 && !self.is_readable((start + offset + 1) as i32) {
                                return false;
                            }
                            if start + offset + (b as i64) >= i32::MAX as i64 - 1 {
                                return false;
                            }
                            offset = offset + b as i64;
                        },
                        None => {},
                    }
                    i = i + 1;
                }
                true
            },
        }
    }
}

} // verus!
