use vstd::prelude::*;

verus! {

/// A ROM length that is a power of two of at least 32 KiB, as cartridge ROMs are.
pub open spec fn power_of_two_rom_size(len: nat) -> bool {
    &&& 0x8000 <= len <= usize::MAX
    &&& (len as usize) & ((len - 1) as usize) == 0
}

/// A bank index masked by the ROM length never leaves the ROM, nor the
/// unmasked index, and on a power-of-two ROM size of at least 32 KiB an index
/// below 32 KiB is kept. (Also: 0x0A keeps its low half-byte, which the RAM
/// enable value is tested by.)
proof fn lemma_mask(x: usize, len: usize)
    requires
        len > 0,
    ensures
        x & ((len - 1) as usize) <= x,
        x & ((len - 1) as usize) < len,
        power_of_two_rom_size(len as nat) && x < 0x8000 ==> x & ((len - 1) as usize) == x,
        0x0Au8 & 0xFu8 == 0x0Au8,
{
    let m: usize = (len - 1) as usize;
    assert((x & m <= x) && (x & m <= m) && (len & m == 0 && len >= 0x8000usize && x < 0x8000usize
        ==> x & m == x) && (0x0Au8 & 0xFu8 == 0x0Au8)) by (bit_vector)
        requires
            len > 0,
            m == (len - 1) as usize,
    ;
}

/// A cartridge without a bank controller: the ROM is mapped as it is, and a
/// fixed block of RAM sits above it.
#[derive(Clone, Debug)]
pub struct MbcNone {
    rom: Vec<u8>,
    ram: Vec<u8>,
}

impl MbcNone {
    /// The RAM has its fixed size and the bank registers their ranges.
    pub closed spec fn wf(self) -> bool {
        self.ram@.len() == 0x4000
    }

    /// The ROM.
    pub closed spec fn rom(self) -> Seq<u8> {
        self.rom@
    }

    /// The RAM, 16 KiB mapped at 0x8000.
    pub closed spec fn ram(self) -> Seq<u8> {
        self.ram@
    }

    /// `read` is defined at `address`: the ROM range within the ROM, or the RAM.
    pub open spec fn readable(self, address: usize) -> bool {
        address <= 0xBFFF && (address <= 0x7FFF ==> address < self.rom().len())
    }

    /// The byte `read` gives back.
    pub open spec fn spec_read(self, address: usize) -> u8 {
        if address <= 0x7FFF {
            self.rom()[address as int]
        } else {
            self.ram()[address - 0x8000]
        }
    }

    /// A controller over `rom`, with its RAM cleared.
    pub fn new(rom: Vec<u8>) -> (m: Self)
        ensures
            m.wf(),
            m.rom() == rom@,
            m.ram() == Seq::new(0x4000, |i: int| 0u8),
    {
        let m = MbcNone { rom, ram: vec![0; 0x4000] };
        assert(m.ram@ == Seq::new(0x4000, |i: int| 0u8));
        m
    }

    /// The byte at `address`.
    pub fn read(&self, address: usize) -> (v: u8)
        requires
            self.wf(),
            self.readable(address),
        ensures
            v == self.spec_read(address),
    {
        if address <= 0x7FFF {
            self.rom[address]
        } else {
            self.ram[address - 0x8000]
        }
    }

    /// `n` is `self` after `write` of `value` at `address`.
    pub open spec fn wrote(self, n: Self, address: usize, value: u8) -> bool {
        &&& n.wf()
        &&& n.rom() == self.rom()
        &&& n.ram() == if 0x7FFF < address && address < 0xC000 {
            self.ram().update(address - 0x8000, value)
        } else {
            self.ram()
        }
    }

    /// Writes `value` to the RAM at `address`; writes elsewhere are ignored.
    pub fn write(&mut self, address: usize, value: u8)
        requires
            old(self).wf(),
        ensures
            old(self).wrote(*final(self), address, value),
    {
        if 0x7FFF < address && address < 0xC000 {
            self.ram.set(address - 0x8000, value);
        }
    }
}

/// The first bank controller: up to 128 ROM banks and four RAM banks.
#[derive(Clone, Debug)]
pub struct Mbc1 {
    rom: Vec<u8>,
    ram: Vec<u8>,
    selected_rom_bank: usize,
    selected_ram_bank: usize,
    ram_selected: bool,
    ram_enabled: bool,
}

impl Mbc1 {
    /// The RAM has its fixed size and the bank registers their ranges.
    pub closed spec fn wf(self) -> bool {
        &&& self.ram@.len() == 0x8000
        &&& self.selected_rom_bank < 0x80
        &&& self.selected_ram_bank < 4
    }

    /// The ROM.
    pub closed spec fn rom(self) -> Seq<u8> {
        self.rom@
    }

    /// The RAM: four banks of 8 KiB.
    pub closed spec fn ram(self) -> Seq<u8> {
        self.ram@
    }

    /// The ROM bank register.
    pub closed spec fn selected_rom_bank(self) -> usize {
        self.selected_rom_bank
    }

    /// The RAM bank register.
    pub closed spec fn selected_ram_bank(self) -> usize {
        self.selected_ram_bank
    }

    /// Whether writes to 0x4000..=0x5FFF select the RAM bank (else the high ROM bank bits).
    pub closed spec fn ram_selected(self) -> bool {
        self.ram_selected
    }

    /// Whether the RAM is enabled.
    pub closed spec fn ram_enabled(self) -> bool {
        self.ram_enabled
    }

    /// `read` is defined at `address`.
    pub open spec fn readable(self, address: usize) -> bool {
        ||| address <= 0x3FFF && address < self.rom().len()
        ||| 0x4000 <= address <= 0x7FFF && self.rom().len() > 0
        ||| 0xA000 <= address <= 0xBFFF && (self.ram_enabled() ==> self.rom().len() > 0)
    }

    /// The ROM bank mapped at 0x4000: bank 0 reads as bank 1, and so do
    /// 0x20, 0x40 and 0x60 as the bank after them.
    pub open spec fn mapped_rom_bank(self) -> usize {
        let bank = if self.selected_rom_bank() < 1 { 1 } else { self.selected_rom_bank() };
        if bank == 0x20 || bank == 0x40 || bank == 0x60 {
            (bank + 1) as usize
        } else {
            bank
        }
    }

    /// The byte `read` gives back; banked addresses are masked by the ROM length.
    pub open spec fn spec_read(self, address: usize) -> u8 {
        let mask = (self.rom().len() - 1) as usize;
        if address <= 0x3FFF {
            self.rom()[address as int]
        } else if address <= 0x7FFF {
            let index = ((self.mapped_rom_bank() * 0x4000 + (address - 0x4000)) as usize) & mask;
            self.rom()[index as int]
        } else if self.ram_enabled() {
            let index = ((self.selected_ram_bank() * 0x2000 + (address - 0xA000)) as usize) & mask;
            self.ram()[index as int]
        } else {
            0
        }
    }

    /// A controller over `rom`, with bank 0 selected and the RAM cleared and disabled.
    pub fn new(rom: Vec<u8>) -> (m: Self)
        ensures
            m.wf(),
            m.rom() == rom@,
            m.ram() == Seq::new(0x8000, |i: int| 0u8),
            m.selected_rom_bank() == 0,
            m.selected_ram_bank() == 0,
            !m.ram_selected(),
            !m.ram_enabled(),
    {
        let m = Mbc1 {
            rom,
            ram: vec![0; 0x8000],
            selected_rom_bank: 0,
            selected_ram_bank: 0,
            ram_selected: false,
            ram_enabled: false,
        };
        assert(m.ram@ == Seq::new(0x8000, |i: int| 0u8));
        m
    }

    /// The byte at `address`.
    pub fn read(&self, address: usize) -> (v: u8)
        requires
            self.wf(),
            self.readable(address),
        ensures
            v == self.spec_read(address),
    {
        if address <= 0x3FFF {
            self.rom[address]
        } else if address <= 0x7FFF {
            let rom_bank = if self.selected_rom_bank < 1 { 1 } else { self.selected_rom_bank };
            let rom_bank = if rom_bank == 0x20 || rom_bank == 0x40 || rom_bank == 0x60 {
                rom_bank + 1
            } else {
                rom_bank
            };
            let base_address = rom_bank * 0x4000;
            let offset = address - 0x4000;
            let mask = self.rom.len() - 1;
            proof {
                lemma_mask((base_address + offset) as usize, self.rom.len());
            }
            self.rom[(base_address + offset) & mask]
        } else if self.ram_enabled {
            let base = self.selected_ram_bank * 0x2000;
            let offset = address - 0xA000;
            let mask = self.rom.len() - 1;
            proof {
                lemma_mask((base + offset) as usize, self.rom.len());
            }
            self.ram[(base + offset) & mask]
        } else {
            0
        }
    }

    /// The ROM bank register after a write of `value` to 0x2000..=0x3FFF (its low five bits).
    pub open spec fn low_bank_written(bank: usize, value: u8) -> usize {
        (bank & !0x1Fusize) | (value as usize & 0x1F)
    }

    /// The ROM bank register after a write of `value` to 0x4000..=0x5FFF
    /// while the ROM is selected (its bits 5 and 6).
    pub open spec fn high_bank_written(bank: usize, value: u8) -> usize {
        (bank & !0x60usize) | ((value as usize & 0x3) << 5usize)
    }

    /// `n` is `self` after `write` of `value` at `address`.
    pub open spec fn wrote(self, n: Self, address: usize, value: u8) -> bool {
        &&& n.wf()
        &&& n.rom() == self.rom()
        &&& n.ram_enabled() == if address <= 0x1FFF {
            value & 0xF == 0x0A
        } else {
            self.ram_enabled()
        }
        &&& n.selected_rom_bank() == if 0x2000 <= address <= 0x3FFF {
            Self::low_bank_written(self.selected_rom_bank(), value)
        } else if 0x4000 <= address <= 0x5FFF && !self.ram_selected() {
            Self::high_bank_written(self.selected_rom_bank(), value)
        } else {
            self.selected_rom_bank()
        }
        &&& n.selected_ram_bank() == if 0x4000 <= address <= 0x5FFF
            && self.ram_selected() {
            (value & 0x3) as usize
        } else {
            self.selected_ram_bank()
        }
        &&& n.ram_selected() == if 0x6000 <= address <= 0x7FFF {
            value != 0
        } else {
            self.ram_selected()
        }
        &&& n.ram() == if 0xA000 <= address <= 0xBFFF && self.ram_enabled() {
            self.ram().update(
                self.selected_ram_bank() * 0x2000 + (address - 0xA000),
                value,
            )
        } else {
            self.ram()
        }
    }

    /// Writes `value` at `address`: the registers below 0x8000, the enabled RAM
    /// bank at 0xA000..=0xBFFF; writes elsewhere are ignored.
    pub fn write(&mut self, address: usize, value: u8)
        requires
            old(self).wf(),
        ensures
            old(self).wrote(*final(self), address, value),
    {
        let bank = self.selected_rom_bank;
        assert((bank < 0x80 ==> (bank & !0x1Fusize) | (value as usize & 0x1F) < 0x80) && ((value
            & 0x3) as usize == value as usize & 0x3 && value as usize & 0x3 < 4) && (bank < 0x80
            ==> (bank & !0x60usize) | ((value as usize & 0x3) << 5usize) < 0x80)) by (bit_vector);
        if address <= 0x1FFF {
            self.ram_enabled = value & 0xF == 0x0A;
        } else if address <= 0x3FFF {
            self.selected_rom_bank = (bank & !0x1F) | (value as usize & 0x1F);
        } else if address <= 0x5FFF {
            if self.ram_selected {
                self.selected_ram_bank = value as usize & 0x3;
            } else {
                self.selected_rom_bank = (bank & !0x60) | ((value as usize & 0x3) << 5);
            }
        } else if address <= 0x7FFF {
            self.ram_selected = value != 0x00;
        } else if 0xA000 <= address && address <= 0xBFFF {
            if self.ram_enabled {
                let base = self.selected_ram_bank * 0x2000;
                let offset = address - 0xA000;
                self.ram.set(base + offset, value);
            }
        }
    }
}

/// The second bank controller: sixteen ROM banks and 512 half-bytes of RAM.
#[derive(Clone, Debug)]
pub struct Mbc2 {
    rom: Vec<u8>,
    ram: Vec<u8>,
    selected_rom_bank: usize,
    ram_enabled: bool,
}

impl Mbc2 {
    /// The RAM has its fixed size and the bank register its range.
    pub closed spec fn wf(self) -> bool {
        &&& self.ram@.len() == 0x200
        &&& self.selected_rom_bank <= 0xF
    }

    /// The ROM.
    pub closed spec fn rom(self) -> Seq<u8> {
        self.rom@
    }

    /// The RAM, 512 cells of which the low half-byte is written.
    pub closed spec fn ram(self) -> Seq<u8> {
        self.ram@
    }

    /// The ROM bank register.
    pub closed spec fn selected_rom_bank(self) -> usize {
        self.selected_rom_bank
    }

    /// Whether the RAM is enabled.
    pub closed spec fn ram_enabled(self) -> bool {
        self.ram_enabled
    }

    /// The offset added to addresses of 0x4000..=0x7FFF: the bank register,
    /// read as 1 when it is 0.
    pub open spec fn bank_base(self) -> int {
        if self.selected_rom_bank() < 1 { 1 } else { self.selected_rom_bank() as int }
    }

    /// `read` is defined at `address`: the ROM addresses within the ROM.
    pub open spec fn readable(self, address: usize) -> bool {
        &&& address <= 0x3FFF ==> address < self.rom().len()
        &&& 0x4000 <= address <= 0x7FFF ==> self.bank_base() + (address - 0x4000) < self.rom().len()
    }

    /// The byte `read` gives back: 0 outside the ROM and the enabled RAM.
    pub open spec fn spec_read(self, address: usize) -> u8 {
        if address <= 0x3FFF {
            self.rom()[address as int]
        } else if address <= 0x7FFF {
            self.rom()[self.bank_base() + (address - 0x4000)]
        } else if 0xA000 <= address <= 0xA1FF && self.ram_enabled() {
            self.ram()[address - 0xA000]
        } else {
            0
        }
    }

    /// A controller over `rom`, with bank 1 selected and the RAM cleared and disabled.
    pub fn new(rom: Vec<u8>) -> (m: Self)
        ensures
            m.wf(),
            m.rom() == rom@,
            m.ram() == Seq::new(0x200, |i: int| 0u8),
            m.selected_rom_bank() == 1,
            !m.ram_enabled(),
    {
        let m = Mbc2 { rom, ram: vec![0; 0x200], selected_rom_bank: 1, ram_enabled: false };
        assert(m.ram@ == Seq::new(0x200, |i: int| 0u8));
        m
    }

    /// The byte at `address`.
    pub fn read(&self, address: usize) -> (v: u8)
        requires
            self.wf(),
            self.readable(address),
        ensures
            v == self.spec_read(address),
    {
        if address <= 0x3FFF {
            self.rom[address]
        } else if address <= 0x7FFF {
            let base = if self.selected_rom_bank < 1 { 1 } else { self.selected_rom_bank };
            let offset = address - 0x4000;
            self.rom[base + offset]
        } else if 0xA000 <= address && address <= 0xA1FF {
            if self.ram_enabled {
                return self.ram[address - 0xA000];
            }
            0
        } else {
            0
        }
    }

    /// `n` is `self` after `write` of `value` at `address`.
    pub open spec fn wrote(self, n: Self, address: usize, value: u8) -> bool {
        &&& n.wf()
        &&& n.rom() == self.rom()
        &&& n.ram_enabled() == if address <= 0x1FFF && address & 0x100 == 0 {
            value & 0x0F == 0x0A
        } else {
            self.ram_enabled()
        }
        &&& n.selected_rom_bank() == if 0x2000 <= address <= 0x3FFF && address & 0x100
            != 0 {
            if value & 0xF < 1 { 1 } else { (value & 0xF) as usize }
        } else {
            self.selected_rom_bank()
        }
        &&& n.ram() == if 0xA000 <= address <= 0xA1FF && self.ram_enabled() {
            self.ram().update(address - 0xA000, value & 0xF)
        } else {
            self.ram()
        }
    }

    /// Writes `value` at `address`: below 0x4000 the registers, chosen by bit 8
    /// of the address; at 0xA000..=0xA1FF the low half-byte to the enabled RAM.
    pub fn write(&mut self, address: usize, value: u8)
        requires
            old(self).wf(),
        ensures
            old(self).wrote(*final(self), address, value),
    {
        if address <= 0x1FFF {
            if address & 0x100 == 0 {
                self.ram_enabled = (value & 0x0F) == 0x0A;
            }
        } else if address <= 0x3FFF {
            if address & 0x100 != 0 {
                let low = value as usize & 0xF;
                assert(low == (value & 0xF) as usize && low <= 0xF) by (bit_vector)
                    requires
                        low == value as usize & 0xF,
                ;
                self.selected_rom_bank = if low < 1 { 1 } else { low };
            }
        } else if 0xA000 <= address && address <= 0xA1FF {
            if self.ram_enabled {
                self.ram.set(address - 0xA000, value & 0xF);
            }
        }
    }
}

/// The third bank controller: 128 ROM banks, four RAM banks and the clock registers.
#[derive(Clone, Debug)]
pub struct Mbc3 {
    rom: Vec<u8>,
    ram: Vec<u8>,
    rom_bank: usize,
    enable: bool,
    select: u8,
    rtc_secs: u8,
    rtc_mins: u8,
    rtc_hours: u8,
    rtc_day_low: u8,
    rtc_day_high: u8,
    epoch: u64,
    prelatch: bool,
}

/// What the select register of an `Mbc3` maps at 0xA000..=0xBFFF.
pub open spec fn is_ram_select(select: u8) -> bool {
    select <= 3
}

/// The select values of the clock registers.
pub open spec fn is_clock_select(select: u8) -> bool {
    0x08 <= select <= 0x0C
}

impl Mbc3 {
    /// The RAM has its fixed size and the bank register its range.
    pub closed spec fn wf(self) -> bool {
        &&& self.ram@.len() == 0x8000
        &&& self.rom_bank <= 0x7F
    }

    /// The ROM.
    pub closed spec fn rom(self) -> Seq<u8> {
        self.rom@
    }

    /// The RAM: four banks of 8 KiB.
    pub closed spec fn ram(self) -> Seq<u8> {
        self.ram@
    }

    /// The ROM bank register.
    pub closed spec fn rom_bank(self) -> usize {
        self.rom_bank
    }

    /// The enable register.
    pub closed spec fn enable(self) -> bool {
        self.enable
    }

    /// The select register: a RAM bank or a clock register.
    pub closed spec fn select(self) -> u8 {
        self.select
    }

    /// The clock registers: seconds, minutes, hours, low and high day bytes.
    pub closed spec fn clock(self) -> (u8, u8, u8, u8, u8) {
        (self.rtc_secs, self.rtc_mins, self.rtc_hours, self.rtc_day_low, self.rtc_day_high)
    }

    /// The time the clock counts from.
    pub closed spec fn epoch(self) -> u64 {
        self.epoch
    }

    /// The latch state.
    pub closed spec fn prelatch(self) -> bool {
        self.prelatch
    }

    /// The ROM bank mapped at 0x4000, bank 0 read as bank 1.
    pub open spec fn mapped_rom_bank(self) -> int {
        if self.rom_bank() < 1 { 1 } else { self.rom_bank() as int }
    }

    /// `read` is defined at `address`: the ROM addresses within the ROM.
    pub open spec fn readable(self, address: usize) -> bool {
        &&& address <= 0x3FFF ==> address < self.rom().len()
        &&& 0x4000 <= address <= 0x7FFF ==> self.mapped_rom_bank() * 0x4000 + (address - 0x4000)
            < self.rom().len()
    }

    /// The byte `read` gives back.
    pub open spec fn spec_read(self, address: usize) -> u8 {
        let c = self.clock();
        if address <= 0x3FFF {
            self.rom()[address as int]
        } else if address <= 0x7FFF {
            self.rom()[self.mapped_rom_bank() * 0x4000 + (address - 0x4000)]
        } else if 0xA000 <= address <= 0xBFFF {
            if is_ram_select(self.select()) {
                self.ram()[self.select() * 0x2000 + (address - 0xA000)]
            } else if self.select() == 0x08 {
                c.0
            } else if self.select() == 0x09 {
                c.1
            } else if self.select() == 0x0A {
                c.2
            } else if self.select() == 0x0B {
                c.3
            } else if self.select() == 0x0C {
                c.4
            } else {
                0
            }
        } else {
            0
        }
    }

    /// `write` is defined at `address`: a write to 0xA000..=0xBFFF needs a RAM
    /// bank or a clock register selected.
    pub open spec fn writable(self, address: usize) -> bool {
        0xA000 <= address <= 0xBFFF ==> is_ram_select(self.select()) || is_clock_select(
            self.select(),
        )
    }

    /// A controller over `rom`, everything else cleared.
    pub fn new(rom: Vec<u8>) -> (m: Self)
        ensures
            m.wf(),
            m.rom() == rom@,
            m.ram() == Seq::new(0x8000, |i: int| 0u8),
            m.rom_bank() == 0,
            !m.enable(),
            m.select() == 0,
            m.clock() == (0u8, 0u8, 0u8, 0u8, 0u8),
            m.epoch() == 0,
            !m.prelatch(),
    {
        let mut mbc3 = Mbc3 {
            rom,
            ram: vec![0; 0x8000],
            rom_bank: 0,
            enable: false,
            select: 0,
            rtc_secs: 0,
            rtc_mins: 0,
            rtc_hours: 0,
            rtc_day_low: 0,
            rtc_day_high: 0,
            epoch: 0,
            prelatch: false,
        };
        assert(mbc3.ram@ == Seq::new(0x8000, |i: int| 0u8));
        mbc3.update_epoch();
        mbc3
    }

    /// Sets the time the clock counts from; the clock does not run, so it is 0.
    pub fn update_epoch(&mut self)
        ensures
            final(self).epoch() == 0,
            final(self).wf() == old(self).wf(),
            final(self).rom() == old(self).rom(),
            final(self).ram() == old(self).ram(),
            final(self).rom_bank() == old(self).rom_bank(),
            final(self).enable() == old(self).enable(),
            final(self).select() == old(self).select(),
            final(self).clock() == old(self).clock(),
            final(self).prelatch() == old(self).prelatch(),
    {
        self.epoch = 0;
    }

    /// The byte at `address`.
    pub fn read(&self, address: usize) -> (v: u8)
        requires
            self.wf(),
            self.readable(address),
        ensures
            v == self.spec_read(address),
    {
        if address <= 0x3FFF {
            self.rom[address]
        } else if address <= 0x7FFF {
            let rom_bank = if self.rom_bank < 1 { 1 } else { self.rom_bank };
            let base = rom_bank * 0x4000;
            let offset = address - 0x4000;
            self.rom[base + offset]
        } else if 0xA000 <= address && address <= 0xBFFF {
            let x = self.select;
            if x == 0x00 || x == 0x01 || x == 0x02 || x == 0x03 {
                let base = x as usize * 0x2000;
                let offset = address - 0xA000;
                self.ram[base + offset]
            } else if x == 0x08 {
                self.rtc_secs
            } else if x == 0x09 {
                self.rtc_mins
            } else if x == 0x0A {
                self.rtc_hours
            } else if x == 0x0B {
                self.rtc_day_low
            } else if x == 0x0C {
                self.rtc_day_high
            } else {
                0
            }
        } else {
            0
        }
    }

    /// `n` is `self` after `write` of `value` at `address`.
    pub open spec fn wrote(self, n: Self, address: usize, value: u8) -> bool {
        &&& n.wf()
        &&& n.rom() == self.rom()
        &&& n.epoch() == self.epoch()
        &&& n.prelatch() == self.prelatch()
        &&& n.enable() == if address <= 0x1FFF {
            value != 0
        } else {
            self.enable()
        }
        &&& n.rom_bank() == if 0x2000 <= address <= 0x3FFF {
            (value & 0x7F) as usize
        } else {
            self.rom_bank()
        }
        &&& n.select() == if 0x4000 <= address <= 0x5FFF {
            value
        } else {
            self.select()
        }
        &&& n.ram() == if 0xA000 <= address <= 0xBFFF && is_ram_select(
            self.select(),
        ) {
            self.ram().update(self.select() * 0x2000 + (address - 0xA000), value)
        } else {
            self.ram()
        }
        &&& n.clock() == if 0xA000 <= address <= 0xBFFF {
            let c = self.clock();
            let s = self.select();
            if s == 0x08 {
                (value, c.1, c.2, c.3, c.4)
            } else if s == 0x09 {
                (c.0, value, c.2, c.3, c.4)
            } else if s == 0x0A {
                (c.0, c.1, value, c.3, c.4)
            } else if s == 0x0B {
                (c.0, c.1, c.2, value, c.4)
            } else if s == 0x0C {
                (c.0, c.1, c.2, c.3, value)
            } else {
                c
            }
        } else {
            self.clock()
        }
    }

    /// Writes `value` at `address`: the registers below 0x8000 (0x6000..=0x7FFF,
    /// the latch, does nothing), the selected RAM bank or clock register at
    /// 0xA000..=0xBFFF; writes elsewhere are ignored.
    pub fn write(&mut self, address: usize, value: u8)
        requires
            old(self).wf(),
            old(self).writable(address),
        ensures
            old(self).wrote(*final(self), address, value),
    {
        if address <= 0x1FFF {
            self.enable = value != 0x00;
        } else if address <= 0x3FFF {
            assert((value & 0x7F) as usize == value as usize & 0x7F && value as usize & 0x7F
                <= 0x7F) by (bit_vector);
            self.rom_bank = value as usize & 0x7F;
        } else if address <= 0x5FFF {
            self.select = value;
        } else if 0xA000 <= address && address <= 0xBFFF {
            let x = self.select;
            if x == 0x00 || x == 0x01 || x == 0x02 || x == 0x03 {
                let base = x as usize * 0x2000;
                let offset = address - 0xA000;
                self.ram.set(base + offset, value);
            } else if x == 0x08 {
                self.rtc_secs = value;
            } else if x == 0x09 {
                self.rtc_mins = value;
            } else if x == 0x0A {
                self.rtc_hours = value;
            } else if x == 0x0B {
                self.rtc_day_low = value;
            } else {
                self.rtc_day_high = value;
            }
        }
    }
}

/// The fifth bank controller: up to 512 ROM banks and sixteen RAM banks.
#[derive(Clone, Debug)]
pub struct Mbc5 {
    rom: Vec<u8>,
    ram: Vec<u8>,
    selected_rom_bank: usize,
    selected_ram_bank: usize,
    ram_enabled: bool,
}

impl Mbc5 {
    /// The RAM has its fixed size and the bank registers their ranges.
    pub closed spec fn wf(self) -> bool {
        &&& self.ram@.len() == 0x20000
        &&& self.selected_rom_bank <= 0x1FF
        &&& self.selected_ram_bank <= 0xF
    }

    /// The ROM.
    pub closed spec fn rom(self) -> Seq<u8> {
        self.rom@
    }

    /// The RAM: sixteen banks of 8 KiB.
    pub closed spec fn ram(self) -> Seq<u8> {
        self.ram@
    }

    /// The ROM bank register.
    pub closed spec fn selected_rom_bank(self) -> usize {
        self.selected_rom_bank
    }

    /// The RAM bank register.
    pub closed spec fn selected_ram_bank(self) -> usize {
        self.selected_ram_bank
    }

    /// Whether the RAM is enabled.
    pub closed spec fn ram_enabled(self) -> bool {
        self.ram_enabled
    }

    /// `read` is defined at `address`: the ROM addresses within the ROM.
    pub open spec fn readable(self, address: usize) -> bool {
        &&& address <= 0x3FFF ==> address < self.rom().len()
        &&& 0x4000 <= address <= 0x7FFF ==> self.selected_rom_bank() * 0x4000 + (address
            - 0x4000) < self.rom().len()
    }

    /// The byte `read` gives back: reads of the RAM range give 0.
    pub open spec fn spec_read(self, address: usize) -> u8 {
        if address <= 0x3FFF {
            self.rom()[address as int]
        } else if address <= 0x7FFF {
            self.rom()[self.selected_rom_bank() * 0x4000 + (address - 0x4000)]
        } else {
            0
        }
    }

    /// A controller over `rom`, with bank 0 selected and the RAM cleared and disabled.
    pub fn new(rom: Vec<u8>) -> (m: Self)
        ensures
            m.wf(),
            m.rom() == rom@,
            m.ram() == Seq::new(0x20000, |i: int| 0u8),
            m.selected_rom_bank() == 0,
            m.selected_ram_bank() == 0,
            !m.ram_enabled(),
    {
        let m = Mbc5 {
            rom,
            ram: vec![0; 0x20000],
            selected_rom_bank: 0,
            selected_ram_bank: 0,
            ram_enabled: false,
        };
        assert(m.ram@ == Seq::new(0x20000, |i: int| 0u8));
        m
    }

    /// The byte at `address`; the RAM range reads as 0, enabled or not.
    pub fn read(&self, address: usize) -> (v: u8)
        requires
            self.wf(),
            self.readable(address),
        ensures
            v == self.spec_read(address),
    {
        if address <= 0x3FFF {
            self.rom[address]
        } else if address <= 0x7FFF {
            let base = self.selected_rom_bank * 0x4000;
            let offset = address - 0x4000;
            self.rom[base + offset]
        } else {
            0
        }
    }

    /// The ROM bank register after a write of `value` to 0x2000..=0x2FFF (its low byte).
    pub open spec fn low_bank_written(bank: usize, value: u8) -> usize {
        (bank & !0xFFusize) | value as usize
    }

    /// The ROM bank register after a write of `value` to 0x3000..=0x3FFF (its bit 8).
    pub open spec fn high_bank_written(bank: usize, value: u8) -> usize {
        (bank & !0x100usize) | ((value as usize & 1) << 8usize)
    }

    /// `n` is `self` after `write` of `value` at `address`.
    pub open spec fn wrote(self, n: Self, address: usize, value: u8) -> bool {
        &&& n.wf()
        &&& n.rom() == self.rom()
        &&& n.ram_enabled() == if address <= 0x1FFF {
            value & 0xF == 0xA
        } else {
            self.ram_enabled()
        }
        &&& n.selected_rom_bank() == if 0x2000 <= address <= 0x2FFF {
            Self::low_bank_written(self.selected_rom_bank(), value)
        } else if 0x3000 <= address <= 0x3FFF {
            Self::high_bank_written(self.selected_rom_bank(), value)
        } else {
            self.selected_rom_bank()
        }
        &&& n.selected_ram_bank() == if 0x4000 <= address <= 0x5FFF {
            (value & 0xF) as usize
        } else {
            self.selected_ram_bank()
        }
        &&& n.ram() == if 0xA000 <= address <= 0xBFFF && self.ram_enabled() {
            self.ram().update(
                self.selected_ram_bank() * 0x2000 + (address - 0xA000),
                value,
            )
        } else {
            self.ram()
        }
    }

    /// Writes `value` at `address`: the registers below 0x6000, the enabled RAM
    /// bank at 0xA000..=0xBFFF; writes elsewhere are ignored.
    pub fn write(&mut self, address: usize, value: u8)
        requires
            old(self).wf(),
        ensures
            old(self).wrote(*final(self), address, value),
    {
        let bank = self.selected_rom_bank;
        assert((bank <= 0x1FF ==> (bank & !0xFFusize) | value as usize <= 0x1FF) && (bank <= 0x1FF
            ==> (bank & !0x100usize) | ((value as usize & 1) << 8usize) <= 0x1FF) && ((value & 0xF)
            as usize == value as usize & 0xF && value as usize & 0xF <= 0xF)) by (bit_vector);
        if address <= 0x1FFF {
            self.ram_enabled = value & 0xF == 0xA;
        } else if address <= 0x2FFF {
            self.selected_rom_bank = (bank & !0xFF) | value as usize;
        } else if address <= 0x3FFF {
            self.selected_rom_bank = (bank & !0x100) | ((value as usize & 1) << 8);
        } else if address <= 0x5FFF {
            self.selected_ram_bank = value as usize & 0xF;
        } else if 0xA000 <= address && address <= 0xBFFF {
            if self.ram_enabled {
                let base = self.selected_ram_bank * 0x2000;
                let offset = address - 0xA000;
                self.ram.set(base + offset, value);
            }
        }
    }
}

/// The bank controller of a cartridge, by kind.
#[derive(Clone, Debug)]
pub enum MbcType {
    RomOnly(MbcNone),
    Mbc1(Mbc1),
    Mbc2(Mbc2),
    Mbc3(Mbc3),
    Mbc5(Mbc5),
}

/// The cartridge-type codes of the header that have a controller here.
pub open spec fn supported_mbc_code(code: u8) -> bool {
    ||| code == 0x00
    ||| 0x01 <= code <= 0x03
    ||| 0x05 <= code <= 0x06
    ||| 0x0F <= code <= 0x13
    ||| 0x19 <= code <= 0x1E
}

impl MbcType {
    /// The controller holds its invariant.
    pub open spec fn wf(self) -> bool {
        match self {
            MbcType::RomOnly(m) => m.wf(),
            MbcType::Mbc1(m) => m.wf(),
            MbcType::Mbc2(m) => m.wf(),
            MbcType::Mbc3(m) => m.wf(),
            MbcType::Mbc5(m) => m.wf(),
        }
    }

    /// The ROM of the controller.
    pub open spec fn rom(self) -> Seq<u8> {
        match self {
            MbcType::RomOnly(m) => m.rom(),
            MbcType::Mbc1(m) => m.rom(),
            MbcType::Mbc2(m) => m.rom(),
            MbcType::Mbc3(m) => m.rom(),
            MbcType::Mbc5(m) => m.rom(),
        }
    }

    /// `read` is defined at `address`.
    pub open spec fn readable(self, address: usize) -> bool {
        match self {
            MbcType::RomOnly(m) => m.readable(address),
            MbcType::Mbc1(m) => m.readable(address),
            MbcType::Mbc2(m) => m.readable(address),
            MbcType::Mbc3(m) => m.readable(address),
            MbcType::Mbc5(m) => m.readable(address),
        }
    }

    /// The byte `read` gives back.
    pub open spec fn spec_read(self, address: usize) -> u8 {
        match self {
            MbcType::RomOnly(m) => m.spec_read(address),
            MbcType::Mbc1(m) => m.spec_read(address),
            MbcType::Mbc2(m) => m.spec_read(address),
            MbcType::Mbc3(m) => m.spec_read(address),
            MbcType::Mbc5(m) => m.spec_read(address),
        }
    }

    /// `write` is defined at `address`.
    pub open spec fn writable(self, address: usize) -> bool {
        match self {
            MbcType::Mbc3(m) => m.writable(address),
            _ => true,
        }
    }

    /// `n` is `self` after the controller's own `write` of `value` at `address`.
    pub open spec fn written(self, n: MbcType, address: usize, value: u8) -> bool {
        match (self, n) {
            (MbcType::RomOnly(o), MbcType::RomOnly(m)) => o.wrote(m, address, value),
            (MbcType::Mbc1(o), MbcType::Mbc1(m)) => o.wrote(m, address, value),
            (MbcType::Mbc2(o), MbcType::Mbc2(m)) => o.wrote(m, address, value),
            (MbcType::Mbc3(o), MbcType::Mbc3(m)) => o.wrote(m, address, value),
            (MbcType::Mbc5(o), MbcType::Mbc5(m)) => o.wrote(m, address, value),
            _ => false,
        }
    }

    /// Writes `value` at `address` through the controller.
    pub fn write(&mut self, address: usize, value: u8)
        requires
            old(self).wf(),
            old(self).writable(address),
        ensures
            final(self).wf(),
            final(self).rom() == old(self).rom(),
            old(self).written(*final(self), address, value),
    {
        match self {
            MbcType::RomOnly(mbc) => mbc.write(address, value),
            MbcType::Mbc1(mbc) => mbc.write(address, value),
            MbcType::Mbc2(mbc) => mbc.write(address, value),
            MbcType::Mbc3(mbc) => mbc.write(address, value),
            MbcType::Mbc5(mbc) => mbc.write(address, value),
        }
    }

    /// The byte at `address`, through the controller.
    pub fn read(&self, address: usize) -> (v: u8)
        requires
            self.wf(),
            self.readable(address),
        ensures
            v == self.spec_read(address),
    {
        match self {
            MbcType::RomOnly(mbc) => mbc.read(address),
            MbcType::Mbc1(mbc) => mbc.read(address),
            MbcType::Mbc2(mbc) => mbc.read(address),
            MbcType::Mbc3(mbc) => mbc.read(address),
            MbcType::Mbc5(mbc) => mbc.read(address),
        }
    }

    /// The controller that the cartridge-type code `mbc_code` names, over `rom`.
    pub fn new(mbc_code: u8, rom: Vec<u8>) -> (m: Self)
        requires
            supported_mbc_code(mbc_code),
        ensures
            m.wf(),
            m.rom() == rom@,
            mbc_code == 0x00 <==> m is RomOnly,
            0x01 <= mbc_code <= 0x03 <==> m is Mbc1,
            0x05 <= mbc_code <= 0x06 <==> m is Mbc2,
            0x0F <= mbc_code <= 0x13 <==> m is Mbc3,
            0x19 <= mbc_code <= 0x1E <==> m is Mbc5,
            m matches MbcType::RomOnly(x) ==> x.ram() == Seq::new(0x4000, |i: int| 0u8),
            m matches MbcType::Mbc1(x) ==> {
                &&& x.ram() == Seq::new(0x8000, |i: int| 0u8)
                &&& x.selected_rom_bank() == 0
                &&& x.selected_ram_bank() == 0
                &&& !x.ram_selected()
                &&& !x.ram_enabled()
            },
            m matches MbcType::Mbc2(x) ==> {
                &&& x.ram() == Seq::new(0x200, |i: int| 0u8)
                &&& x.selected_rom_bank() == 1
                &&& !x.ram_enabled()
            },
            m matches MbcType::Mbc3(x) ==> {
                &&& x.ram() == Seq::new(0x8000, |i: int| 0u8)
                &&& x.rom_bank() == 0
                &&& !x.enable()
                &&& x.select() == 0
                &&& x.clock() == (0u8, 0u8, 0u8, 0u8, 0u8)
                &&& x.epoch() == 0
                &&& !x.prelatch()
            },
            m matches MbcType::Mbc5(x) ==> {
                &&& x.ram() == Seq::new(0x20000, |i: int| 0u8)
                &&& x.selected_rom_bank() == 0
                &&& x.selected_ram_bank() == 0
                &&& !x.ram_enabled()
            },
    {
        if mbc_code == 0x00 {
            MbcType::RomOnly(MbcNone::new(rom))
        } else if mbc_code <= 0x03 {
            MbcType::Mbc1(Mbc1::new(rom))
        } else if mbc_code <= 0x06 {
            MbcType::Mbc2(Mbc2::new(rom))
        } else if mbc_code <= 0x13 {
            MbcType::Mbc3(Mbc3::new(rom))
        } else {
            MbcType::Mbc5(Mbc5::new(rom))
        }
    }
}

/// Without a controller, a byte written to the RAM range is read back.
pub proof fn law_rom_only_reads_back_ram(m: MbcNone, n: MbcNone, address: usize, value: u8)
    requires
        m.wf(),
        0x8000 <= address <= 0xBFFF,
        m.wrote(n, address, value),
    ensures
        n.wf(),
        n.readable(address),
        n.spec_read(address) == value,
{
}

/// On the first controller with its RAM enabled and a ROM whose length is a power
/// of two of at least 32 KiB,
/// a byte written to the RAM range is read back.
pub proof fn law_mbc1_reads_back_ram(m: Mbc1, n: Mbc1, address: usize, value: u8)
    requires
        m.wf(),
        m.ram_enabled(),
        power_of_two_rom_size(m.rom().len()),
        0xA000 <= address <= 0xBFFF,
        m.wrote(n, address, value),
    ensures
        n.readable(address),
        n.spec_read(address) == value,
{
    let index = (m.selected_ram_bank() * 0x2000 + (address - 0xA000)) as usize;
    lemma_mask(index, (m.rom().len() as usize));
}

/// On the second controller with its RAM enabled, the low half-byte written
/// to the RAM range is read back.
pub proof fn law_mbc2_reads_back_ram(m: Mbc2, n: Mbc2, address: usize, value: u8)
    requires
        m.wf(),
        m.ram_enabled(),
        0xA000 <= address <= 0xA1FF,
        m.wrote(n, address, value),
    ensures
        n.readable(address),
        n.spec_read(address) == value & 0xF,
{
}

/// On the third controller with a RAM bank or a clock register selected, a
/// byte written to 0xA000..=0xBFFF is read back.
pub proof fn law_mbc3_reads_back_selected(m: Mbc3, n: Mbc3, address: usize, value: u8)
    requires
        m.wf(),
        m.writable(address),
        0xA000 <= address <= 0xBFFF,
        m.wrote(n, address, value),
    ensures
        n.readable(address),
        n.spec_read(address) == value,
{
}

/// A write through any controller leaves its ROM as it was.
pub proof fn law_write_keeps_rom(m: MbcType, n: MbcType, address: usize, value: u8)
    requires
        m.wf(),
        m.written(n, address, value),
    ensures
        n.wf(),
        n.rom() == m.rom(),
{
}

/// The invariant of the first controller, as far as its users need it: four RAM
/// banks of 8 KiB, a RAM bank register below 4 and a ROM bank register below 0x80.
pub proof fn lemma_mbc1_wf(m: Mbc1)
    requires
        m.wf(),
    ensures
        m.ram().len() == 0x8000,
        m.selected_ram_bank() < 4,
        m.selected_rom_bank() < 0x80,
{
}

/// The invariant of the third controller, as far as its users need it: four RAM
/// banks of 8 KiB and a ROM bank register of at most 0x7F.
pub proof fn lemma_mbc3_wf(m: Mbc3)
    requires
        m.wf(),
    ensures
        m.ram().len() == 0x8000,
        m.rom_bank() <= 0x7F,
{
}

/// On the first controller the RAM range reads 0 while the RAM is disabled, and
/// nothing can be read at 0x8000..=0x9FFF or from 0xC000 on.
pub proof fn law_mbc1_ram_range(m: Mbc1, address: usize)
    requires
        m.wf(),
    ensures
        0xA000 <= address <= 0xBFFF && !m.ram_enabled() ==> m.readable(address) && m.spec_read(address)
            == 0,
        0x8000 <= address <= 0x9FFF || address >= 0xC000 ==> !m.readable(address),
{
}

/// On the first controller over a ROM whose length is a power of two of at least
/// 32 KiB, once 0x0A is written below 0x2000 (which enables the RAM), a byte then
/// written to the RAM range is read back, whatever bank is selected.
pub proof fn law_mbc1_enable_then_write_reads_back(
    m: Mbc1,
    enabled: Mbc1,
    n: Mbc1,
    address: usize,
    value: u8,
)
    requires
        m.wf(),
        power_of_two_rom_size(m.rom().len()),
        m.wrote(enabled, 0x0000, 0x0A),
        0xA000 <= address <= 0xBFFF,
        enabled.wrote(n, address, value),
    ensures
        n.readable(address),
        n.spec_read(address) == value,
{
    lemma_mask(0, 1);
    law_mbc1_reads_back_ram(enabled, n, address, value);
}

/// On the third controller, once a RAM bank (0 to 3) or a clock register (0x08 to
/// 0x0C) is selected by a write to 0x4000, a byte then written to the RAM range is
/// read back; with a clock register selected it is read back at every address of
/// that range.
pub proof fn law_mbc3_select_then_write_reads_back(
    m: Mbc3,
    selected: Mbc3,
    n: Mbc3,
    select: u8,
    address: usize,
    value: u8,
    other: usize,
)
    requires
        m.wf(),
        m.wrote(selected, 0x4000, select),
        is_ram_select(select) || is_clock_select(select),
        0xA000 <= address <= 0xBFFF,
        selected.wrote(n, address, value),
    ensures
        n.readable(address),
        n.spec_read(address) == value,
        is_clock_select(select) && 0xA000 <= other <= 0xBFFF ==> n.spec_read(other) == value,
{
    law_mbc3_reads_back_selected(selected, n, address, value);
}

/// The third controller reads 0 at 0x8000..=0x9FFF, from 0xC000 on, and in the RAM
/// range when neither a RAM bank nor a clock register is selected.
pub proof fn law_mbc3_reads_zero(m: Mbc3, address: usize)
    requires
        m.wf(),
        0x8000 <= address <= 0x9FFF || address >= 0xC000 || (0xA000 <= address <= 0xBFFF
            && !is_ram_select(m.select()) && !is_clock_select(m.select())),
    ensures
        m.readable(address),
        m.spec_read(address) == 0,
{
}

/// The third controller's RAM banks are separate: with RAM bank i (0 to 3)
/// selected, a byte written at 0xA000 + k changes RAM cell i * 0x2000 + k only, so
/// that with another bank j selected (by a write to 0x4000) every address of the
/// RAM range reads what it read before the write.
pub proof fn law_mbc3_banks_are_separate(
    m: Mbc3,
    n: Mbc3,
    address: usize,
    value: u8,
    other_bank: u8,
    m_other: Mbc3,
    n_other: Mbc3,
    read_at: usize,
)
    requires
        m.wf(),
        is_ram_select(m.select()),
        0xA000 <= address <= 0xBFFF,
        m.wrote(n, address, value),
        is_ram_select(other_bank),
        other_bank != m.select(),
        m.wrote(m_other, 0x4000, other_bank),
        n.wrote(n_other, 0x4000, other_bank),
        0xA000 <= read_at <= 0xBFFF,
    ensures
        n.ram() == m.ram().update(m.select() * 0x2000 + (address - 0xA000), value),
        n_other.spec_read(read_at) == m_other.spec_read(read_at),
{
    let i = m.select() as int;
    let j = other_bank as int;
    let k = address - 0xA000;
    let l = read_at - 0xA000;
    assert(i * 0x2000 + k != j * 0x2000 + l) by (nonlinear_arith)
        requires
            0 <= i <= 3,
            0 <= j <= 3,
            i != j,
            0 <= k < 0x2000,
            0 <= l < 0x2000,
    ;
    assert(0 <= j * 0x2000 + l < 0x8000) by (nonlinear_arith)
        requires
            0 <= j <= 3,
            0 <= l < 0x2000,
    ;
}

} // verus!
