use std::collections::HashMap;
use pogboy::cpu::registers::RegisterItem;
use pogboy::cpu::{InterruptType, CPU};
use pogboy::io::gamepad::{gamepad, GamepadKey};
use pogboy::memory::cartridge::Cartridge;
use pogboy::memory::mmu::MMU;
use pogboy::ppu::PPU;

const INTERRUPT_ENABLED_ADDRESS: i32 = 0xFFFF;
const INTERRUPT_FLAG_ADDRESS: i32 = 0xFF0F;

fn io_dummy_mmu() -> MMU {
    let cartridge = Cartridge { cartridge_info: None, rom: vec![0; 0x108] };
    let unprefixed = HashMap::new();
    let prefixed = HashMap::new();
    let mut mmu = MMU::new(Some(cartridge), PPU::new(), unprefixed, prefixed);
    mmu.PPU.video_ram = [1; 0x2000];
    mmu.external_ram = [2; 0x2000];
    mmu.work_ram = [3; 0x2000];
    mmu.io_registers = [4; 0x100];
    mmu.high_ram = [5; 0x80];
    mmu
}

#[test]
fn gamepad_works() {
    let mut dummy_gamepad = gamepad::default();

    assert_eq!(dummy_gamepad.read(), 0x0);

    dummy_gamepad.write(0x20);
    assert_eq!(dummy_gamepad.read(), 0xF);

    dummy_gamepad.write(0x20);
    dummy_gamepad.key_pressed(GamepadKey::Z);
    assert_eq!(dummy_gamepad.read(), 0b1110);

    dummy_gamepad.key_released(GamepadKey::Z);
    assert_eq!(dummy_gamepad.read(), 0xF);

    dummy_gamepad.key_pressed(GamepadKey::Z);
    dummy_gamepad.key_pressed(GamepadKey::X);
    assert_eq!(dummy_gamepad.read(), 0b1100);

    dummy_gamepad.write(0x10);
    dummy_gamepad.key_pressed(GamepadKey::Down);
    assert_eq!(dummy_gamepad.read(), 0b0111);
    dummy_gamepad.key_pressed(GamepadKey::Right);
    assert_eq!(dummy_gamepad.read(), 0b0110);
}

#[test]
fn interrupt_checks_works() {
    let dummy_mmu = io_dummy_mmu();
    let mut cpu = CPU::new(dummy_mmu);

    cpu.MMU.interrupt_master_enabled = true;
    cpu.check_interrupts();
    assert_eq!(cpu.MMU.interrupt_master_enabled, true);

    cpu.MMU.write_byte(INTERRUPT_ENABLED_ADDRESS, 0xFF);
    cpu.request_interrupt(InterruptType::VBlank);
    cpu.check_interrupts();
    assert_eq!(cpu.MMU.read_byte(INTERRUPT_FLAG_ADDRESS), 0xE0);
    assert_eq!(cpu.MMU.interrupt_master_enabled, false);

    cpu.request_interrupt(InterruptType::Serial);
    cpu.check_interrupts();
    assert_eq!(cpu.MMU.read_byte(INTERRUPT_FLAG_ADDRESS), 0xE8);
    assert_eq!(cpu.MMU.interrupt_master_enabled, false);

    cpu.MMU.interrupt_master_enabled = true;
    cpu.MMU.write_byte(INTERRUPT_ENABLED_ADDRESS, 0x0);
    cpu.check_interrupts();
    assert_eq!(cpu.MMU.read_byte(INTERRUPT_FLAG_ADDRESS), 0xE8);

    cpu.MMU.write_byte(INTERRUPT_ENABLED_ADDRESS, 0xFF);
    cpu.check_interrupts();
    assert_eq!(cpu.MMU.read_byte(INTERRUPT_FLAG_ADDRESS), 0xE0);
}

#[test]
fn interrupt_handler_sets_right_pc_address_and_SP() {
    let dummy_mmu = io_dummy_mmu();
    let mut cpu = CPU::new(dummy_mmu);

    cpu.Registers.PC = 42;
    cpu.MMU.interrupt_master_enabled = true;
    cpu.MMU.write_byte(INTERRUPT_ENABLED_ADDRESS, 0xFF);
    cpu.request_interrupt(InterruptType::Serial);
    cpu.check_interrupts();
    assert_eq!(cpu.Registers.PC, 0x58);
    assert_eq!(cpu.read_from_stack(), 42);
}

#[test]
fn higher_priority_interrupt_is_served_first() {
    let mut cpu = CPU::new(io_dummy_mmu());
    cpu.MMU.interrupt_master_enabled = true;
    cpu.MMU.write_byte(INTERRUPT_ENABLED_ADDRESS, 0xFF);
    cpu.request_interrupt(InterruptType::Joypad);
    cpu.request_interrupt(InterruptType::Timer);
    assert_eq!(cpu.check_interrupts(), 16);
    assert_eq!(cpu.Registers.get_item(RegisterItem::PC), 0x50);
    assert_eq!(cpu.MMU.read_byte(INTERRUPT_FLAG_ADDRESS), 0xE0 | 0x10);
}

#[test]
fn pending_interrupt_ends_halt_without_ime() {
    let mut cpu = CPU::new(io_dummy_mmu());
    cpu.is_halted = true;
    cpu.MMU.write_byte(INTERRUPT_ENABLED_ADDRESS, 0x04);
    assert_eq!(cpu.check_interrupts(), 0);
    assert_eq!(cpu.is_halted, true);
    cpu.request_interrupt(InterruptType::Timer);
    assert_eq!(cpu.check_interrupts(), 0);
    assert_eq!(cpu.is_halted, false);
    assert_eq!(cpu.Registers.get_item(RegisterItem::PC), 0x200);
}

#[test]
fn held_key_shows_only_in_its_column() {
    let mut pad = gamepad::default();
    pad.key_pressed(GamepadKey::Space);
    pad.write(0x20);
    assert_eq!(pad.read(), 0x7);
    pad.write(0x10);
    assert_eq!(pad.read(), 0xF);
    pad.write(0x30);
    assert_eq!(pad.read(), 0x0);
    pad.key_released(GamepadKey::Space);
    pad.write(0x20);
    assert_eq!(pad.read(), 0xF);
    assert_eq!(gamepad::get_line_and_mask_from_key(GamepadKey::Up), (0x10, 0x04));
}
