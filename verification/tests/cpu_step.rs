use pogboy::cpu::registers::{RegisterItem, Registers};
use pogboy::cpu::{InterruptType, CPU};
use pogboy::cpu::execute::Op;
use pogboy::cpu::run::{pacing_sleep, HostKey, KeyState, LoopAction, Slice, CYCLES_PER_FRAME};
use pogboy::io::gamepad::GamepadKey;
use pogboy::memory::cartridge::Cartridge;
use pogboy::memory::mmu::MMU;
use pogboy::memory::op_codes_parser::{get_instructions_from_json, OpCodeEntry, OpCodesJson, OperandEntry};
use pogboy::ppu::PPU;

fn step_entry(mnemonic: &str, bytes: i64, cycles: Vec<i64>, operands: Vec<(&str, bool, Option<i64>)>) -> OpCodeEntry {
    OpCodeEntry {
        mnemonic: mnemonic.to_string(),
        bytes,
        cycles,
        operands: operands
            .into_iter()
            .map(|(name, immediate, bytes)| OperandEntry { immediate, name: name.to_string(), bytes })
            .collect(),
        immediate: true,
    }
}

fn step_cpu(program: &[u8]) -> CPU {
    let json = OpCodesJson {
        categories: vec![
            (
                "unprefixed".to_string(),
                vec![
                    ("0x00".to_string(), step_entry("NOP", 1, vec![4], vec![])),
                    ("0x3E".to_string(), step_entry("LD", 2, vec![8], vec![("A", true, None), ("d8", true, Some(1))])),
                    ("0x3C".to_string(), step_entry("INC", 1, vec![4], vec![("A", true, None)])),
                    ("0x76".to_string(), step_entry("HALT", 1, vec![4], vec![])),
                    ("0xC3".to_string(), step_entry("JP", 3, vec![16], vec![("a16", true, Some(2))])),
                    ("0x20".to_string(), step_entry("JR", 2, vec![12, 8, 4], vec![("NZ", true, None), ("r8", true, Some(1))])),
                ],
            ),
            (
                "cbprefixed".to_string(),
                vec![("0x37".to_string(), step_entry("SWAP", 2, vec![8], vec![("A", true, None)]))],
            ),
        ],
    };
    let unprefixed = get_instructions_from_json(&json, "unprefixed");
    let prefixed = get_instructions_from_json(&json, "cbprefixed");
    let mut rom = vec![0u8; 0x300];
    for (i, byte) in program.iter().enumerate() {
        rom[0x200 + i] = *byte;
    }
    let mmu = MMU::new(Some(Cartridge { cartridge_info: None, rom }), PPU::new(), unprefixed, prefixed);
    CPU::new(mmu)
}

#[test]
fn step_runs_the_instruction_at_pc() {
    let mut cpu = step_cpu(&[0x3E, 0x41, 0x3C, 0xCB, 0x37, 0x00, 0xC3, 0x00, 0x02]);
    assert_eq!(cpu.step(), (8, 8));
    assert_eq!(cpu.Registers.get_item(RegisterItem::A), 0x41);
    assert_eq!(cpu.Registers.get_item(RegisterItem::PC), 0x202);
    assert_eq!(cpu.step(), (12, 4));
    assert_eq!(cpu.Registers.get_item(RegisterItem::A), 0x42);
    assert_eq!(cpu.step(), (20, 8));
    assert_eq!(cpu.Registers.get_item(RegisterItem::A), 0x24);
    assert_eq!(cpu.step(), (24, 4));
    assert_eq!(cpu.step(), (40, 16));
    assert_eq!(cpu.Registers.get_item(RegisterItem::PC), 0x200);
}

#[test]
fn step_counts_the_second_cycle_count_of_three() {
    let mut cpu = step_cpu(&[0x20, 0x02]);
    cpu.Registers.set_item(RegisterItem::FlagZ, 1);
    assert_eq!(cpu.step(), (8, 8));
    assert_eq!(cpu.Registers.get_item(RegisterItem::PC), 0x202);
}

#[test]
fn halted_processor_waits() {
    let mut cpu = step_cpu(&[0x76, 0x3C]);
    assert_eq!(cpu.step(), (4, 4));
    assert_eq!(cpu.is_halted, true);
    assert_eq!(cpu.step(), (4, 4));
    assert_eq!(cpu.Registers.get_item(RegisterItem::PC), 0x201);
}

#[test]
fn timer_counts_and_requests_its_interrupt() {
    let mut cpu = step_cpu(&[]);
    cpu.MMU.write_byte(0xFF07, 0x5);
    cpu.MMU.write_byte(0xFF06, 0x10);
    cpu.MMU.write_byte(0xFF05, 0xFF);
    assert_eq!(cpu.get_timer_frequency(), 262144);
    assert_eq!(cpu.is_timer_enabled(), true);
    cpu.increment_timer(262144);
    assert_eq!(cpu.MMU.read_byte(0xFF05), 0x10);
    assert_eq!(cpu.MMU.interrupt_flag & InterruptType::Timer.mask(), InterruptType::Timer.mask());
    cpu.increment_timer(0x100);
    assert_eq!(cpu.MMU.read_byte(0xFF04), 2);
}

#[test]
fn register_write_is_read_back_and_leaves_the_others() {
    let mut registers = Registers::new();
    assert_eq!(registers.get_item(RegisterItem::SP), 0xFFFE);
    assert_eq!(registers.get_item(RegisterItem::PC), 0x200);
    registers.set_item(RegisterItem::BC, 0x1234);
    assert_eq!(registers.get_item(RegisterItem::B), 0x12);
    assert_eq!(registers.get_item(RegisterItem::C), 0x34);
    registers.set_item(RegisterItem::F, 0xF0);
    assert_eq!(registers.get_item(RegisterItem::FlagZ), 1);
    assert_eq!(registers.get_item(RegisterItem::FlagC), 1);
    registers.set_item(RegisterItem::FlagH, 0);
    assert_eq!(registers.get_item(RegisterItem::F), 0xD0);
    registers.set_item(RegisterItem::A, 0x1FF);
    assert_eq!(registers.get_item(RegisterItem::A), 0xFF);
    assert_eq!(registers.get_item(RegisterItem::AF), 0xFFD0);
    assert_eq!(registers.get_item(RegisterItem::BC), 0x1234);
}

#[test]
fn can_step_now_accepts_a_decodable_program_and_leaves_the_processor_alone() {
    let mut cpu = step_cpu(&[0x3E, 0x41, 0x3C]);
    assert!(cpu.can_step_now());
    assert_eq!(cpu.Registers.get_item(RegisterItem::PC), 0x200);
    assert_eq!(cpu.clock, 0);
    assert_eq!(cpu.step(), (8, 8));
    assert!(cpu.can_step_now());
}

#[test]
fn can_step_now_refuses_an_opcode_missing_from_the_table() {
    let mut cpu = step_cpu(&[0x01, 0x00, 0x00]);
    assert!(!cpu.can_step_now());
}

#[test]
fn can_step_now_refuses_a_pc_past_the_rom() {
    let mut cpu = step_cpu(&[]);
    cpu.Registers.set_item(RegisterItem::PC, 0x300);
    assert!(!cpu.can_step_now());
}

#[test]
fn the_clock_wraps_round_at_its_top() {
    let mut cpu = step_cpu(&[0x00]);
    cpu.clock = u32::MAX - 2;
    assert!(cpu.can_step_now());
    assert_eq!(cpu.step(), (1, 4));
}

#[test]
fn can_step_now_accepts_a_halted_processor() {
    let mut cpu = step_cpu(&[0x01]);
    cpu.is_halted = true;
    assert!(cpu.can_step_now());
}

#[test]
fn can_perform_memory_operations_needs_a_readable_byte() {
    let mut cpu = step_cpu(&[0x00]);
    let (_, ins) = cpu.MMU.decode(0x200);
    cpu.Registers.set_item(RegisterItem::HL, 0xC000);
    assert!(cpu.can_perform(Op::DecHlPointer, &ins));
    cpu.MMU.write_byte(0xC000, 5);
    assert!(cpu.can_perform(Op::DecHlPointer, &ins));
    cpu.Registers.set_item(RegisterItem::HL, 0x300);
    assert!(!cpu.can_perform(Op::DecHlPointer, &ins));
    cpu.Registers.set_item(RegisterItem::HL, 0x300);
    assert!(!cpu.can_perform(Op::AndAHl, &ins));
    assert!(!cpu.can_perform(Op::AddAN, &ins));
}

#[test]
fn run_slice_runs_one_instruction_and_counts_its_cycles() {
    let mut cpu = step_cpu(&[0x00, 0x00]);
    assert_eq!(cpu.run_slice(0), Slice::Ran { cycles_delta: 4, frame_due: false });
    assert_eq!(cpu.Registers.get_item(RegisterItem::PC), 0x201);
    assert_eq!(cpu.MMU.PPU.clock, 4);
    assert_eq!(cpu.run_slice(CYCLES_PER_FRAME - 1), Slice::Ran { cycles_delta: 3, frame_due: true });
}

#[test]
fn run_slice_stops_where_the_instruction_cannot_run() {
    let mut cpu = step_cpu(&[0x01]);
    assert_eq!(cpu.run_slice(10), Slice::CannotStep);
    assert_eq!(cpu.Registers.get_item(RegisterItem::PC), 0x200);
    assert_eq!(cpu.clock, 0);
}

#[test]
fn run_slice_requests_vblank_when_the_ppu_enters_it() {
    let mut cpu = step_cpu(&[0x00]);
    cpu.MMU.PPU.current_line = 142;
    cpu.MMU.PPU.clock = 200;
    cpu.MMU.PPU.lcd_status = 0;
    let flags_before = cpu.MMU.interrupt_flag;
    assert_eq!(cpu.run_slice(0), Slice::Ran { cycles_delta: 4, frame_due: false });
    assert_eq!(cpu.MMU.interrupt_flag, flags_before | 0x01);
}

#[test]
fn keys_quit_dump_log_and_toggle_the_tile_set() {
    let mut cpu = step_cpu(&[0x00]);
    assert_eq!(cpu.handle_key(HostKey::Escape, KeyState::Press), LoopAction::Quit);
    assert_eq!(cpu.handle_key(HostKey::D, KeyState::Press), LoopAction::Dump);
    assert_eq!(cpu.handle_key(HostKey::L, KeyState::Press), LoopAction::Continue);
    assert!(cpu.logging);
    assert_eq!(cpu.handle_key(HostKey::L, KeyState::Press), LoopAction::Continue);
    assert!(!cpu.logging);
    assert_eq!(cpu.handle_key(HostKey::T, KeyState::Press), LoopAction::Continue);
    assert_eq!(cpu.MMU.read_byte(0xFF40), 0x91);
    assert_eq!(cpu.handle_key(HostKey::T, KeyState::Press), LoopAction::Continue);
    assert_eq!(cpu.MMU.read_byte(0xFF40), 0x81);
    assert_eq!(cpu.handle_key(HostKey::Escape, KeyState::Release), LoopAction::Continue);
    assert_eq!(cpu.handle_key(HostKey::Other, KeyState::Press), LoopAction::Continue);
}

#[test]
fn joypad_keys_are_held_and_request_their_interrupt() {
    let mut cpu = step_cpu(&[0x00]);
    cpu.MMU.gamepad.write(0x20);
    let flags_before = cpu.MMU.interrupt_flag;
    assert_eq!(cpu.handle_key(HostKey::Pad(GamepadKey::Z), KeyState::Press), LoopAction::Continue);
    assert_eq!(cpu.MMU.interrupt_flag, flags_before | 0x10);
    assert_eq!(cpu.MMU.gamepad.read(), 0b1110);
    assert!(cpu.MMU.gamepad.is_well_formed());
    assert_eq!(cpu.handle_key(HostKey::Pad(GamepadKey::Z), KeyState::Release), LoopAction::Continue);
    assert_eq!(cpu.MMU.gamepad.read(), 0xF);
}

#[test]
fn pacing_waits_out_the_rest_of_the_frame() {
    assert_eq!(pacing_sleep(1000), 15670);
    assert_eq!(pacing_sleep(16670), 0);
    assert_eq!(pacing_sleep(20000), 0);
}

#[test]
fn decrementing_a_zero_byte_at_hl_wraps_to_ff() {
    let mut cpu = step_cpu(&[0x00]);
    cpu.Registers.set_item(RegisterItem::HL, 0xC000);
    cpu.dec_hl_pointer();
    assert_eq!(cpu.MMU.read_byte(0xC000), 0xFF);
    assert_eq!(cpu.Registers.get_item(RegisterItem::FlagZ), 0);
    assert_eq!(cpu.Registers.get_item(RegisterItem::FlagN), 1);
    assert_eq!(cpu.Registers.get_item(RegisterItem::FlagH), 1);
}

#[test]
fn processor_text_shows_clock_registers_and_flags() {
    let mut cpu = step_cpu(&[0x00]);
    cpu.clock = 1234;
    cpu.Registers.set_item(RegisterItem::HL, 0xC0FE);
    cpu.Registers.set_item(RegisterItem::FlagC, 1);
    assert_eq!(
        cpu.Registers.to_text(),
        "REGISTERS - AF : 0x0010 BC : 0x0000 DE : 0x0000 HL : 0xC0FE PC : 0x0200 SP : 1111111111111110\nFLAGS - z:0 n:0 h:0 c:1"
    );
    assert_eq!(
        cpu.to_text(),
        format!("clock : 1234 - Registers : {}", cpu.Registers.to_text())
    );
}
