use chip8::cpu::{Cpu, CpuError, ErrorKind, HaltState, MEMORY_SIZE, START_PC};
use chip8::decode::Instruction;
use chip8::fonts::{FONTSET, FONTSET_SIZE};
use chip8::keypad::translate;

#[test]
fn initial_state_is_zero_but_for_font_and_pc() {
    let cpu = Cpu::new();
    assert_eq!(cpu.ram[..FONTSET_SIZE], FONTSET);
    assert!(cpu.ram[FONTSET_SIZE..].iter().all(|b| *b == 0));
    assert_eq!(cpu.v, [0; 16]);
    assert_eq!(cpu.i, 0);
    assert_eq!(cpu.dt, 0);
    assert_eq!(cpu.st, 0);
    assert_eq!(cpu.timer_counter, 0);
    assert_eq!(cpu.cycles_per_tick, 8);
    assert_eq!(cpu.keys, [false; 16]);
    assert_eq!(cpu.halt, HaltState::Running);
    assert!(cpu.is_well_formed());
}

#[test]
fn font_glyphs_are_the_standard_ones() {
    assert_eq!(FONTSET[5..10], [0x20, 0x60, 0x20, 0x20, 0x70]);
    assert_eq!(FONTSET[50..55], [0xF0, 0x90, 0xF0, 0x90, 0x90]);
}

#[test]
fn loaded_program_reads_back() {
    let mut cpu = Cpu::new();
    let rom: Vec<u8> = (0..300u32).map(|k| (k * 7 % 251) as u8).collect();
    assert_eq!(cpu.load_rom(rom.clone()), Ok(()));
    assert_eq!(cpu.ram[START_PC..START_PC + rom.len()], rom[..]);
    assert_eq!(cpu.ram[..FONTSET_SIZE], FONTSET);
    assert!(cpu.ram[START_PC + rom.len()..].iter().all(|b| *b == 0));
    assert_eq!(cpu.pc, 0x200);
}

#[test]
fn load_keeps_registers_and_timers() {
    let mut cpu = Cpu::new();
    cpu.v[3] = 9;
    cpu.dt = 4;
    cpu.st = 5;
    cpu.i = 0x321;
    assert_eq!(cpu.load_rom(vec![0x12, 0x00]), Ok(()));
    assert_eq!(cpu.v[3], 9);
    assert_eq!(cpu.dt, 4);
    assert_eq!(cpu.st, 5);
    assert_eq!(cpu.i, 0x321);
    assert_eq!(cpu.ram[0x200..0x202], [0x12, 0x00]);
}

#[test]
fn largest_program_fills_memory() {
    let mut cpu = Cpu::new();
    let rom = vec![0xABu8; MEMORY_SIZE - START_PC];
    assert_eq!(cpu.load_rom(rom), Ok(()));
    assert_eq!(cpu.ram[0x200], 0xAB);
    assert_eq!(cpu.ram[0xFFF], 0xAB);
    assert_eq!(cpu.ram[0x1FF], 0);
}

#[test]
fn oversized_program_is_refused() {
    let mut cpu = Cpu::new();
    let before = cpu.ram;
    let rom = vec![0xABu8; MEMORY_SIZE - START_PC + 1];
    assert_eq!(cpu.load_rom(rom), Err(CpuError(ErrorKind::ProgramTooLarge)));
    assert_eq!(cpu.ram, before);
}

#[test]
fn empty_program_changes_nothing() {
    let mut cpu = Cpu::new();
    let before = cpu.ram;
    assert_eq!(cpu.load_rom(Vec::new()), Ok(()));
    assert_eq!(cpu.ram, before);
}

#[test]
fn call_then_return_comes_back_behind_the_call() {
    let mut cpu = Cpu::new();
    cpu.pc = 0x2A0;
    assert_eq!(cpu.run_opcode(0x2456), Ok(()));
    assert_eq!(cpu.pc, 0x456);
    assert_eq!(cpu.sp, 1);
    assert_eq!(cpu.run_opcode(0x00EE), Ok(()));
    assert_eq!(cpu.pc, 0x2A2);
    assert_eq!(cpu.sp, 0);
}

#[test]
fn seventeenth_call_overflows_the_stack() {
    let mut cpu = Cpu::new();
    for depth in 0..16 {
        assert_eq!(cpu.sp, depth);
        assert_eq!(cpu.run_opcode(0x2300), Ok(()));
    }
    assert_eq!(cpu.sp, 16);
    let stack = cpu.stack;
    assert_eq!(cpu.run_opcode(0x2400), Err(CpuError(ErrorKind::StackOverflow)));
    assert_eq!(cpu.sp, 16);
    assert_eq!(cpu.stack, stack);
    assert_eq!(cpu.pc, 0x302);
}

#[test]
fn return_without_call_underflows_the_stack() {
    let mut cpu = Cpu::new();
    assert_eq!(cpu.run_opcode(0x00EE), Err(CpuError(ErrorKind::StackUnderflow)));
    assert_eq!(cpu.sp, 0);
    assert_eq!(cpu.pc, 0x202);
}

#[test]
fn skip_if_equal_moves_by_four_or_two() {
    let mut cpu = Cpu::new();
    cpu.pc = 0x280;
    cpu.v[2] = 0x33;
    assert_eq!(cpu.run_opcode(0x3233), Ok(()));
    assert_eq!(cpu.pc, 0x284);
    assert_eq!(cpu.run_opcode(0x3234), Ok(()));
    assert_eq!(cpu.pc, 0x286);
}

#[test]
fn skip_if_registers_differ() {
    let mut cpu = Cpu::new();
    cpu.v[1] = 1;
    cpu.v[2] = 2;
    assert_eq!(cpu.run_opcode(0x9120), Ok(()));
    assert_eq!(cpu.pc, 0x204);
    cpu.v[2] = 1;
    assert_eq!(cpu.run_opcode(0x9120), Ok(()));
    assert_eq!(cpu.pc, 0x206);
}

#[test]
fn skip_on_key_state() {
    let mut cpu = Cpu::new();
    cpu.v[1] = 0x3A;
    cpu.key_pressed(0xA);
    assert_eq!(cpu.run_opcode(0xE19E), Ok(()));
    assert_eq!(cpu.pc, 0x204);
    assert_eq!(cpu.run_opcode(0xE1A1), Ok(()));
    assert_eq!(cpu.pc, 0x206);
    cpu.key_released(0xA);
    assert_eq!(cpu.run_opcode(0xE19E), Ok(()));
    assert_eq!(cpu.pc, 0x208);
    assert_eq!(cpu.run_opcode(0xE1A1), Ok(()));
    assert_eq!(cpu.pc, 0x20C);
}

#[test]
fn unknown_opcodes_are_reported_and_passed_over() {
    let words: [u16; 9] = [0x0000, 0x00E1, 0x8128, 0x812F, 0xB123, 0xC1FF, 0xE19F, 0xF118, 0xF129];
    for word in words {
        let mut cpu = Cpu::new();
        cpu.v = [1, 2, 3, 4, 5, 6, 7, 8, 9, 10, 11, 12, 13, 14, 15, 16];
        cpu.i = 0x234;
        assert_eq!(cpu.run_opcode(word), Err(CpuError(ErrorKind::UnknownOpcode(word))));
        assert_eq!(cpu.pc, 0x202);
        assert_eq!(cpu.v, [1, 2, 3, 4, 5, 6, 7, 8, 9, 10, 11, 12, 13, 14, 15, 16]);
        assert_eq!(cpu.i, 0x234);
        assert_eq!(cpu.sp, 0);
        assert_eq!(cpu.ram, Cpu::new().ram);
        assert_eq!(cpu.halt, HaltState::Running);
    }
}

#[test]
fn unknown_opcode_in_a_cycle() {
    let mut cpu = Cpu::new();
    assert_eq!(cpu.load_rom(vec![0xF1, 0x18, 0x61, 0x07]), Ok(()));
    assert_eq!(cpu.emulate_cycle(), Err(CpuError(ErrorKind::UnknownOpcode(0xF118))));
    assert_eq!(cpu.pc, 0x202);
    assert_eq!(cpu.timer_counter, 1);
    assert_eq!(cpu.emulate_cycle(), Ok(()));
    assert_eq!(cpu.v[1], 7);
    assert_eq!(cpu.pc, 0x204);
}

#[test]
fn register_beyond_vf_is_refused() {
    let mut cpu = Cpu::new();
    let ins = Instruction { word: 0x6012, family: 6, x: 16, y: 0, n: 2, nn: 0x12, nnn: 0x012 };
    assert_eq!(cpu.execute(ins), Err(CpuError(ErrorKind::InvalidRegisterIndex)));
    assert_eq!(cpu.pc, 0x200);
    assert_eq!(cpu.v, [0; 16]);
    let ins = Instruction { word: 0x8010, family: 8, x: 0, y: 99, n: 0, nn: 0x10, nnn: 0x010 };
    assert_eq!(cpu.execute(ins), Err(CpuError(ErrorKind::InvalidRegisterIndex)));
    assert_eq!(cpu.pc, 0x200);
}

#[test]
fn program_counter_at_the_end_of_memory_is_refused() {
    let mut cpu = Cpu::new();
    cpu.pc = 0xFFF;
    assert_eq!(cpu.run_opcode(0x6112), Err(CpuError(ErrorKind::AddressOutOfBounds)));
    assert_eq!(cpu.pc, 0xFFF);
    assert_eq!(cpu.v[1], 0);
    assert_eq!(cpu.emulate_cycle(), Err(CpuError(ErrorKind::AddressOutOfBounds)));
    assert_eq!(cpu.pc, 0xFFF);
    assert_eq!(cpu.timer_counter, 1);

    cpu.pc = 0xFFE;
    cpu.ram[0xFFE] = 0x61;
    cpu.ram[0xFFF] = 0x12;
    assert_eq!(cpu.emulate_cycle(), Ok(()));
    assert_eq!(cpu.v[1], 0x12);
    assert_eq!(cpu.pc, 0x1000);
}

#[test]
fn timers_tick_once_in_n_cycles() {
    let mut cpu = Cpu::with_timer_ratio(5);
    // 1200: jump to 0x200, forever
    assert_eq!(cpu.load_rom(vec![0x12, 0x00]), Ok(()));
    cpu.dt = 3;
    cpu.st = 1;
    for _ in 0..4 {
        assert_eq!(cpu.emulate_cycle(), Ok(()));
        assert_eq!(cpu.dt, 3);
        assert_eq!(cpu.st, 1);
    }
    assert_eq!(cpu.emulate_cycle(), Ok(()));
    assert_eq!(cpu.dt, 2);
    assert_eq!(cpu.st, 0);
    assert_eq!(cpu.timer_counter, 0);
    for _ in 0..5 {
        assert_eq!(cpu.emulate_cycle(), Ok(()));
    }
    assert_eq!(cpu.dt, 1);
    assert_eq!(cpu.st, 0);
}

#[test]
fn default_ratio_is_eight_cycles() {
    let mut cpu = Cpu::new();
    assert_eq!(cpu.load_rom(vec![0x12, 0x00]), Ok(()));
    cpu.dt = 10;
    for _ in 0..7 {
        assert_eq!(cpu.emulate_cycle(), Ok(()));
    }
    assert_eq!(cpu.dt, 10);
    assert_eq!(cpu.emulate_cycle(), Ok(()));
    assert_eq!(cpu.dt, 9);
}

#[test]
fn ratio_of_zero_ticks_every_cycle() {
    let mut cpu = Cpu::with_timer_ratio(0);
    assert_eq!(cpu.load_rom(vec![0x12, 0x00]), Ok(()));
    cpu.dt = 2;
    assert_eq!(cpu.emulate_cycle(), Ok(()));
    assert_eq!(cpu.dt, 1);
    assert_eq!(cpu.emulate_cycle(), Ok(()));
    assert_eq!(cpu.dt, 0);
    assert_eq!(cpu.emulate_cycle(), Ok(()));
    assert_eq!(cpu.dt, 0);
}

#[test]
fn key_wait_holds_until_a_key_is_pressed() {
    let mut cpu = Cpu::with_timer_ratio(2);
    // F30A: wait for a key into V3; 6455: V4 = 0x55
    assert_eq!(cpu.load_rom(vec![0xF3, 0x0A, 0x64, 0x55]), Ok(()));
    cpu.v[3] = 0x99;
    cpu.dt = 2;
    assert_eq!(cpu.emulate_cycle(), Ok(()));
    assert_eq!(cpu.halt, HaltState::WaitingForKey(3));
    assert_eq!(cpu.pc, 0x202);
    for _ in 0..10 {
        assert_eq!(cpu.emulate_cycle(), Ok(()));
        assert_eq!(cpu.pc, 0x202);
        assert_eq!(cpu.v[3], 0x99);
        assert_eq!(cpu.v[4], 0);
    }
    assert_eq!(cpu.dt, 0);
    cpu.key_pressed(0xB);
    assert_eq!(cpu.v[3], 0xB);
    assert_eq!(cpu.halt, HaltState::Running);
    assert!(cpu.keys[0xB]);
    assert_eq!(cpu.emulate_cycle(), Ok(()));
    assert_eq!(cpu.v[4], 0x55);
    assert_eq!(cpu.pc, 0x204);
}

#[test]
fn key_release_ends_a_wait_without_a_key() {
    let mut cpu = Cpu::new();
    assert_eq!(cpu.run_opcode(0xF30A), Ok(()));
    assert_eq!(cpu.halt, HaltState::WaitingForKey(3));
    cpu.keys[4] = true;
    cpu.key_released(4);
    assert_eq!(cpu.halt, HaltState::Running);
    assert_eq!(cpu.v[3], 0);
    assert!(!cpu.keys[4]);
}

#[test]
fn keys_outside_the_pad_are_ignored() {
    let mut cpu = Cpu::new();
    assert_eq!(cpu.run_opcode(0xF30A), Ok(()));
    for key in [-1, 16, 255, i32::MAX, i32::MIN] {
        cpu.key_pressed(key);
        assert_eq!(cpu.keys, [false; 16]);
        assert_eq!(cpu.halt, HaltState::WaitingForKey(3));
        cpu.key_released(key);
        assert_eq!(cpu.halt, HaltState::WaitingForKey(3));
    }
    assert_eq!(cpu.v, [0; 16]);
}

#[test]
fn key_press_while_running_only_marks_the_key() {
    let mut cpu = Cpu::new();
    cpu.key_pressed(0);
    cpu.key_pressed(15);
    let mut expected = [false; 16];
    expected[0] = true;
    expected[15] = true;
    assert_eq!(cpu.keys, expected);
    assert_eq!(cpu.v, [0; 16]);
    cpu.key_released(0);
    expected[0] = false;
    assert_eq!(cpu.keys, expected);
}

#[test]
fn well_formedness_is_tested() {
    let mut cpu = Cpu::new();
    assert!(cpu.is_well_formed());
    cpu.sp = 17;
    assert!(!cpu.is_well_formed());
    cpu.sp = 16;
    assert!(cpu.is_well_formed());
    cpu.halt = HaltState::WaitingForKey(16);
    assert!(!cpu.is_well_formed());
    cpu.halt = HaltState::WaitingForKey(15);
    assert!(cpu.is_well_formed());
    cpu.timer_counter = 8;
    assert!(!cpu.is_well_formed());
    cpu.timer_counter = 7;
    assert!(cpu.is_well_formed());
}

#[test]
fn scancodes_map_to_the_pad() {
    let rows: [(i32, [u8; 4]); 4] = [
        (2, [0x1, 0x2, 0x3, 0xC]),
        (16, [0x4, 0x5, 0x6, 0xD]),
        (30, [0x7, 0x8, 0x9, 0xE]),
        (44, [0xA, 0x0, 0xB, 0xF]),
    ];
    for (first, keys) in rows {
        for (k, key) in keys.iter().enumerate() {
            assert_eq!(translate(first + k as i32), Some(*key));
        }
        assert_eq!(translate(first - 1), None);
        assert_eq!(translate(first + 4), None);
    }
    assert_eq!(translate(0), None);
    assert_eq!(translate(-12), None);
    assert_eq!(translate(58), None);
    assert_eq!(translate(i32::MIN), None);
}
