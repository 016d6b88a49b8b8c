use chip8::cpu::Cpu;
use chip8::display::Display;
use chip8::driver::{run_turn, sync_keys, Turn};
use chip8::input::Input;
use chip8::sound::Sound;

#[test]
fn sync_keys_copies_the_snapshot() {
    let mut cpu = Cpu::new();
    cpu.reset();
    cpu.set_key(1, true);
    let mut input = Input::new();
    input.set_key(7, true);
    sync_keys(&mut cpu, &input);
    // Key 7 is pressed and key 1 is released in the machine now.
    cpu.execute(0x6007);
    cpu.execute(0xE09E);
    assert_eq!(cpu.get_pc(), 0x202);
    cpu.execute(0x6001);
    cpu.execute(0xE09E);
    assert_eq!(cpu.get_pc(), 0x202);
    assert_eq!(cpu.get_index(), 0);
}

#[test]
fn turn_runs_a_cycle_and_counts() {
    let mut cpu = Cpu::new();
    cpu.reset();
    cpu.load_rom(&[0x60, 0x2A, 0x12, 0x02]);
    let mut display = Display::new(64, 32);
    let input = Input::new();
    let mut sound = Sound::new();
    assert!(cpu.can_cycle());
    let turn = run_turn(&mut cpu, &mut display, &input, &mut sound, 0);
    assert_eq!(turn, Turn { ring: false, report: false, finished: false });
    assert_eq!(cpu.get_registers()[0], 0x2A);
    assert_eq!(cpu.get_pc(), 0x202);
    let turn = run_turn(&mut cpu, &mut display, &input, &mut sound, 498);
    assert_eq!(turn, Turn { ring: false, report: false, finished: false });
    let turn = run_turn(&mut cpu, &mut display, &input, &mut sound, 499);
    assert_eq!(turn, Turn { ring: false, report: true, finished: false });
    let turn = run_turn(&mut cpu, &mut display, &input, &mut sound, 9998);
    assert_eq!(turn, Turn { ring: false, report: false, finished: false });
    let turn = run_turn(&mut cpu, &mut display, &input, &mut sound, 9999);
    assert_eq!(turn, Turn { ring: false, report: true, finished: true });
}

#[test]
fn turn_refreshes_the_display_every_tenth_cycle() {
    let mut cpu = Cpu::new();
    cpu.reset();
    // Draw the glyph for 0 at (0, 0), then loop.
    cpu.load_rom(&[0xA0, 0x50, 0xD0, 0x05, 0x12, 0x04]);
    let mut display = Display::new(64, 32);
    let input = Input::new();
    let mut sound = Sound::new();
    let mut count: u32 = 0;
    while count < 9 {
        assert!(cpu.can_cycle());
        run_turn(&mut cpu, &mut display, &input, &mut sound, count);
        count += 1;
        assert!(display.pixels.iter().all(|&b| b == 0));
    }
    assert!(cpu.can_cycle());
    run_turn(&mut cpu, &mut display, &input, &mut sound, count);
    assert_eq!(&display.pixels[0..12], &[255u8; 12][..]);
    assert_eq!(&display.pixels[12..15], &[0, 0, 0]);
    assert_eq!(display.pixels.iter().filter(|&&b| b == 255).count(), 14 * 3);
}

#[test]
fn turn_rings_when_the_tone_starts() {
    let mut cpu = Cpu::new();
    cpu.reset();
    // Sound timer = 3, then loop.
    cpu.load_rom(&[0x60, 0x03, 0xF0, 0x18, 0x12, 0x04]);
    let mut display = Display::new(64, 32);
    let input = Input::new();
    let mut sound = Sound::new();
    let mut rings: Vec<bool> = Vec::new();
    let mut playing: Vec<bool> = Vec::new();
    let mut count: u32 = 0;
    while count < 6 {
        assert!(cpu.can_cycle());
        let turn = run_turn(&mut cpu, &mut display, &input, &mut sound, count);
        rings.push(turn.ring);
        playing.push(sound.is_playing());
        count += 1;
    }
    // The timer is set to 3 in the second cycle and counted down to 2 in it.
    assert_eq!(rings, vec![false, true, false, false, false, false]);
    assert_eq!(playing, vec![false, true, true, false, false, false]);
}

#[test]
fn turn_hands_the_keys_to_the_machine() {
    let mut cpu = Cpu::new();
    cpu.reset();
    cpu.load_rom(&[0xF5, 0x0A, 0x12, 0x02]);
    let mut display = Display::new(64, 32);
    let mut input = Input::new();
    let mut sound = Sound::new();
    assert!(cpu.can_cycle());
    run_turn(&mut cpu, &mut display, &input, &mut sound, 0);
    assert_eq!(cpu.get_pc(), 0x200);
    input.set_key(0xB, true);
    // The key is seen by the cycle after the turn that copied it.
    assert!(cpu.can_cycle());
    run_turn(&mut cpu, &mut display, &input, &mut sound, 1);
    assert_eq!(cpu.get_pc(), 0x200);
    assert!(cpu.can_cycle());
    run_turn(&mut cpu, &mut display, &input, &mut sound, 2);
    assert_eq!(cpu.get_pc(), 0x202);
    assert_eq!(cpu.get_registers()[5], 0xB);
}
