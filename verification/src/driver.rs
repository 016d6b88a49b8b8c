//! One turn of the driving loop: the machine runs a cycle, and the adapters
//! are brought up to date with it. The host performs what a turn asks for
//! (sounding the bell, showing the frame, stopping) and paces the turns.

use crate::cpu::Cpu;
use crate::display::{rendered, Display, FRAME_BYTES};
use crate::input::Input;
use crate::machine::{Machine, KEY_COUNT};
use crate::sound::Sound;
use vstd::prelude::*;

verus! {

/// The display adapter is refreshed on every tenth cycle.
pub const REFRESH_INTERVAL: u32 = 10;

/// The frame is shown on every five-hundredth cycle.
pub const REPORT_INTERVAL: u32 = 500;

/// The run ends after this many cycles.
pub const CYCLE_LIMIT: u32 = 10000;

/// What the host has to do after a turn.
#[derive(Clone, Copy, Debug, PartialEq, Eq, Structural)]
pub struct Turn {
    /// Sound the bell: the tone has just been switched on.
    pub ring: bool,
    /// Show the frame and the number of cycles run.
    pub report: bool,
    /// Stop: the cycle limit is reached.
    pub finished: bool,
}

/// What a turn amounts to when `random` is the value that the cycle drew.
/// `cycles` counts the cycles run before this turn. The machine runs one
/// cycle; the display adapter takes the new frame if this is a tenth cycle;
/// the sound adapter follows the new sound timer; the machine's keypad becomes
/// the input adapter's snapshot.
pub open spec fn turn_result(
    before: Machine,
    random: u8,
    keys: Seq<bool>,
    pixels: Seq<u8>,
    playing: bool,
    cycles: u32,
    after: Machine,
    after_pixels: Seq<u8>,
    after_playing: bool,
    turn: Turn,
) -> bool {
    let ran = before.cycle(random);
    &&& after == (Machine { keypad: keys, ..ran })
    &&& after_pixels == if (cycles + 1) % REFRESH_INTERVAL as int == 0 {
        rendered(ran.display, pixels)
    } else {
        pixels
    }
    &&& after_playing == (ran.sound_timer > 0)
    &&& turn.ring == (ran.sound_timer > 0 && !playing)
    &&& turn.report == ((cycles + 1) % REPORT_INTERVAL as int == 0)
    &&& turn.finished == (cycles + 1 >= CYCLE_LIMIT)
}

/// Copies the input adapter's snapshot of the keys into the machine.
pub fn sync_keys(cpu: &mut Cpu, input: &Input)
    ensures
        final(cpu)@ == (Machine { keypad: input@, ..old(cpu)@ }),
{
    proof {
        input.lemma_view_len();
        cpu.lemma_view_sized();
    }
    let mut key: u8 = 0;
    while key < 16
        invariant
            key <= KEY_COUNT,
            input@.len() == KEY_COUNT,
            cpu@.keypad.len() == KEY_COUNT,
            cpu@ == (Machine { keypad: cpu@.keypad, ..old(cpu)@ }),
            forall|k: int| 0 <= k < key ==> cpu@.keypad[k] == input@[k],
        decreases KEY_COUNT - key,
    {
        let pressed = input.is_key_pressed(key);
        cpu.set_key(key, pressed);
        key += 1;
    }
}

/// Runs one turn. The machine must be able to run a cycle, the cycle count
/// must be able to grow, and on a turn that refreshes the display adapter its
/// buffer must hold a frame.
pub fn run_turn(
    cpu: &mut Cpu,
    display: &mut Display,
    input: &Input,
    sound: &mut Sound,
    cycles: u32,
) -> (turn: Turn)
    requires
        old(cpu)@.can_cycle(),
        cycles < u32::MAX,
        (cycles + 1) % REFRESH_INTERVAL as int == 0 ==> old(display).pixels.len() >= FRAME_BYTES,
    ensures
        final(display).width == old(display).width,
        final(display).height == old(display).height,
        exists|random: u8| #[trigger]
            turn_result(
                old(cpu)@,
                random,
                input@,
                old(display).pixels@,
                old(sound)@,
                cycles,
                final(cpu)@,
                final(display).pixels@,
                final(sound)@,
                turn,
            ),
{
    cpu.cycle();
    let ghost ran = cpu@;
    let ghost random = choose|random: u8| ran == #[trigger] old(cpu)@.cycle(random);
    let count: u32 = cycles + 1;
    if count % REFRESH_INTERVAL == 0 {
        display.update_from_chip8(cpu.get_display());
    }
    let ring = sound.update(cpu.get_sound_timer());
    sync_keys(cpu, input);
    let turn = Turn { ring, report: count % REPORT_INTERVAL == 0, finished: count >= CYCLE_LIMIT };
    assert(turn_result(
        old(cpu)@,
        random,
        input@,
        old(display).pixels@,
        old(sound)@,
        cycles,
        cpu@,
        display.pixels@,
        sound@,
        turn,
    ));
    turn
}

} // verus!
