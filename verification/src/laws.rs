//! Laws of the machine: what holds of every state and every instruction,
//! proved over the model.

use crate::instruction::{spec_decode, Instruction};
use crate::machine::{
    flag_of, wrap16, Machine, DISPLAY_HEIGHT, DISPLAY_WIDTH, FLAG, KEY_COUNT, MEMORY_SIZE,
    REGISTER_COUNT,
};
use vstd::prelude::*;

verus! {

/// A newly built machine and a reset machine are well formed, with an empty
/// call stack.
pub proof fn lemma_initial_states_wf()
    ensures
        Machine::blank().wf(),
        Machine::reset_state().wf(),
        Machine::blank().sp == 0,
        Machine::reset_state().sp == 0,
{
}

/// Loading a program and setting a key keep a state well formed, and change
/// nothing but the memory and the keypad respectively.
pub proof fn lemma_load_and_keys_keep_wf(m: Machine, program: Seq<u8>, key: int, pressed: bool)
    requires
        m.wf(),
    ensures
        m.load(program).wf(),
        m.set_key(key, pressed).wf(),
        m.load(program) == (Machine { memory: m.load(program).memory, ..m }),
        m.set_key(key, pressed) == (Machine { keypad: m.set_key(key, pressed).keypad, ..m }),
{
}

/// Executing an instruction that does not fault keeps the state well formed.
/// In particular the stack pointer never exceeds sixteen.
pub proof fn lemma_step_keeps_wf(m: Machine, ins: Instruction, random: u8)
    requires
        m.wf(),
        !m.faults(ins),
    ensures
        m.step(ins, random).wf(),
{
}

/// A cycle that can run keeps the state well formed.
pub proof fn lemma_cycle_keeps_wf(m: Machine, random: u8)
    requires
        m.wf(),
        m.can_cycle(),
    ensures
        m.cycle(random).wf(),
{
    lemma_step_keeps_wf(m.advance(), spec_decode(m.fetch()), random);
}

/// What an instruction leaves alone. No instruction writes the keypad; only
/// clear-screen and draw write the display; only store-BCD and
/// store-registers write memory; only call and return touch the call stack;
/// only the two timer-setting instructions write a timer; and only the three
/// instructions that load or add to the index register write it.
pub proof fn lemma_step_frame(m: Machine, ins: Instruction, random: u8)
    requires
        m.sized(),
        ins.registers_in_range(),
    ensures
        m.step(ins, random).keypad == m.keypad,
        !(ins is ClearScreen || ins is Draw) ==> m.step(ins, random).display == m.display,
        !(ins is StoreBcd || ins is StoreRegs) ==> m.step(ins, random).memory == m.memory,
        !(ins is Call || ins is Return) ==> m.step(ins, random).stack == m.stack && m.step(
            ins,
            random,
        ).sp == m.sp,
        !(ins is SetDelay) ==> m.step(ins, random).delay_timer == m.delay_timer,
        !(ins is SetSound) ==> m.step(ins, random).sound_timer == m.sound_timer,
        !(ins is LoadIndex || ins is AddIndex || ins is LoadGlyph) ==> m.step(ins, random).i
            == m.i,
{
}

/// A call followed by a return comes back to where the call was made from,
/// with the stack as deep as before.
pub proof fn lemma_call_then_return(m: Machine, addr: u16)
    requires
        m.wf(),
        m.sp < 16,
    ensures
        !m.call(addr).faults(Instruction::Return),
        m.call(addr).subroutine_return().pc == m.pc,
        m.call(addr).subroutine_return().sp == m.sp,
        m.call(addr).pc == addr,
{
}

/// An unrecognized instruction can always be executed and changes nothing. A
/// cycle that meets one only moves the program counter on and counts the
/// timers down.
pub proof fn lemma_unknown_has_no_effect(m: Machine, random: u8)
    ensures
        !m.faults(Instruction::Unknown),
        m.step(Instruction::Unknown, random) == m,
        spec_decode(m.fetch()) is Unknown ==> m.cycle(random) == m.advance().tick(),
{
}

/// Only the random instruction looks at the value drawn: every other
/// instruction has the same outcome whatever that value is.
pub proof fn lemma_only_random_is_random(m: Machine, ins: Instruction, first: u8, second: u8)
    requires
        !(ins is Random),
    ensures
        m.step(ins, first) == m.step(ins, second),
{
}

/// The random instruction leaves in `Vx` a value in which every bit that is
/// clear in the mask is clear, and changes nothing else.
pub proof fn lemma_random_is_masked(m: Machine, x: int, byte: u8, random: u8)
    requires
        m.sized(),
        0 <= x < REGISTER_COUNT,
    ensures
        m.randomize(x, byte, random).v[x] & !byte == 0,
        m.randomize(x, byte, random).v[x] <= byte,
        m.randomize(x, byte, random) == (Machine { v: m.randomize(x, byte, random).v, ..m }),
        forall|k: int|
            0 <= k < REGISTER_COUNT && k != x ==> m.randomize(x, byte, random).v[k] == m.v[k],
{
    assert((random & byte) & !byte == 0) by (bit_vector);
    assert(random & byte <= byte) by (bit_vector);
}

/// Each timer that is nonzero after the instruction of a cycle has run is
/// counted down by one at the end of the cycle; a timer at zero stays at zero.
/// An instruction other than the two that set a timer leaves both alone, so
/// over such a cycle each timer drops by one or stays at zero.
pub proof fn lemma_cycle_counts_timers_down(m: Machine, random: u8)
    requires
        m.sized(),
    ensures
        m.tick().delay_timer == if m.delay_timer > 0 { m.delay_timer - 1 } else { 0 },
        m.tick().sound_timer == if m.sound_timer > 0 { m.sound_timer - 1 } else { 0 },
        !(spec_decode(m.fetch()) is SetDelay) ==> m.cycle(random).delay_timer
            == m.tick().delay_timer,
        !(spec_decode(m.fetch()) is SetSound) ==> m.cycle(random).sound_timer
            == m.tick().sound_timer,
{
}

/// A cycle keeps the program counter even, as long as the program keeps to
/// even addresses: the program counter is even to begin with, and where the
/// instruction jumps, calls or returns, the address it goes to is even.
pub proof fn lemma_cycle_keeps_pc_even(m: Machine, random: u8)
    requires
        m.sized(),
        m.pc % 2 == 0,
        m.can_cycle(),
        spec_decode(m.fetch()) matches Instruction::Jump { addr } ==> addr % 2 == 0,
        spec_decode(m.fetch()) matches Instruction::Call { addr } ==> addr % 2 == 0,
        spec_decode(m.fetch()) matches Instruction::JumpOffset { addr } ==> (addr + m.v[0]) % 2
            == 0,
        spec_decode(m.fetch()) is Return ==> m.stack[m.sp - 1] % 2 == 0,
    ensures
        m.cycle(random).pc % 2 == 0,
{
}

/// Add with carry: the flag register ends as 1 exactly if the sum of the two
/// registers is 256 or more, and `Vx`, unless it is the flag register itself,
/// ends as the sum modulo 256. No other register changes.
pub proof fn lemma_add_carry(m: Machine, x: int, y: int)
    requires
        m.sized(),
        0 <= x < REGISTER_COUNT,
        0 <= y < REGISTER_COUNT,
    ensures
        m.add_registers(x, y).v[FLAG as int] == flag_of(m.v[x] + m.v[y] >= 256),
        x != FLAG ==> m.add_registers(x, y).v[x] == (m.v[x] + m.v[y]) % 256,
        forall|k: int|
            0 <= k < REGISTER_COUNT && k != x && k != FLAG ==> m.add_registers(x, y).v[k] == m.v[k],
{
}

/// Subtract with borrow: the flag register ends as 1 exactly if `Vx >= Vy`
/// (no borrow), and `Vx`, unless it is the flag register itself, ends as the
/// difference modulo 256. No other register changes.
pub proof fn lemma_sub_borrow(m: Machine, x: int, y: int)
    requires
        m.sized(),
        0 <= x < REGISTER_COUNT,
        0 <= y < REGISTER_COUNT,
    ensures
        m.sub_registers(x, y).v[FLAG as int] == flag_of(m.v[x] >= m.v[y]),
        x != FLAG ==> m.sub_registers(x, y).v[x] == (m.v[x] - m.v[y]) % 256,
        forall|k: int|
            0 <= k < REGISTER_COUNT && k != x && k != FLAG ==> m.sub_registers(x, y).v[k] == m.v[k],
{
}

/// Reverse subtract: the flag register ends as 1 exactly if `Vy >= Vx`, and
/// `Vx`, unless it is the flag register itself, ends as `Vy - Vx` modulo 256.
pub proof fn lemma_subn_borrow(m: Machine, x: int, y: int)
    requires
        m.sized(),
        0 <= x < REGISTER_COUNT,
        0 <= y < REGISTER_COUNT,
    ensures
        m.subn_registers(x, y).v[FLAG as int] == flag_of(m.v[y] >= m.v[x]),
        x != FLAG ==> m.subn_registers(x, y).v[x] == (m.v[y] - m.v[x]) % 256,
        forall|k: int|
            0 <= k < REGISTER_COUNT && k != x && k != FLAG ==> m.subn_registers(x, y).v[k]
                == m.v[k],
{
}

/// Shifts: the flag register always ends as the bit that was shifted out, the
/// lowest bit for a right shift and the highest for a left shift, whatever
/// `Vx` ends as; and `Vx`, unless it is the flag register itself, ends as the
/// shifted value.
pub proof fn lemma_shift_flag(m: Machine, x: int)
    requires
        m.sized(),
        0 <= x < REGISTER_COUNT,
    ensures
        m.shift_right(x).v[FLAG as int] == m.v[x] % 2,
        m.shift_left(x).v[FLAG as int] == m.v[x] / 128,
        x != FLAG ==> m.shift_right(x).v[x] == m.v[x] / 2,
        x != FLAG ==> m.shift_left(x).v[x] == (m.v[x] * 2) % 256,
{
}

/// After an instruction that defines the flag, the flag register holds 0 or
/// 1: nothing of its earlier value is left.
pub proof fn lemma_flag_is_a_bit(m: Machine, ins: Instruction, random: u8)
    requires
        m.sized(),
        ins.registers_in_range(),
        ins is AddReg || ins is SubReg || ins is SubnReg || ins is ShiftRight || ins is ShiftLeft
            || ins is Draw,
    ensures
        m.step(ins, random).v[FLAG as int] == 0 || m.step(ins, random).v[FLAG as int] == 1,
{
}

/// Store-BCD writes the hundreds, tens and ones digit of `Vx` to `I`, `I+1`
/// and `I+2`. The three cells then hold digits that make up the value again,
/// and no other cell changes.
pub proof fn lemma_store_bcd_digits(m: Machine, x: int)
    requires
        m.sized(),
        0 <= x < REGISTER_COUNT,
        m.i + 2 < MEMORY_SIZE,
    ensures
        m.store_bcd(x).memory[m.i as int] == m.v[x] / 100,
        m.store_bcd(x).memory[m.i + 1] == (m.v[x] / 10) % 10,
        m.store_bcd(x).memory[m.i + 2] == m.v[x] % 10,
        100 * m.store_bcd(x).memory[m.i as int] + 10 * m.store_bcd(x).memory[m.i + 1]
            + m.store_bcd(x).memory[m.i + 2] == m.v[x],
        forall|a: int|
            0 <= a < MEMORY_SIZE && !(m.i <= a <= m.i + 2) ==> m.store_bcd(x).memory[a]
                == m.memory[a],
{
}

/// Store-registers followed by load-registers with the same `x` and `I`
/// brings back the registers as they were.
pub proof fn lemma_store_then_load_registers(m: Machine, x: int)
    requires
        m.sized(),
        0 <= x < REGISTER_COUNT,
        m.i + x < MEMORY_SIZE,
    ensures
        forall|k: int| 0 <= k <= x ==> m.store_registers(x).memory[m.i + k] == m.v[k],
        m.store_registers(x).load_registers(x).v == m.v,
{
    assert(m.store_registers(x).load_registers(x).v =~= m.v);
}

/// Whether drawing the sprite at (`x0`, `y0`) turns on a pixel that is off.
pub open spec fn sprite_lights(m: Machine, x0: int, y0: int, n: int) -> bool {
    exists|r: int, c: int|
        0 <= r < DISPLAY_HEIGHT && 0 <= c < DISPLAY_WIDTH && !m.display[r][c]
            && #[trigger] m.sprite_pixel(x0, y0, n, r, c)
}

/// Drawing the same sprite twice at the same position brings the display back
/// to what it was. The second draw reports a collision exactly if the first
/// one turned a pixel on. (The position is the same whenever neither `x` nor
/// `y` names the flag register, which the first draw overwrites.)
pub proof fn lemma_draw_twice_restores(m: Machine, x: int, y: int, n: int)
    requires
        m.sized(),
        0 <= x < REGISTER_COUNT,
        0 <= y < REGISTER_COUNT,
        m.draw(x, y, n).v[x] % 64 == m.v[x] % 64,
        m.draw(x, y, n).v[y] % 32 == m.v[y] % 32,
    ensures
        m.draw(x, y, n).draw(x, y, n).display == m.display,
        m.draw(x, y, n).draw(x, y, n).v[FLAG as int] == flag_of(
            sprite_lights(m, m.v[x] as int % 64, m.v[y] as int % 32, n),
        ),
{
    let x0 = m.v[x] as int % 64;
    let y0 = m.v[y] as int % 32;
    let once = m.draw(x, y, n);
    let twice = once.draw(x, y, n);
    assert forall|r: int, c: int| #![trigger once.sprite_pixel(x0, y0, n, r, c)]
        once.sprite_pixel(x0, y0, n, r, c) == m.sprite_pixel(x0, y0, n, r, c) by {}
    assert(twice.display =~~= m.display);
}

/// The position of a draw is untouched by the draw itself when neither
/// operand is the flag register, so two such draws in a row hit the same
/// pixels.
pub proof fn lemma_draw_keeps_position(m: Machine, x: int, y: int, n: int)
    requires
        m.sized(),
        0 <= x < REGISTER_COUNT,
        0 <= y < REGISTER_COUNT,
        x != FLAG,
        y != FLAG,
    ensures
        m.draw(x, y, n).v[x] == m.v[x],
        m.draw(x, y, n).v[y] == m.v[y],
        m.draw(x, y, n).memory == m.memory,
        m.draw(x, y, n).i == m.i,
{
}

/// What falls beyond the right or the bottom edge of the display is cut off:
/// a draw changes no pixel outside the sprite's rectangle, so nothing wraps
/// round to the left or the top.
pub proof fn lemma_draw_clips(m: Machine, x: int, y: int, n: int, r: int, c: int)
    requires
        m.sized(),
        0 <= x < REGISTER_COUNT,
        0 <= y < REGISTER_COUNT,
        0 <= r < DISPLAY_HEIGHT,
        0 <= c < DISPLAY_WIDTH,
        r < m.v[y] % 32 || r >= m.v[y] % 32 + n || c < m.v[x] % 64 || c >= m.v[x] % 64 + 8,
    ensures
        m.draw(x, y, n).display[r][c] == m.display[r][c],
{
}

/// The two key tests can always be executed, whatever byte `Vx` holds: the
/// key they test is the one that the low four bits of `Vx` name, which is
/// always on the keypad. They change nothing but the program counter, which
/// moves past one more instruction exactly if that key is pressed (for the
/// one) or not pressed (for the other).
pub proof fn lemma_key_tests_are_total(m: Machine, x: u8, random: u8)
    requires
        m.sized(),
        x < REGISTER_COUNT,
    ensures
        !m.faults(Instruction::SkipKey { x }),
        !m.faults(Instruction::SkipNoKey { x }),
        0 <= m.key_named(x as int) < KEY_COUNT,
        m.key_named(x as int) == m.v[x as int] % 16,
        m.step(Instruction::SkipKey { x }, random) == (Machine {
            pc: if m.keypad[m.v[x as int] as int % 16] {
                wrap16(m.pc + 2)
            } else {
                m.pc
            },
            ..m
        }),
        m.step(Instruction::SkipNoKey { x }, random) == (Machine {
            pc: if m.keypad[m.v[x as int] as int % 16] {
                m.pc
            } else {
                wrap16(m.pc + 2)
            },
            ..m
        }),
{
}

/// Waiting for a key while none is pressed leaves the program counter, over a
/// whole cycle, where it was, and leaves the registers unchanged; the timers
/// still count down. With a key pressed, the lowest pressed key's index goes
/// to `Vx` and the program counter moves on.
pub proof fn lemma_wait_key_cycle(m: Machine, x: u8, random: u8)
    requires
        m.sized(),
        m.pc + 1 < MEMORY_SIZE,
        spec_decode(m.fetch()) == (Instruction::WaitKey { x }),
    ensures
        (forall|k: int| 0 <= k < KEY_COUNT ==> !m.keypad[k]) ==> m.cycle(random) == (Machine {
            pc: m.pc,
            ..m.tick()
        }),
        forall|key: int|
            0 <= key < KEY_COUNT && m.keypad[key] && (forall|k: int| 0 <= k < key ==> !m.keypad[k])
                ==> m.cycle(random) == (Machine {
                pc: (m.pc + 2) as u16,
                v: m.v.update(x as int, key as u8),
                ..m.tick()
            }),
{
    m.keypad.index_of_first_ensures(true);
    assert forall|key: int|
        0 <= key < KEY_COUNT && m.keypad[key] && (forall|k: int|
            0 <= k < key ==> !m.keypad[k]) implies m.keypad.index_of_first(true) == Some(key) by {
        assert(m.keypad.contains(true));
    }
}

} // verus!
