//! The mathematical model of the virtual machine: its state as sequences and
//! integers, and the effect of every instruction as a function from state to
//! state. The executable core is specified against this model.

use crate::instruction::{spec_decode, Instruction};
use vstd::prelude::*;

verus! {

/// Number of addressable memory cells.
pub const MEMORY_SIZE: usize = 4096;

/// Number of general-purpose registers.
pub const REGISTER_COUNT: usize = 16;

/// Capacity of the call stack.
pub const STACK_SIZE: usize = 16;

/// Number of keys on the keypad.
pub const KEY_COUNT: usize = 16;

/// Columns of the display.
pub const DISPLAY_WIDTH: usize = 64;

/// Rows of the display.
pub const DISPLAY_HEIGHT: usize = 32;

/// Address at which programs are loaded and execution starts.
pub const PROGRAM_START: u16 = 0x200;

/// Address of the first byte of the glyph table.
pub const GLYPH_START: u16 = 0x050;

/// Bytes per glyph.
pub const GLYPH_HEIGHT: u16 = 5;

/// Bytes in the glyph table.
pub const GLYPH_TABLE_SIZE: usize = 80;

/// Index of the flag register.
pub const FLAG: usize = 0xF;

/// The built-in font: sixteen glyphs of five rows each, for the hexadecimal
/// digits `0` to `F` in order.
pub open spec fn glyph_table() -> Seq<u8> {
    seq![
        0xF0u8, 0x90u8, 0x90u8, 0x90u8, 0xF0u8,
        0x20u8, 0x60u8, 0x20u8, 0x20u8, 0x70u8,
        0xF0u8, 0x10u8, 0xF0u8, 0x80u8, 0xF0u8,
        0xF0u8, 0x10u8, 0xF0u8, 0x10u8, 0xF0u8,
        0x90u8, 0x90u8, 0xF0u8, 0x10u8, 0x10u8,
        0xF0u8, 0x80u8, 0xF0u8, 0x10u8, 0xF0u8,
        0xF0u8, 0x80u8, 0xF0u8, 0x90u8, 0xF0u8,
        0xF0u8, 0x10u8, 0x20u8, 0x40u8, 0x40u8,
        0xF0u8, 0x90u8, 0xF0u8, 0x90u8, 0xF0u8,
        0xF0u8, 0x90u8, 0xF0u8, 0x10u8, 0xF0u8,
        0xF0u8, 0x90u8, 0xF0u8, 0x90u8, 0x90u8,
        0xE0u8, 0x90u8, 0xE0u8, 0x90u8, 0xE0u8,
        0xF0u8, 0x80u8, 0x80u8, 0x80u8, 0xF0u8,
        0xE0u8, 0x90u8, 0x90u8, 0x90u8, 0xE0u8,
        0xF0u8, 0x80u8, 0xF0u8, 0x80u8, 0xF0u8,
        0xF0u8, 0x80u8, 0xF0u8, 0x80u8, 0x80u8,
    ]
}

/// `n` reduced to eight bits.
pub open spec fn wrap8(n: int) -> u8 {
    (n % 0x100) as u8
}

/// `n` reduced to sixteen bits.
pub open spec fn wrap16(n: int) -> u16 {
    (n % 0x1_0000) as u16
}

/// The flag value for a condition: 1 if it holds, 0 if not.
pub open spec fn flag_of(condition: bool) -> u8 {
    if condition {
        1
    } else {
        0
    }
}

/// Whether the pixel in `column` (0 is the leftmost, the most significant bit)
/// of a sprite row is set.
pub open spec fn sprite_bit(row: u8, column: u8) -> bool {
    (row >> ((7 - column) as u8)) & 1 == 1
}

/// How many rows of an `n`-row sprite whose top row is `y0` lie on the
/// display: the rows below the bottom edge are cut off.
pub open spec fn visible_rows(y0: int, n: int) -> int {
    if n <= DISPLAY_HEIGHT - y0 {
        n
    } else {
        DISPLAY_HEIGHT - y0
    }
}

/// A display with every pixel off.
pub open spec fn blank_display() -> Seq<Seq<bool>> {
    Seq::new(DISPLAY_HEIGHT as nat, |r: int| Seq::new(DISPLAY_WIDTH as nat, |c: int| false))
}

/// A pixel grid as rows of columns: `grid_view(g)[r][c]` is the pixel in row
/// `r`, column `c`.
pub open spec fn grid_view(grid: [[bool; DISPLAY_WIDTH]; DISPLAY_HEIGHT]) -> Seq<Seq<bool>> {
    Seq::new(DISPLAY_HEIGHT as nat, |r: int| grid[r]@)
}

/// The state of the machine.
#[verifier::ext_equal]
pub struct Machine {
    /// The 4096 memory cells.
    pub memory: Seq<u8>,
    /// The registers `V0` to `VF`.
    pub v: Seq<u8>,
    /// The index register `I`.
    pub i: u16,
    /// The program counter.
    pub pc: u16,
    /// The sixteen slots of the call stack.
    pub stack: Seq<u16>,
    /// The number of return addresses on the stack.
    pub sp: u8,
    /// The delay timer.
    pub delay_timer: u8,
    /// The sound timer.
    pub sound_timer: u8,
    /// The display, as 32 rows of 64 pixels.
    pub display: Seq<Seq<bool>>,
    /// Which of the sixteen keys are held down.
    pub keypad: Seq<bool>,
}

impl Machine {
    /// Every component has its fixed size.
    pub open spec fn sized(self) -> bool {
        &&& self.memory.len() == MEMORY_SIZE
        &&& self.v.len() == REGISTER_COUNT
        &&& self.stack.len() == STACK_SIZE
        &&& self.keypad.len() == KEY_COUNT
        &&& self.display.len() == DISPLAY_HEIGHT
        &&& forall|r: int|
            0 <= r < DISPLAY_HEIGHT ==> (#[trigger] self.display[r]).len() == DISPLAY_WIDTH
    }

    /// The state is well formed: every component has its size and the stack
    /// holds at most sixteen return addresses.
    pub open spec fn wf(self) -> bool {
        &&& self.sized()
        &&& self.sp <= STACK_SIZE
    }

    /// The state of a newly built machine: everything zero, the program
    /// counter at the program start.
    pub open spec fn blank() -> Machine {
        Machine {
            memory: Seq::new(MEMORY_SIZE as nat, |a: int| 0u8),
            v: Seq::new(REGISTER_COUNT as nat, |k: int| 0u8),
            i: 0,
            pc: PROGRAM_START,
            stack: Seq::new(STACK_SIZE as nat, |k: int| 0u16),
            sp: 0,
            delay_timer: 0,
            sound_timer: 0,
            display: blank_display(),
            keypad: Seq::new(KEY_COUNT as nat, |k: int| false),
        }
    }

    /// The state after a reset: as a newly built machine, with the glyph table
    /// installed at its address.
    pub open spec fn reset_state() -> Machine {
        Machine {
            memory: Seq::new(
                MEMORY_SIZE as nat,
                |a: int|
                    if GLYPH_START <= a < GLYPH_START + GLYPH_TABLE_SIZE {
                        glyph_table()[a - GLYPH_START]
                    } else {
                        0u8
                    },
            ),
            ..Machine::blank()
        }
    }

    /// The state with `program` copied to memory from the program start on;
    /// bytes that would land beyond the end of memory are dropped.
    pub open spec fn load(self, program: Seq<u8>) -> Machine {
        Machine {
            memory: Seq::new(
                MEMORY_SIZE as nat,
                |a: int|
                    if PROGRAM_START <= a < PROGRAM_START + program.len() {
                        program[a - PROGRAM_START]
                    } else {
                        self.memory[a]
                    },
            ),
            ..self
        }
    }

    /// The state with key `key` set to `pressed`; a key index outside the
    /// keypad is ignored.
    pub open spec fn set_key(self, key: int, pressed: bool) -> Machine {
        if 0 <= key < KEY_COUNT {
            Machine { keypad: self.keypad.update(key, pressed), ..self }
        } else {
            self
        }
    }

    /// The instruction word at the program counter, most significant byte
    /// first.
    pub open spec fn fetch(self) -> u16 {
        (self.memory[self.pc as int] * 0x100 + self.memory[self.pc + 1]) as u16
    }

    /// The state with the program counter moved past one instruction.
    pub open spec fn advance(self) -> Machine {
        Machine { pc: wrap16(self.pc + 2), ..self }
    }

    /// The state with register `x` set to `value`.
    pub open spec fn set_register(self, x: int, value: u8) -> Machine {
        Machine { v: self.v.update(x, value), ..self }
    }

    /// The state with the flag register set to 1 if `condition` holds and to 0
    /// if not.
    pub open spec fn set_flag(self, condition: bool) -> Machine {
        self.set_register(FLAG as int, flag_of(condition))
    }

    /// The state with the next instruction skipped if `condition` holds.
    pub open spec fn skip_if(self, condition: bool) -> Machine {
        if condition {
            self.advance()
        } else {
            self
        }
    }

    /// Clear-screen.
    pub open spec fn clear_screen(self) -> Machine {
        Machine { display: blank_display(), ..self }
    }

    /// Return: pops the most recent return address into the program counter.
    pub open spec fn subroutine_return(self) -> Machine {
        Machine { sp: (self.sp - 1) as u8, pc: self.stack[self.sp - 1], ..self }
    }

    /// Jump.
    pub open spec fn jump(self, addr: u16) -> Machine {
        Machine { pc: addr, ..self }
    }

    /// Call: pushes the program counter and jumps.
    pub open spec fn call(self, addr: u16) -> Machine {
        Machine {
            stack: self.stack.update(self.sp as int, self.pc),
            sp: (self.sp + 1) as u8,
            pc: addr,
            ..self
        }
    }

    /// Add an immediate to a register; the flag register is not written.
    pub open spec fn add_byte(self, x: int, byte: u8) -> Machine {
        self.set_register(x, wrap8(self.v[x] + byte))
    }

    /// Bitwise OR of two registers.
    pub open spec fn or_registers(self, x: int, y: int) -> Machine {
        self.set_register(x, self.v[x] | self.v[y])
    }

    /// Bitwise AND of two registers.
    pub open spec fn and_registers(self, x: int, y: int) -> Machine {
        self.set_register(x, self.v[x] & self.v[y])
    }

    /// Bitwise XOR of two registers.
    pub open spec fn xor_registers(self, x: int, y: int) -> Machine {
        self.set_register(x, self.v[x] ^ self.v[y])
    }

    /// Add with carry: `Vx` becomes the sum modulo 256, then the flag register
    /// becomes 1 if the sum did not fit in eight bits and 0 if it did.
    pub open spec fn add_registers(self, x: int, y: int) -> Machine {
        self.set_register(x, wrap8(self.v[x] + self.v[y])).set_flag(self.v[x] + self.v[y] >= 0x100)
    }

    /// Subtract with borrow: `Vx` becomes `Vx - Vy` modulo 256, then the flag
    /// register becomes 1 if no borrow occurred and 0 if one did.
    pub open spec fn sub_registers(self, x: int, y: int) -> Machine {
        self.set_register(x, wrap8(self.v[x] - self.v[y])).set_flag(self.v[x] >= self.v[y])
    }

    /// Reverse subtract: `Vx` becomes `Vy - Vx` modulo 256, then the flag
    /// register becomes 1 if no borrow occurred and 0 if one did.
    pub open spec fn subn_registers(self, x: int, y: int) -> Machine {
        self.set_register(x, wrap8(self.v[y] - self.v[x])).set_flag(self.v[y] >= self.v[x])
    }

    /// Shift right by one: `Vx` is halved, then the flag register becomes the
    /// bit that was shifted out.
    pub open spec fn shift_right(self, x: int) -> Machine {
        self.set_register(x, (self.v[x] / 2) as u8).set_flag(self.v[x] % 2 == 1)
    }

    /// Shift left by one: `Vx` is doubled modulo 256, then the flag register
    /// becomes the bit that was shifted out.
    pub open spec fn shift_left(self, x: int) -> Machine {
        self.set_register(x, wrap8(self.v[x] * 2)).set_flag(self.v[x] >= 0x80)
    }

    /// Load the index register.
    pub open spec fn load_index(self, addr: u16) -> Machine {
        Machine { i: addr, ..self }
    }

    /// Jump to `addr + V0`.
    pub open spec fn jump_offset(self, addr: u16) -> Machine {
        Machine { pc: wrap16(addr + self.v[0]), ..self }
    }

    /// Random: `Vx` becomes the drawn value `random` masked with `byte`.
    pub open spec fn randomize(self, x: int, byte: u8, random: u8) -> Machine {
        self.set_register(x, random & byte)
    }

    /// Whether the sprite of `n` rows stored at `I`, drawn with its top left
    /// corner at (`x0`, `y0`), has a set pixel at row `r`, column `c`.
    pub open spec fn sprite_pixel(self, x0: int, y0: int, n: int, r: int, c: int) -> bool {
        &&& y0 <= r < y0 + n
        &&& x0 <= c < x0 + 8
        &&& sprite_bit(self.memory[self.i + (r - y0)], (c - x0) as u8)
    }

    /// Whether drawing that sprite hits a pixel of the display that is on.
    pub open spec fn sprite_collides(self, x0: int, y0: int, n: int) -> bool {
        exists|r: int, c: int|
            0 <= r < DISPLAY_HEIGHT && 0 <= c < DISPLAY_WIDTH && self.display[r][c]
                && #[trigger] self.sprite_pixel(x0, y0, n, r, c)
    }

    /// Draw: the sprite of `n` rows stored at `I` is XORed onto the display
    /// with its top left corner at (`Vx mod 64`, `Vy mod 32`). What falls
    /// beyond the right or the bottom edge is cut off. The flag register
    /// becomes 1 if a pixel that was on has been hit, and 0 if none has.
    pub open spec fn draw(self, x: int, y: int, n: int) -> Machine {
        let x0 = self.v[x] as int % DISPLAY_WIDTH as int;
        let y0 = self.v[y] as int % DISPLAY_HEIGHT as int;
        Machine {
            display: Seq::new(
                DISPLAY_HEIGHT as nat,
                |r: int|
                    Seq::new(
                        DISPLAY_WIDTH as nat,
                        |c: int| self.display[r][c] != self.sprite_pixel(x0, y0, n, r, c),
                    ),
            ),
            ..self.set_flag(self.sprite_collides(x0, y0, n))
        }
    }

    /// The key that `Vx` names. A register holds any byte and the keypad has
    /// sixteen keys: the key is the low four bits of `Vx`, that is, `Vx`
    /// modulo 16.
    pub open spec fn key_named(self, x: int) -> int {
        self.v[x] as int % KEY_COUNT as int
    }

    /// Whether the key that `Vx` names is held down.
    pub open spec fn key_down(self, x: int) -> bool {
        self.keypad[self.key_named(x)]
    }

    /// Wait for a key: the lowest pressed key's index goes to `Vx`; while no
    /// key is pressed, the program counter steps back so that the same
    /// instruction is fetched again.
    pub open spec fn wait_key(self, x: int) -> Machine {
        match self.keypad.index_of_first(true) {
            Some(key) => self.set_register(x, key as u8),
            None => Machine { pc: wrap16(self.pc - 2), ..self },
        }
    }

    /// Set the delay timer from `Vx`.
    pub open spec fn set_delay(self, x: int) -> Machine {
        Machine { delay_timer: self.v[x], ..self }
    }

    /// Set the sound timer from `Vx`.
    pub open spec fn set_sound(self, x: int) -> Machine {
        Machine { sound_timer: self.v[x], ..self }
    }

    /// `I += Vx`, a 16-bit addition; the flag register is not written.
    pub open spec fn add_index(self, x: int) -> Machine {
        Machine { i: wrap16(self.i + self.v[x]), ..self }
    }

    /// `I` becomes the address of the glyph for the value in `Vx`.
    pub open spec fn load_glyph(self, x: int) -> Machine {
        Machine { i: (GLYPH_START + self.v[x] * GLYPH_HEIGHT) as u16, ..self }
    }

    /// Store the hundreds, tens and ones digit of `Vx` at `I`, `I+1`, `I+2`.
    pub open spec fn store_bcd(self, x: int) -> Machine {
        let value = self.v[x] as int;
        let at = self.i as int;
        Machine {
            memory: self.memory.update(at, (value / 100) as u8).update(
                at + 1,
                ((value / 10) % 10) as u8,
            ).update(at + 2, (value % 10) as u8),
            ..self
        }
    }

    /// Store `V0..=Vx` in memory from `I` on.
    pub open spec fn store_registers(self, x: int) -> Machine {
        Machine {
            memory: Seq::new(
                MEMORY_SIZE as nat,
                |a: int|
                    if self.i <= a <= self.i + x {
                        self.v[a - self.i]
                    } else {
                        self.memory[a]
                    },
            ),
            ..self
        }
    }

    /// Load `V0..=Vx` from memory from `I` on.
    pub open spec fn load_registers(self, x: int) -> Machine {
        Machine {
            v: Seq::new(
                REGISTER_COUNT as nat,
                |k: int|
                    if k <= x {
                        self.memory[self.i + k]
                    } else {
                        self.v[k]
                    },
            ),
            ..self
        }
    }

    /// The state after executing `ins`. `random` is the value drawn for the
    /// random instruction; no other instruction looks at it.
    pub open spec fn step(self, ins: Instruction, random: u8) -> Machine {
        match ins {
            Instruction::ClearScreen => self.clear_screen(),
            Instruction::Return => self.subroutine_return(),
            Instruction::Jump { addr } => self.jump(addr),
            Instruction::Call { addr } => self.call(addr),
            Instruction::SkipEqByte { x, byte } => self.skip_if(self.v[x as int] == byte),
            Instruction::SkipNeByte { x, byte } => self.skip_if(self.v[x as int] != byte),
            Instruction::SkipEqReg { x, y } => self.skip_if(self.v[x as int] == self.v[y as int]),
            Instruction::LoadByte { x, byte } => self.set_register(x as int, byte),
            Instruction::AddByte { x, byte } => self.add_byte(x as int, byte),
            Instruction::LoadReg { x, y } => self.set_register(x as int, self.v[y as int]),
            Instruction::Or { x, y } => self.or_registers(x as int, y as int),
            Instruction::And { x, y } => self.and_registers(x as int, y as int),
            Instruction::Xor { x, y } => self.xor_registers(x as int, y as int),
            Instruction::AddReg { x, y } => self.add_registers(x as int, y as int),
            Instruction::SubReg { x, y } => self.sub_registers(x as int, y as int),
            Instruction::ShiftRight { x } => self.shift_right(x as int),
            Instruction::SubnReg { x, y } => self.subn_registers(x as int, y as int),
            Instruction::ShiftLeft { x } => self.shift_left(x as int),
            Instruction::SkipNeReg { x, y } => self.skip_if(self.v[x as int] != self.v[y as int]),
            Instruction::LoadIndex { addr } => self.load_index(addr),
            Instruction::JumpOffset { addr } => self.jump_offset(addr),
            Instruction::Random { x, byte } => self.randomize(x as int, byte, random),
            Instruction::Draw { x, y, n } => self.draw(x as int, y as int, n as int),
            Instruction::SkipKey { x } => self.skip_if(self.key_down(x as int)),
            Instruction::SkipNoKey { x } => self.skip_if(!self.key_down(x as int)),
            Instruction::LoadDelay { x } => self.set_register(x as int, self.delay_timer),
            Instruction::WaitKey { x } => self.wait_key(x as int),
            Instruction::SetDelay { x } => self.set_delay(x as int),
            Instruction::SetSound { x } => self.set_sound(x as int),
            Instruction::AddIndex { x } => self.add_index(x as int),
            Instruction::LoadGlyph { x } => self.load_glyph(x as int),
            Instruction::StoreBcd { x } => self.store_bcd(x as int),
            Instruction::StoreRegs { x } => self.store_registers(x as int),
            Instruction::LoadRegs { x } => self.load_registers(x as int),
            Instruction::Unknown => self,
        }
    }

    /// Whether executing `ins` in this state would reach outside the register
    /// file, the memory or the call stack. The machine has no defined
    /// behaviour for such an instruction: it must not be executed.
    pub open spec fn faults(self, ins: Instruction) -> bool {
        ||| !ins.registers_in_range()
        ||| match ins {
            Instruction::Return => self.sp == 0 || self.sp > STACK_SIZE,
            Instruction::Call { .. } => self.sp >= STACK_SIZE,
            Instruction::Draw { y, n, .. } => {
                let rows = visible_rows(self.v[y as int] as int % DISPLAY_HEIGHT as int, n as int);
                rows > 0 && self.i + rows > MEMORY_SIZE
            },
            Instruction::StoreBcd { .. } => self.i + 2 >= MEMORY_SIZE,
            Instruction::StoreRegs { x } | Instruction::LoadRegs { x } => self.i + x
                >= MEMORY_SIZE,
            _ => false,
        }
    }

    /// The state with both timers counted down by one, unless already zero.
    pub open spec fn tick(self) -> Machine {
        Machine {
            delay_timer: if self.delay_timer > 0 {
                (self.delay_timer - 1) as u8
            } else {
                0
            },
            sound_timer: if self.sound_timer > 0 {
                (self.sound_timer - 1) as u8
            } else {
                0
            },
            ..self
        }
    }

    /// Whether a whole cycle can run: both bytes of the instruction word lie
    /// in memory, and the instruction found there does not fault.
    pub open spec fn can_cycle(self) -> bool {
        &&& self.pc + 1 < MEMORY_SIZE
        &&& !self.advance().faults(spec_decode(self.fetch()))
    }

    /// The state after one cycle: fetch, advance the program counter, execute,
    /// count the timers down.
    pub open spec fn cycle(self, random: u8) -> Machine {
        self.advance().step(spec_decode(self.fetch()), random).tick()
    }
}

} // verus!
