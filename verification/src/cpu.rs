//! The interpreter core: the machine's state in arrays and integers, and the
//! fetch-decode-execute cycle over it.
//!
//! Every function says what it does to the machine in terms of the model in
//! [`crate::machine`]: the view of a [`Cpu`] is a [`Machine`].
//!
//! A program can ask for what the machine cannot do: return with an empty
//! call stack, nest more than sixteen calls, or read or write beyond the end
//! of memory. Such an instruction is never executed. [`Cpu::can_execute`]
//! and [`Cpu::can_cycle`] tell whether the next step is possible, and
//! [`Cpu::execute`] and [`Cpu::cycle`] demand that it is; a host that finds
//! it is not stops the run. Every other instruction can always be executed:
//! arithmetic wraps round, and a key is named by the low four bits of a
//! register.

use crate::instruction::{decode, spec_decode, Instruction};
use crate::laws::{lemma_cycle_keeps_wf, lemma_step_keeps_wf};
use crate::machine::{
    flag_of, glyph_table, grid_view, visible_rows, Machine, DISPLAY_HEIGHT, DISPLAY_WIDTH, FLAG,
    GLYPH_HEIGHT, GLYPH_START, GLYPH_TABLE_SIZE, KEY_COUNT, MEMORY_SIZE, PROGRAM_START,
    REGISTER_COUNT, STACK_SIZE,
};
use crate::rng::random_byte;
use vstd::prelude::*;

verus! {

/// The virtual machine.
pub struct Cpu {
    memory: [u8; MEMORY_SIZE],
    v: [u8; REGISTER_COUNT],
    i: u16,
    pc: u16,
    stack: [u16; STACK_SIZE],
    sp: u8,
    delay_timer: u8,
    sound_timer: u8,
    display: [[bool; DISPLAY_WIDTH]; DISPLAY_HEIGHT],
    keypad: [bool; KEY_COUNT],
    rng: rand::rngs::ThreadRng,
}

impl View for Cpu {
    type V = Machine;

    /// The state of the machine. The random generator is no part of it.
    closed spec fn view(&self) -> Machine {
        Machine {
            memory: self.memory@,
            v: self.v@,
            i: self.i,
            pc: self.pc,
            stack: self.stack@,
            sp: self.sp,
            delay_timer: self.delay_timer,
            sound_timer: self.sound_timer,
            display: grid_view(self.display),
            keypad: self.keypad@,
        }
    }
}

impl Cpu {
    /// The view of a machine always has every component at its fixed size.
    pub proof fn lemma_view_sized(&self)
        ensures
            self@.sized(),
    {
    }

    /// A machine with everything zero and the program counter at the program
    /// start. The glyph table is not installed until the first reset.
    pub fn new() -> (cpu: Cpu)
        ensures
            cpu@ == Machine::blank(),
            cpu@.wf(),
    {
        let cpu = Cpu {
            memory: [0; MEMORY_SIZE],
            v: [0; REGISTER_COUNT],
            i: 0,
            pc: PROGRAM_START,
            stack: [0; STACK_SIZE],
            sp: 0,
            delay_timer: 0,
            sound_timer: 0,
            display: [[false; DISPLAY_WIDTH]; DISPLAY_HEIGHT],
            keypad: [false; KEY_COUNT],
            rng: rand::thread_rng(),
        };
        assert(cpu@ =~~= Machine::blank());
        cpu
    }

    /// Brings every part of the state back to its initial value and installs
    /// the glyph table.
    pub fn reset(&mut self)
        ensures
            final(self)@ == Machine::reset_state(),
            final(self)@.wf(),
    {
        self.memory = [0; MEMORY_SIZE];
        let table = glyphs();
        let mut k: usize = 0;
        while k < GLYPH_TABLE_SIZE
            invariant
                k <= GLYPH_TABLE_SIZE,
                table@ == glyph_table(),
                forall|a: int|
                    0 <= a < MEMORY_SIZE ==> self.memory[a] == if GLYPH_START <= a < GLYPH_START
                        + k {
                        glyph_table()[a - GLYPH_START]
                    } else {
                        0u8
                    },
            decreases GLYPH_TABLE_SIZE - k,
        {
            self.memory[GLYPH_START as usize + k] = table[k];
            k += 1;
        }
        self.v = [0; REGISTER_COUNT];
        self.i = 0;
        self.pc = PROGRAM_START;
        self.stack = [0; STACK_SIZE];
        self.sp = 0;
        self.delay_timer = 0;
        self.sound_timer = 0;
        self.display = [[false; DISPLAY_WIDTH]; DISPLAY_HEIGHT];
        self.keypad = [false; KEY_COUNT];
        assert(self@ =~~= Machine::reset_state());
    }

    /// Copies a program into memory from the program start on. Bytes that
    /// would land beyond the end of memory are dropped. Nothing but memory
    /// changes.
    pub fn load_rom(&mut self, rom: &[u8])
        ensures
            final(self)@ == old(self)@.load(rom@),
            old(self)@.wf() ==> final(self)@.wf(),
    {
        let ghost before = self@;
        let mut k: usize = 0;
        while k < rom.len() && k < MEMORY_SIZE - PROGRAM_START as usize
            invariant
                k <= MEMORY_SIZE - PROGRAM_START,
                k <= rom.len(),
                self@ == (Machine { memory: self.memory@, ..before }),
                forall|a: int|
                    0 <= a < MEMORY_SIZE ==> self.memory[a] == if PROGRAM_START <= a
                        < PROGRAM_START + k {
                        rom[a - PROGRAM_START]
                    } else {
                        before.memory[a]
                    },
            decreases rom.len() - k,
        {
            self.memory[PROGRAM_START as usize + k] = rom[k];
            k += 1;
        }
    }

    /// The instruction word at the program counter, most significant byte
    /// first. Both of its bytes must lie in memory.
    pub fn fetch(&self) -> (word: u16)
        requires
            self@.pc + 1 < MEMORY_SIZE,
        ensures
            word == self@.fetch(),
    {
        let high_byte: u16 = self.memory[self.pc as usize] as u16;
        let low_byte: u16 = self.memory[self.pc as usize + 1] as u16;
        assert(high_byte << 8 | low_byte == high_byte * 0x100 + low_byte) by (bit_vector)
            requires
                high_byte < 0x100,
                low_byte < 0x100,
        ;
        high_byte << 8 | low_byte
    }

    /// Whether `instruction` can be executed in the present state, that is,
    /// whether it stays inside the memory and the call stack.
    pub fn can_execute(&self, instruction: u16) -> (ok: bool)
        ensures
            ok == !self@.faults(spec_decode(instruction)),
    {
        match decode(instruction) {
            Instruction::Return => 1 <= self.sp && self.sp as usize <= STACK_SIZE,
            Instruction::Call { .. } => (self.sp as usize) < STACK_SIZE,
            Instruction::Draw { y, n, .. } => {
                let y_pos: usize = self.v[y as usize] as usize % DISPLAY_HEIGHT;
                let rows: usize = if n as usize <= DISPLAY_HEIGHT - y_pos {
                    n as usize
                } else {
                    DISPLAY_HEIGHT - y_pos
                };
                rows == 0 || self.i as usize + rows <= MEMORY_SIZE
            },
            Instruction::StoreBcd { .. } => self.i as usize + 2 < MEMORY_SIZE,
            Instruction::StoreRegs { x } | Instruction::LoadRegs { x } => self.i as usize
                + (x as usize) < MEMORY_SIZE,
            _ => true,
        }
    }

    /// Executes `instruction`, with `random` standing for the value that the
    /// random instruction draws. The outcome is fully determined.
    pub fn execute_with(&mut self, instruction: u16, random: u8)
        requires
            !old(self)@.faults(spec_decode(instruction)),
        ensures
            final(self)@ == old(self)@.step(spec_decode(instruction), random),
            old(self)@.wf() ==> final(self)@.wf(),
    {
        let ins = decode(instruction);
        self.apply(ins, random);
        proof {
            if old(self)@.wf() {
                lemma_step_keeps_wf(old(self)@, ins, random);
            }
        }
    }

    /// Executes `instruction`. For the random instruction a byte is drawn
    /// from the generator, and the new state is the step for that byte,
    /// whatever it is; every other instruction has one outcome.
    pub fn execute(&mut self, instruction: u16)
        requires
            !old(self)@.faults(spec_decode(instruction)),
        ensures
            exists|random: u8|
                final(self)@ == #[trigger] old(self)@.step(spec_decode(instruction), random),
            !(spec_decode(instruction) is Random) ==> final(self)@ == old(self)@.step(
                spec_decode(instruction),
                0,
            ),
            old(self)@.wf() ==> final(self)@.wf(),
    {
        match decode(instruction) {
            Instruction::Random { x, byte } => {
                self.rnd_vx_byte(x as usize, byte);
                proof {
                    let random = choose|random: u8|
                        self@ == #[trigger] old(self)@.randomize(x as int, byte, random);
                    if old(self)@.wf() {
                        lemma_step_keeps_wf(old(self)@, spec_decode(instruction), random);
                    }
                }
            },
            ins => {
                self.apply(ins, 0);
                proof {
                    if old(self)@.wf() {
                        lemma_step_keeps_wf(old(self)@, ins, 0);
                    }
                }
            },
        }
    }

    /// Whether a cycle can run in the present state: the instruction word
    /// lies in memory and the instruction can be executed.
    pub fn can_cycle(&self) -> (ok: bool)
        ensures
            ok == self@.can_cycle(),
    {
        if self.pc as usize + 1 < MEMORY_SIZE {
            let instruction = self.fetch();
            self.can_execute(instruction)
        } else {
            false
        }
    }

    /// Runs one cycle: fetches the instruction at the program counter, moves
    /// the program counter past it, executes it, and counts both timers down
    /// by one unless they are zero.
    pub fn cycle(&mut self)
        requires
            old(self)@.can_cycle(),
        ensures
            exists|random: u8| final(self)@ == #[trigger] old(self)@.cycle(random),
            !(spec_decode(old(self)@.fetch()) is Random) ==> final(self)@ == old(self)@.cycle(0),
            old(self)@.wf() ==> final(self)@.wf(),
    {
        let instruction = self.fetch();
        self.pc = self.pc + 2;
        let ghost advanced = self@;
        self.execute(instruction);
        let ghost executed = self@;
        let ghost random = choose|random: u8|
            executed == #[trigger] advanced.step(spec_decode(instruction), random);

        if self.delay_timer > 0 {
            self.delay_timer -= 1;
        }
        if self.sound_timer > 0 {
            self.sound_timer -= 1;
        }
        proof {
            assert(self@ == old(self)@.cycle(random));
            if old(self)@.wf() {
                lemma_cycle_keeps_wf(old(self)@, random);
            }
        }
    }

    /// The display, as rows of pixels.
    pub fn get_display(&self) -> (display: &[[bool; DISPLAY_WIDTH]; DISPLAY_HEIGHT])
        ensures
            grid_view(*display) == self@.display,
    {
        &self.display
    }

    /// Records that key `key` is held down or released. A key index outside
    /// the keypad is ignored.
    pub fn set_key(&mut self, key: u8, pressed: bool)
        ensures
            final(self)@ == old(self)@.set_key(key as int, pressed),
            old(self)@.wf() ==> final(self)@.wf(),
    {
        if key < 16 {
            self.keypad[key as usize] = pressed;
        }
    }

    /// The sound timer.
    pub fn get_sound_timer(&self) -> (timer: u8)
        ensures
            timer == self@.sound_timer,
    {
        self.sound_timer
    }

    /// The delay timer.
    pub fn get_delay_timer(&self) -> (timer: u8)
        ensures
            timer == self@.delay_timer,
    {
        self.delay_timer
    }

    /// The program counter.
    pub fn get_pc(&self) -> (pc: u16)
        ensures
            pc == self@.pc,
    {
        self.pc
    }

    /// The index register.
    pub fn get_index(&self) -> (index: u16)
        ensures
            index == self@.i,
    {
        self.i
    }

    /// The number of return addresses on the call stack.
    pub fn get_stack_pointer(&self) -> (sp: u8)
        ensures
            sp == self@.sp,
    {
        self.sp
    }

    /// The registers `V0` to `VF`.
    pub fn get_registers(&self) -> (registers: &[u8; REGISTER_COUNT])
        ensures
            registers@ == self@.v,
    {
        &self.v
    }

    /// The memory.
    pub fn get_memory(&self) -> (memory: &[u8; MEMORY_SIZE])
        ensures
            memory@ == self@.memory,
    {
        &self.memory
    }
}

// The instructions, one method each. `execute` decodes a word and calls the
// method of its family; each can also be called by itself. `x` and `y` name
// registers and must be below sixteen.
impl Cpu {
    /// Performs a decoded instruction, with `random` as the value drawn for
    /// the random instruction.
    fn apply(&mut self, ins: Instruction, random: u8)
        requires
            !old(self)@.faults(ins),
        ensures
            final(self)@ == old(self)@.step(ins, random),
    {
        match ins {
            Instruction::ClearScreen => self.cls(),
            Instruction::Return => self.ret(),
            Instruction::Jump { addr } => self.jp(addr),
            Instruction::Call { addr } => self.call(addr),
            Instruction::SkipEqByte { x, byte } => self.se_vx_byte(x as usize, byte),
            Instruction::SkipNeByte { x, byte } => self.sne_vx_byte(x as usize, byte),
            Instruction::SkipEqReg { x, y } => self.se_vx_vy(x as usize, y as usize),
            Instruction::LoadByte { x, byte } => self.ld_vx_byte(x as usize, byte),
            Instruction::AddByte { x, byte } => self.add_vx_byte(x as usize, byte),
            Instruction::LoadReg { x, y } => self.ld_vx_vy(x as usize, y as usize),
            Instruction::Or { x, y } => self.or_vx_vy(x as usize, y as usize),
            Instruction::And { x, y } => self.and_vx_vy(x as usize, y as usize),
            Instruction::Xor { x, y } => self.xor_vx_vy(x as usize, y as usize),
            Instruction::AddReg { x, y } => self.add_vx_vy(x as usize, y as usize),
            Instruction::SubReg { x, y } => self.sub_vx_vy(x as usize, y as usize),
            Instruction::ShiftRight { x } => self.shr_vx(x as usize),
            Instruction::SubnReg { x, y } => self.subn_vx_vy(x as usize, y as usize),
            Instruction::ShiftLeft { x } => self.shl_vx(x as usize),
            Instruction::SkipNeReg { x, y } => self.sne_vx_vy(x as usize, y as usize),
            Instruction::LoadIndex { addr } => self.ld_i_addr(addr),
            Instruction::JumpOffset { addr } => self.jp_v0_addr(addr),
            Instruction::Random { x, byte } => self.ld_vx_rnd(x as usize, byte, random),
            Instruction::Draw { x, y, n } => self.drw_vx_vy_n(x as usize, y as usize, n),
            Instruction::SkipKey { x } => self.skp_vx(x as usize),
            Instruction::SkipNoKey { x } => self.sknp_vx(x as usize),
            Instruction::LoadDelay { x } => self.ld_vx_dt(x as usize),
            Instruction::WaitKey { x } => self.ld_vx_k(x as usize),
            Instruction::SetDelay { x } => self.ld_dt_vx(x as usize),
            Instruction::SetSound { x } => self.ld_st_vx(x as usize),
            Instruction::AddIndex { x } => self.add_i_vx(x as usize),
            Instruction::LoadGlyph { x } => self.ld_f_vx(x as usize),
            Instruction::StoreBcd { x } => self.ld_b_vx(x as usize),
            Instruction::StoreRegs { x } => self.ld_i_vx(x as usize),
            Instruction::LoadRegs { x } => self.ld_vx_i(x as usize),
            Instruction::Unknown => {},
        }
    }

    /// Clear-screen.
    pub fn cls(&mut self)
        ensures
            final(self)@ == old(self)@.clear_screen(),
    {
        self.display = [[false; DISPLAY_WIDTH]; DISPLAY_HEIGHT];
        assert(self@ =~~= old(self)@.clear_screen());
    }

    /// Return.
    pub fn ret(&mut self)
        requires
            1 <= old(self)@.sp <= STACK_SIZE,
        ensures
            final(self)@ == old(self)@.subroutine_return(),
    {
        self.sp -= 1;
        self.pc = self.stack[self.sp as usize];
    }

    /// Jump.
    pub fn jp(&mut self, addr: u16)
        ensures
            final(self)@ == old(self)@.jump(addr),
    {
        self.pc = addr;
    }

    /// Call.
    pub fn call(&mut self, addr: u16)
        requires
            old(self)@.sp < STACK_SIZE,
        ensures
            final(self)@ == old(self)@.call(addr),
    {
        self.stack[self.sp as usize] = self.pc;
        self.sp += 1;
        self.pc = addr;
    }

    /// Skip if `Vx == byte`.
    pub fn se_vx_byte(&mut self, x: usize, byte: u8)
        requires
            x < REGISTER_COUNT,
        ensures
            final(self)@ == old(self)@.skip_if(old(self)@.v[x as int] == byte),
    {
        if self.v[x] == byte {
            self.pc = self.pc.wrapping_add(2);
        }
    }

    /// Skip if `Vx != byte`.
    pub fn sne_vx_byte(&mut self, x: usize, byte: u8)
        requires
            x < REGISTER_COUNT,
        ensures
            final(self)@ == old(self)@.skip_if(old(self)@.v[x as int] != byte),
    {
        if self.v[x] != byte {
            self.pc = self.pc.wrapping_add(2);
        }
    }

    /// Skip if `Vx == Vy`.
    pub fn se_vx_vy(&mut self, x: usize, y: usize)
        requires
            x < REGISTER_COUNT,
            y < REGISTER_COUNT,
        ensures
            final(self)@ == old(self)@.skip_if(old(self)@.v[x as int] == old(self)@.v[y as int]),
    {
        if self.v[x] == self.v[y] {
            self.pc = self.pc.wrapping_add(2);
        }
    }

    /// `Vx = byte`.
    pub fn ld_vx_byte(&mut self, x: usize, byte: u8)
        requires
            x < REGISTER_COUNT,
        ensures
            final(self)@ == old(self)@.set_register(x as int, byte),
    {
        self.v[x] = byte;
    }

    /// `Vx += byte`.
    pub fn add_vx_byte(&mut self, x: usize, byte: u8)
        requires
            x < REGISTER_COUNT,
        ensures
            final(self)@ == old(self)@.add_byte(x as int, byte),
    {
        self.v[x] = self.v[x].wrapping_add(byte);
    }

    /// `Vx = Vy`.
    pub fn ld_vx_vy(&mut self, x: usize, y: usize)
        requires
            x < REGISTER_COUNT,
            y < REGISTER_COUNT,
        ensures
            final(self)@ == old(self)@.set_register(x as int, old(self)@.v[y as int]),
    {
        self.v[x] = self.v[y];
    }

    /// `Vx |= Vy`.
    pub fn or_vx_vy(&mut self, x: usize, y: usize)
        requires
            x < REGISTER_COUNT,
            y < REGISTER_COUNT,
        ensures
            final(self)@ == old(self)@.or_registers(x as int, y as int),
    {
        self.v[x] = self.v[x] | self.v[y];
    }

    /// `Vx &= Vy`.
    pub fn and_vx_vy(&mut self, x: usize, y: usize)
        requires
            x < REGISTER_COUNT,
            y < REGISTER_COUNT,
        ensures
            final(self)@ == old(self)@.and_registers(x as int, y as int),
    {
        self.v[x] = self.v[x] & self.v[y];
    }

    /// `Vx ^= Vy`.
    pub fn xor_vx_vy(&mut self, x: usize, y: usize)
        requires
            x < REGISTER_COUNT,
            y < REGISTER_COUNT,
        ensures
            final(self)@ == old(self)@.xor_registers(x as int, y as int),
    {
        self.v[x] = self.v[x] ^ self.v[y];
    }

    /// Add with carry. The flag is written after the sum, so it holds the
    /// carry even when `x` names the flag register.
    pub fn add_vx_vy(&mut self, x: usize, y: usize)
        requires
            x < REGISTER_COUNT,
            y < REGISTER_COUNT,
        ensures
            final(self)@ == old(self)@.add_registers(x as int, y as int),
            final(self)@.v[FLAG as int] == flag_of(
                old(self)@.v[x as int] + old(self)@.v[y as int] >= 0x100,
            ),
            x != FLAG ==> final(self)@.v[x as int] == (old(self)@.v[x as int]
                + old(self)@.v[y as int]) % 0x100,
    {
        let a: u8 = self.v[x];
        let b: u8 = self.v[y];
        let overflow: bool = a > 0xFF - b;
        self.v[x] = a.wrapping_add(b);
        self.v[FLAG] = if overflow { 1 } else { 0 };
    }

    /// Subtract with borrow. The flag is written after the difference.
    pub fn sub_vx_vy(&mut self, x: usize, y: usize)
        requires
            x < REGISTER_COUNT,
            y < REGISTER_COUNT,
        ensures
            final(self)@ == old(self)@.sub_registers(x as int, y as int),
            final(self)@.v[FLAG as int] == flag_of(
                old(self)@.v[x as int] >= old(self)@.v[y as int],
            ),
            x != FLAG ==> final(self)@.v[x as int] == (old(self)@.v[x as int]
                - old(self)@.v[y as int]) % 0x100,
    {
        let a: u8 = self.v[x];
        let b: u8 = self.v[y];
        let borrow: bool = a < b;
        self.v[x] = a.wrapping_sub(b);
        self.v[FLAG] = if borrow { 0 } else { 1 };
    }

    /// Shift right. The flag is written after the shift, so it holds the bit
    /// shifted out even when `x` names the flag register.
    pub fn shr_vx(&mut self, x: usize)
        requires
            x < REGISTER_COUNT,
        ensures
            final(self)@ == old(self)@.shift_right(x as int),
            final(self)@.v[FLAG as int] == old(self)@.v[x as int] % 2,
            x != FLAG ==> final(self)@.v[x as int] == old(self)@.v[x as int] / 2,
    {
        let value: u8 = self.v[x];
        let bit: u8 = value & 0x1;
        assert(value & 0x1 == value % 2) by (bit_vector);
        assert(value >> 1 == value / 2) by (bit_vector);
        self.v[x] = value >> 1;
        self.v[FLAG] = bit;
    }

    /// Reverse subtract. The flag is written after the difference.
    pub fn subn_vx_vy(&mut self, x: usize, y: usize)
        requires
            x < REGISTER_COUNT,
            y < REGISTER_COUNT,
        ensures
            final(self)@ == old(self)@.subn_registers(x as int, y as int),
            final(self)@.v[FLAG as int] == flag_of(
                old(self)@.v[y as int] >= old(self)@.v[x as int],
            ),
            x != FLAG ==> final(self)@.v[x as int] == (old(self)@.v[y as int]
                - old(self)@.v[x as int]) % 0x100,
    {
        let a: u8 = self.v[x];
        let b: u8 = self.v[y];
        let borrow: bool = b < a;
        self.v[x] = b.wrapping_sub(a);
        self.v[FLAG] = if borrow { 0 } else { 1 };
    }

    /// Shift left. The flag is written after the shift.
    pub fn shl_vx(&mut self, x: usize)
        requires
            x < REGISTER_COUNT,
        ensures
            final(self)@ == old(self)@.shift_left(x as int),
            final(self)@.v[FLAG as int] == old(self)@.v[x as int] / 0x80,
            x != FLAG ==> final(self)@.v[x as int] == (old(self)@.v[x as int] * 2) % 0x100,
    {
        let value: u8 = self.v[x];
        let bit: u8 = (value & 0x80) >> 7;
        assert((value & 0x80) >> 7 == value / 0x80) by (bit_vector);
        assert(value << 1 == (value * 2) % 0x100) by (bit_vector);
        self.v[x] = value << 1;
        self.v[FLAG] = bit;
    }

    /// Skip if `Vx != Vy`.
    pub fn sne_vx_vy(&mut self, x: usize, y: usize)
        requires
            x < REGISTER_COUNT,
            y < REGISTER_COUNT,
        ensures
            final(self)@ == old(self)@.skip_if(old(self)@.v[x as int] != old(self)@.v[y as int]),
    {
        if self.v[x] != self.v[y] {
            self.pc = self.pc.wrapping_add(2);
        }
    }

    /// `I = addr`.
    pub fn ld_i_addr(&mut self, addr: u16)
        ensures
            final(self)@ == old(self)@.load_index(addr),
    {
        self.i = addr;
    }

    /// Jump to `addr + V0`.
    pub fn jp_v0_addr(&mut self, addr: u16)
        ensures
            final(self)@ == old(self)@.jump_offset(addr),
    {
        self.pc = addr.wrapping_add(self.v[0] as u16);
    }

    /// `Vx = random & byte`, for the value `random` that was drawn.
    pub fn ld_vx_rnd(&mut self, x: usize, byte: u8, random: u8)
        requires
            x < REGISTER_COUNT,
        ensures
            final(self)@ == old(self)@.randomize(x as int, byte, random),
    {
        self.v[x] = random & byte;
    }

    /// Random: draws a byte and stores it, masked, in `Vx`. Whatever byte is
    /// drawn, the new state is the old one with `Vx` set to that byte masked
    /// with `byte`.
    pub fn rnd_vx_byte(&mut self, x: usize, byte: u8)
        requires
            x < REGISTER_COUNT,
        ensures
            exists|random: u8|
                final(self)@ == #[trigger] old(self)@.randomize(x as int, byte, random),
    {
        let random: u8 = random_byte(&mut self.rng);
        self.ld_vx_rnd(x, byte, random);
        assert(self@ == old(self)@.randomize(x as int, byte, random));
    }

    /// Draw: scans the sprite's rows from the top and each row from the left,
    /// up to the edges of the display.
    pub fn drw_vx_vy_n(&mut self, x: usize, y: usize, n: u8)
        requires
            x < REGISTER_COUNT,
            y < REGISTER_COUNT,
            !old(self)@.faults(Instruction::Draw { x: x as u8, y: y as u8, n }),
        ensures
            final(self)@ == old(self)@.draw(x as int, y as int, n as int),
    {
        let ghost before = self@;
        let x_pos: usize = self.v[x] as usize % DISPLAY_WIDTH;
        let y_pos: usize = self.v[y] as usize % DISPLAY_HEIGHT;
        let ghost x0 = x_pos as int;
        let ghost y0 = y_pos as int;

        self.v[FLAG] = 0;
        assert(self@ =~~= drawn_so_far(before, x0, y0, n as int, y0, 0));

        let mut row: usize = 0;
        while row < n as usize && y_pos + row < DISPLAY_HEIGHT
            invariant
                row <= n,
                y_pos + row <= DISPLAY_HEIGHT,
                x_pos < DISPLAY_WIDTH,
                x0 == x_pos,
                y0 == y_pos,
                visible_rows(y0, n as int) > 0 ==> before.i + visible_rows(y0, n as int)
                    <= MEMORY_SIZE,
                before.sized(),
                self@ == drawn_so_far(before, x0, y0, n as int, y0 + row, 0),
            decreases n - row,
        {
            let sprite_byte: u8 = self.memory[self.i as usize + row];
            proof {
                lemma_scan_skip(before, x0, y0, n as int, y0 + row, 0, y0 + row, x0);
            }
            let mut col: u8 = 0;
            while col < 8 && x_pos + (col as usize) < DISPLAY_WIDTH
                invariant
                    col <= 8,
                    x_pos + col <= DISPLAY_WIDTH,
                    row < n,
                    y_pos + row < DISPLAY_HEIGHT,
                    x0 == x_pos,
                    y0 == y_pos,
                    before.sized(),
                    before.i + row < MEMORY_SIZE,
                    sprite_byte == before.memory[before.i + row],
                    self@ == drawn_so_far(before, x0, y0, n as int, y0 + row, x0 + col),
                decreases 8 - col,
            {
                let ghost at_pixel = self@;
                let pixel: u8 = (sprite_byte >> (7 - col)) & 1;
                if pixel == 1 {
                    if self.display[y_pos + row][x_pos + col as usize] {
                        self.v[FLAG] = 1;
                    }
                    self.display[y_pos + row][x_pos + col as usize] ^= true;
                }
                proof {
                    let r0 = y0 + row;
                    let c0 = x0 + col;
                    let target = drawn_so_far(before, x0, y0, n as int, r0, c0 + 1);
                    lemma_scan_pixel(before, x0, y0, n as int, r0, c0);
                    assert(before.sprite_pixel(x0, y0, n as int, r0, c0) == (pixel == 1));
                    assert(at_pixel.display[r0][c0] == before.display[r0][c0]);
                    assert forall|r: int, c: int|
                        0 <= r < DISPLAY_HEIGHT && 0 <= c < DISPLAY_WIDTH implies
                        self@.display[r][c] == target.display[r][c] by {
                        assert(at_pixel.display[r][c] == (before.display[r][c] != (scanned(
                            r,
                            c,
                            r0,
                            c0,
                        ) && before.sprite_pixel(x0, y0, n as int, r, c))));
                    }
                    assert(self@ =~~= target);
                }
                col += 1;
            }
            proof {
                lemma_scan_skip(before, x0, y0, n as int, y0 + row, x0 + col, y0 + row + 1, 0);
            }
            row += 1;
        }
        proof {
            lemma_scan_done(before, x as int, y as int, n as int, y0 + row, 0);
        }
    }

    /// The index of the key that `Vx` names: the low four bits of `Vx`.
    fn key_named(&self, x: usize) -> (key: usize)
        requires
            x < REGISTER_COUNT,
        ensures
            key == self@.key_named(x as int),
            key < KEY_COUNT,
    {
        let held: u8 = self.v[x];
        assert(held & 0x0F == held % 16) by (bit_vector);
        (held & 0x0F) as usize
    }

    /// Skip if the key that `Vx` names is pressed.
    pub fn skp_vx(&mut self, x: usize)
        requires
            x < REGISTER_COUNT,
        ensures
            final(self)@ == old(self)@.skip_if(old(self)@.key_down(x as int)),
    {
        let key: usize = self.key_named(x);
        if self.keypad[key] {
            self.pc = self.pc.wrapping_add(2);
        }
    }

    /// Skip if the key that `Vx` names is not pressed.
    pub fn sknp_vx(&mut self, x: usize)
        requires
            x < REGISTER_COUNT,
        ensures
            final(self)@ == old(self)@.skip_if(!old(self)@.key_down(x as int)),
    {
        let key: usize = self.key_named(x);
        if !self.keypad[key] {
            self.pc = self.pc.wrapping_add(2);
        }
    }

    /// `Vx` = delay timer.
    pub fn ld_vx_dt(&mut self, x: usize)
        requires
            x < REGISTER_COUNT,
        ensures
            final(self)@ == old(self)@.set_register(x as int, old(self)@.delay_timer),
    {
        self.v[x] = self.delay_timer;
    }

    /// Wait for a key.
    pub fn ld_vx_k(&mut self, x: usize)
        requires
            x < REGISTER_COUNT,
        ensures
            final(self)@ == old(self)@.wait_key(x as int),
    {
        let mut key: usize = 0;
        while key < KEY_COUNT
            invariant
                key <= KEY_COUNT,
                x < REGISTER_COUNT,
                *self == *old(self),
                forall|j: int| 0 <= j < key ==> !self.keypad[j],
            decreases KEY_COUNT - key,
        {
            if self.keypad[key] {
                proof {
                    self.keypad@.index_of_first_ensures(true);
                    assert(self.keypad@.index_of_first(true) == Some(key as int));
                }
                self.v[x] = key as u8;
                return ;
            }
            key += 1;
        }
        proof {
            self.keypad@.index_of_first_ensures(true);
        }
        self.pc = self.pc.wrapping_sub(2);
    }

    /// Delay timer = `Vx`.
    pub fn ld_dt_vx(&mut self, x: usize)
        requires
            x < REGISTER_COUNT,
        ensures
            final(self)@ == old(self)@.set_delay(x as int),
    {
        self.delay_timer = self.v[x];
    }

    /// Sound timer = `Vx`.
    pub fn ld_st_vx(&mut self, x: usize)
        requires
            x < REGISTER_COUNT,
        ensures
            final(self)@ == old(self)@.set_sound(x as int),
    {
        self.sound_timer = self.v[x];
    }

    /// `I += Vx`.
    pub fn add_i_vx(&mut self, x: usize)
        requires
            x < REGISTER_COUNT,
        ensures
            final(self)@ == old(self)@.add_index(x as int),
    {
        self.i = self.i.wrapping_add(self.v[x] as u16);
    }

    /// `I` = address of the glyph for `Vx`.
    pub fn ld_f_vx(&mut self, x: usize)
        requires
            x < REGISTER_COUNT,
        ensures
            final(self)@ == old(self)@.load_glyph(x as int),
    {
        self.i = GLYPH_START + (self.v[x] as u16) * GLYPH_HEIGHT;
    }

    /// Store the decimal digits of `Vx`.
    pub fn ld_b_vx(&mut self, x: usize)
        requires
            x < REGISTER_COUNT,
            old(self)@.i + 2 < MEMORY_SIZE,
        ensures
            final(self)@ == old(self)@.store_bcd(x as int),
            final(self)@.memory[old(self)@.i as int] == old(self)@.v[x as int] / 100,
            final(self)@.memory[old(self)@.i + 1] == (old(self)@.v[x as int] / 10) % 10,
            final(self)@.memory[old(self)@.i + 2] == old(self)@.v[x as int] % 10,
    {
        let value: u8 = self.v[x];
        self.memory[self.i as usize] = value / 100;
        self.memory[self.i as usize + 1] = (value / 10) % 10;
        self.memory[self.i as usize + 2] = value % 10;
    }

    /// Store `V0..=Vx`.
    pub fn ld_i_vx(&mut self, x: usize)
        requires
            x < REGISTER_COUNT,
            old(self)@.i + x < MEMORY_SIZE,
        ensures
            final(self)@ == old(self)@.store_registers(x as int),
    {
        let ghost before = self@;
        let mut k: usize = 0;
        while k <= x
            invariant
                k <= x + 1,
                x < REGISTER_COUNT,
                before.i + x < MEMORY_SIZE,
                self@ == (Machine { memory: self.memory@, ..before }),
                forall|a: int|
                    0 <= a < MEMORY_SIZE ==> self.memory[a] == if before.i <= a < before.i + k {
                        before.v[a - before.i]
                    } else {
                        before.memory[a]
                    },
            decreases x + 1 - k,
        {
            self.memory[self.i as usize + k] = self.v[k];
            k += 1;
        }
    }

    /// Load `V0..=Vx`.
    pub fn ld_vx_i(&mut self, x: usize)
        requires
            x < REGISTER_COUNT,
            old(self)@.i + x < MEMORY_SIZE,
        ensures
            final(self)@ == old(self)@.load_registers(x as int),
    {
        let ghost before = self@;
        let mut k: usize = 0;
        while k <= x
            invariant
                k <= x + 1,
                x < REGISTER_COUNT,
                before.i + x < MEMORY_SIZE,
                self@ == (Machine { v: self.v@, ..before }),
                forall|j: int|
                    0 <= j < REGISTER_COUNT ==> self.v[j] == if j < k {
                        before.memory[before.i + j]
                    } else {
                        before.v[j]
                    },
            decreases x + 1 - k,
        {
            self.v[k] = self.memory[self.i as usize + k];
            k += 1;
        }
    }
}

/// Whether a draw that scans the display row by row, each row from left to
/// right, and now stands at (`row`, `column`), has passed pixel (`r`, `c`).
spec fn scanned(r: int, c: int, row: int, column: int) -> bool {
    r < row || (r == row && c < column)
}

/// Whether the part of a draw that has been scanned has hit a pixel that was
/// on.
spec fn hit_so_far(m: Machine, x0: int, y0: int, n: int, row: int, column: int) -> bool {
    exists|r: int, c: int|
        0 <= r < DISPLAY_HEIGHT && 0 <= c < DISPLAY_WIDTH && scanned(r, c, row, column)
            && m.display[r][c] && #[trigger] m.sprite_pixel(x0, y0, n, r, c)
}

/// The state in the middle of a draw that started in state `m`: the pixels
/// scanned so far are drawn, and the flag tells whether they hit anything.
spec fn drawn_so_far(m: Machine, x0: int, y0: int, n: int, row: int, column: int) -> Machine {
    Machine {
        display: Seq::new(
            DISPLAY_HEIGHT as nat,
            |r: int|
                Seq::new(
                    DISPLAY_WIDTH as nat,
                    |c: int|
                        m.display[r][c] != (scanned(r, c, row, column) && m.sprite_pixel(
                            x0,
                            y0,
                            n,
                            r,
                            c,
                        )),
                ),
        ),
        ..m.set_flag(hit_so_far(m, x0, y0, n, row, column))
    }
}

/// Two scan positions between which no sprite pixel lies give the same state.
proof fn lemma_scan_skip(
    m: Machine,
    x0: int,
    y0: int,
    n: int,
    row1: int,
    column1: int,
    row2: int,
    column2: int,
)
    requires
        forall|r: int, c: int|
            0 <= r < DISPLAY_HEIGHT && 0 <= c < DISPLAY_WIDTH && #[trigger] m.sprite_pixel(
                x0,
                y0,
                n,
                r,
                c,
            ) ==> scanned(r, c, row1, column1) == scanned(r, c, row2, column2),
    ensures
        drawn_so_far(m, x0, y0, n, row1, column1) == drawn_so_far(m, x0, y0, n, row2, column2),
{
    assert(drawn_so_far(m, x0, y0, n, row1, column1) =~~= drawn_so_far(
        m,
        x0,
        y0,
        n,
        row2,
        column2,
    ));
}

/// Scanning one more pixel adds that pixel's collision to the flag.
proof fn lemma_scan_pixel(m: Machine, x0: int, y0: int, n: int, row: int, column: int)
    requires
        0 <= row < DISPLAY_HEIGHT,
        0 <= column < DISPLAY_WIDTH,
    ensures
        hit_so_far(m, x0, y0, n, row, column + 1) == (hit_so_far(m, x0, y0, n, row, column) || (
        m.display[row][column] && m.sprite_pixel(x0, y0, n, row, column))),
{
}

/// Once the scan has passed every sprite pixel on the display, the draw is
/// complete.
proof fn lemma_scan_done(m: Machine, x: int, y: int, n: int, row: int, column: int)
    requires
        forall|r: int, c: int|
            0 <= r < DISPLAY_HEIGHT && 0 <= c < DISPLAY_WIDTH && #[trigger] m.sprite_pixel(
                m.v[x] as int % DISPLAY_WIDTH as int,
                m.v[y] as int % DISPLAY_HEIGHT as int,
                n,
                r,
                c,
            ) ==> scanned(r, c, row, column),
    ensures
        drawn_so_far(
            m,
            m.v[x] as int % DISPLAY_WIDTH as int,
            m.v[y] as int % DISPLAY_HEIGHT as int,
            n,
            row,
            column,
        ) == m.draw(x, y, n),
{
    let x0 = m.v[x] as int % DISPLAY_WIDTH as int;
    let y0 = m.v[y] as int % DISPLAY_HEIGHT as int;
    assert(drawn_so_far(m, x0, y0, n, row, column) =~~= m.draw(x, y, n));
}

/// The glyph table as an array.
fn glyphs() -> (table: [u8; GLYPH_TABLE_SIZE])
    ensures
        table@ == glyph_table(),
{
    let table: [u8; GLYPH_TABLE_SIZE] = [
        0xF0, 0x90, 0x90, 0x90, 0xF0,
        0x20, 0x60, 0x20, 0x20, 0x70,
        0xF0, 0x10, 0xF0, 0x80, 0xF0,
        0xF0, 0x10, 0xF0, 0x10, 0xF0,
        0x90, 0x90, 0xF0, 0x10, 0x10,
        0xF0, 0x80, 0xF0, 0x10, 0xF0,
        0xF0, 0x80, 0xF0, 0x90, 0xF0,
        0xF0, 0x10, 0x20, 0x40, 0x40,
        0xF0, 0x90, 0xF0, 0x90, 0xF0,
        0xF0, 0x90, 0xF0, 0x10, 0xF0,
        0xF0, 0x90, 0xF0, 0x90, 0x90,
        0xE0, 0x90, 0xE0, 0x90, 0xE0,
        0xF0, 0x80, 0x80, 0x80, 0xF0,
        0xE0, 0x90, 0x90, 0x90, 0xE0,
        0xF0, 0x80, 0xF0, 0x80, 0xF0,
        0xF0, 0x80, 0xF0, 0x80, 0x80,
    ];
    assert(table@ =~= glyph_table());
    table
}

} // verus!
