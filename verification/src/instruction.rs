//! The instruction set: one variant per opcode family, and the decoder that
//! turns a 16-bit instruction word into its variant.

use vstd::prelude::*;

verus! {

/// A decoded instruction. `x` and `y` name registers, `byte` is an 8-bit
/// immediate, `n` a 4-bit immediate and `addr` a 12-bit address.
#[derive(Clone, Copy, Debug, PartialEq, Eq, Structural)]
pub enum Instruction {
    /// `00E0`: blank the display.
    ClearScreen,
    /// `00EE`: return from a subroutine.
    Return,
    /// `1nnn`: jump to `addr`.
    Jump { addr: u16 },
    /// `2nnn`: call the subroutine at `addr`.
    Call { addr: u16 },
    /// `3xnn`: skip the next instruction if `Vx == byte`.
    SkipEqByte { x: u8, byte: u8 },
    /// `4xnn`: skip the next instruction if `Vx != byte`.
    SkipNeByte { x: u8, byte: u8 },
    /// `5xy0`: skip the next instruction if `Vx == Vy`.
    SkipEqReg { x: u8, y: u8 },
    /// `6xnn`: `Vx = byte`.
    LoadByte { x: u8, byte: u8 },
    /// `7xnn`: `Vx += byte`, wrapping, flag untouched.
    AddByte { x: u8, byte: u8 },
    /// `8xy0`: `Vx = Vy`.
    LoadReg { x: u8, y: u8 },
    /// `8xy1`: `Vx |= Vy`.
    Or { x: u8, y: u8 },
    /// `8xy2`: `Vx &= Vy`.
    And { x: u8, y: u8 },
    /// `8xy3`: `Vx ^= Vy`.
    Xor { x: u8, y: u8 },
    /// `8xy4`: `Vx += Vy`, `VF` = carry.
    AddReg { x: u8, y: u8 },
    /// `8xy5`: `Vx -= Vy`, `VF` = no borrow.
    SubReg { x: u8, y: u8 },
    /// `8xy6`: `Vx >>= 1`, `VF` = the bit shifted out.
    ShiftRight { x: u8 },
    /// `8xy7`: `Vx = Vy - Vx`, `VF` = no borrow.
    SubnReg { x: u8, y: u8 },
    /// `8xyE`: `Vx <<= 1`, `VF` = the bit shifted out.
    ShiftLeft { x: u8 },
    /// `9xy0`: skip the next instruction if `Vx != Vy`.
    SkipNeReg { x: u8, y: u8 },
    /// `Annn`: `I = addr`.
    LoadIndex { addr: u16 },
    /// `Bnnn`: jump to `addr + V0`.
    JumpOffset { addr: u16 },
    /// `Cxnn`: `Vx = random & byte`.
    Random { x: u8, byte: u8 },
    /// `Dxyn`: draw an `n`-row sprite at (`Vx`, `Vy`), `VF` = collision.
    Draw { x: u8, y: u8, n: u8 },
    /// `Ex9E`: skip the next instruction if key `Vx` is pressed.
    SkipKey { x: u8 },
    /// `ExA1`: skip the next instruction if key `Vx` is not pressed.
    SkipNoKey { x: u8 },
    /// `Fx07`: `Vx` = delay timer.
    LoadDelay { x: u8 },
    /// `Fx0A`: wait for a key and store its index in `Vx`.
    WaitKey { x: u8 },
    /// `Fx15`: delay timer = `Vx`.
    SetDelay { x: u8 },
    /// `Fx18`: sound timer = `Vx`.
    SetSound { x: u8 },
    /// `Fx1E`: `I += Vx`.
    AddIndex { x: u8 },
    /// `Fx29`: `I` = address of the glyph for `Vx`.
    LoadGlyph { x: u8 },
    /// `Fx33`: store the three decimal digits of `Vx` at `I`, `I+1`, `I+2`.
    StoreBcd { x: u8 },
    /// `Fx55`: store `V0..=Vx` at `I..`.
    StoreRegs { x: u8 },
    /// `Fx65`: load `V0..=Vx` from `I..`.
    LoadRegs { x: u8 },
    /// Any other word: no effect.
    Unknown,
}

impl Instruction {
    /// Every register operand names one of the sixteen registers.
    pub open spec fn registers_in_range(self) -> bool {
        match self {
            Instruction::ClearScreen
            | Instruction::Return
            | Instruction::Jump { .. }
            | Instruction::Call { .. }
            | Instruction::LoadIndex { .. }
            | Instruction::JumpOffset { .. }
            | Instruction::Unknown => true,
            Instruction::SkipEqByte { x, .. }
            | Instruction::SkipNeByte { x, .. }
            | Instruction::LoadByte { x, .. }
            | Instruction::AddByte { x, .. }
            | Instruction::ShiftRight { x }
            | Instruction::ShiftLeft { x }
            | Instruction::Random { x, .. }
            | Instruction::SkipKey { x }
            | Instruction::SkipNoKey { x }
            | Instruction::LoadDelay { x }
            | Instruction::WaitKey { x }
            | Instruction::SetDelay { x }
            | Instruction::SetSound { x }
            | Instruction::AddIndex { x }
            | Instruction::LoadGlyph { x }
            | Instruction::StoreBcd { x }
            | Instruction::StoreRegs { x }
            | Instruction::LoadRegs { x } => x < 16,
            Instruction::SkipEqReg { x, y }
            | Instruction::LoadReg { x, y }
            | Instruction::Or { x, y }
            | Instruction::And { x, y }
            | Instruction::Xor { x, y }
            | Instruction::AddReg { x, y }
            | Instruction::SubReg { x, y }
            | Instruction::SubnReg { x, y }
            | Instruction::SkipNeReg { x, y }
            | Instruction::Draw { x, y, .. } => x < 16 && y < 16,
        }
    }
}

/// The instruction that a 16-bit word encodes. Reading the word as four
/// hexadecimal digits `o x y n`, the family is chosen by `o` (and, for some
/// families, by the low digits); `byte` is the low two digits and `addr` the
/// low three.
pub open spec fn spec_decode(word: u16) -> Instruction {
    let family = word as int / 0x1000;
    let x = ((word as int / 0x100) % 0x10) as u8;
    let y = ((word as int / 0x10) % 0x10) as u8;
    let n = (word as int % 0x10) as u8;
    let byte = (word as int % 0x100) as u8;
    let addr = (word as int % 0x1000) as u16;
    if word == 0x00E0 {
        Instruction::ClearScreen
    } else if word == 0x00EE {
        Instruction::Return
    } else if family == 0x1 {
        Instruction::Jump { addr }
    } else if family == 0x2 {
        Instruction::Call { addr }
    } else if family == 0x3 {
        Instruction::SkipEqByte { x, byte }
    } else if family == 0x4 {
        Instruction::SkipNeByte { x, byte }
    } else if family == 0x5 && n == 0x0 {
        Instruction::SkipEqReg { x, y }
    } else if family == 0x6 {
        Instruction::LoadByte { x, byte }
    } else if family == 0x7 {
        Instruction::AddByte { x, byte }
    } else if family == 0x8 && n == 0x0 {
        Instruction::LoadReg { x, y }
    } else if family == 0x8 && n == 0x1 {
        Instruction::Or { x, y }
    } else if family == 0x8 && n == 0x2 {
        Instruction::And { x, y }
    } else if family == 0x8 && n == 0x3 {
        Instruction::Xor { x, y }
    } else if family == 0x8 && n == 0x4 {
        Instruction::AddReg { x, y }
    } else if family == 0x8 && n == 0x5 {
        Instruction::SubReg { x, y }
    } else if family == 0x8 && n == 0x6 {
        Instruction::ShiftRight { x }
    } else if family == 0x8 && n == 0x7 {
        Instruction::SubnReg { x, y }
    } else if family == 0x8 && n == 0xE {
        Instruction::ShiftLeft { x }
    } else if family == 0x9 && n == 0x0 {
        Instruction::SkipNeReg { x, y }
    } else if family == 0xA {
        Instruction::LoadIndex { addr }
    } else if family == 0xB {
        Instruction::JumpOffset { addr }
    } else if family == 0xC {
        Instruction::Random { x, byte }
    } else if family == 0xD {
        Instruction::Draw { x, y, n }
    } else if family == 0xE && byte == 0x9E {
        Instruction::SkipKey { x }
    } else if family == 0xE && byte == 0xA1 {
        Instruction::SkipNoKey { x }
    } else if family == 0xF && byte == 0x07 {
        Instruction::LoadDelay { x }
    } else if family == 0xF && byte == 0x0A {
        Instruction::WaitKey { x }
    } else if family == 0xF && byte == 0x15 {
        Instruction::SetDelay { x }
    } else if family == 0xF && byte == 0x18 {
        Instruction::SetSound { x }
    } else if family == 0xF && byte == 0x1E {
        Instruction::AddIndex { x }
    } else if family == 0xF && byte == 0x29 {
        Instruction::LoadGlyph { x }
    } else if family == 0xF && byte == 0x33 {
        Instruction::StoreBcd { x }
    } else if family == 0xF && byte == 0x55 {
        Instruction::StoreRegs { x }
    } else if family == 0xF && byte == 0x65 {
        Instruction::LoadRegs { x }
    } else {
        Instruction::Unknown
    }
}

/// Decoding never yields a register operand outside `0..16`, a 4-bit
/// immediate outside `0..16` or an address outside `0..4096`.
pub proof fn lemma_decode_operands_in_range(word: u16)
    ensures
        spec_decode(word).registers_in_range(),
        spec_decode(word) matches Instruction::Draw { n, .. } ==> n < 16,
        spec_decode(word) matches Instruction::Jump { addr } ==> addr < 0x1000,
        spec_decode(word) matches Instruction::Call { addr } ==> addr < 0x1000,
        spec_decode(word) matches Instruction::LoadIndex { addr } ==> addr < 0x1000,
        spec_decode(word) matches Instruction::JumpOffset { addr } ==> addr < 0x1000,
{
}

/// The four hexadecimal digits of an instruction word, and its low byte and
/// low twelve bits, as the masks and shifts of the decoder compute them.
proof fn lemma_nibbles(word: u16)
    ensures
        (word & 0xF000) >> 12 == word / 0x1000,
        (word & 0x0F00) >> 8 == (word / 0x100) % 0x10,
        (word & 0x00F0) >> 4 == (word / 0x10) % 0x10,
        word & 0x000F == word % 0x10,
        word & 0x00FF == word % 0x100,
        word & 0x0FFF == word % 0x1000,
{
    assert((word & 0xF000) >> 12 == word / 0x1000) by (bit_vector);
    assert((word & 0x0F00) >> 8 == (word / 0x100) % 0x10) by (bit_vector);
    assert((word & 0x00F0) >> 4 == (word / 0x10) % 0x10) by (bit_vector);
    assert(word & 0x000F == word % 0x10) by (bit_vector);
    assert(word & 0x00FF == word % 0x100) by (bit_vector);
    assert(word & 0x0FFF == word % 0x1000) by (bit_vector);
}

/// Decodes an instruction word.
pub fn decode(word: u16) -> (ins: Instruction)
    ensures
        ins == spec_decode(word),
        ins.registers_in_range(),
{
    let family: u16 = (word & 0xF000) >> 12;
    let x: u8 = ((word & 0x0F00) >> 8) as u8;
    let y: u8 = ((word & 0x00F0) >> 4) as u8;
    let n: u8 = (word & 0x000F) as u8;
    let byte: u8 = (word & 0x00FF) as u8;
    let addr: u16 = word & 0x0FFF;
    proof {
        lemma_nibbles(word);
    }
    match (family, x, y, n) {
        (0x0, 0x0, 0xE, 0x0) => Instruction::ClearScreen,
        (0x0, 0x0, 0xE, 0xE) => Instruction::Return,
        (0x1, _, _, _) => Instruction::Jump { addr },
        (0x2, _, _, _) => Instruction::Call { addr },
        (0x3, _, _, _) => Instruction::SkipEqByte { x, byte },
        (0x4, _, _, _) => Instruction::SkipNeByte { x, byte },
        (0x5, _, _, 0x0) => Instruction::SkipEqReg { x, y },
        (0x6, _, _, _) => Instruction::LoadByte { x, byte },
        (0x7, _, _, _) => Instruction::AddByte { x, byte },
        (0x8, _, _, 0x0) => Instruction::LoadReg { x, y },
        (0x8, _, _, 0x1) => Instruction::Or { x, y },
        (0x8, _, _, 0x2) => Instruction::And { x, y },
        (0x8, _, _, 0x3) => Instruction::Xor { x, y },
        (0x8, _, _, 0x4) => Instruction::AddReg { x, y },
        (0x8, _, _, 0x5) => Instruction::SubReg { x, y },
        (0x8, _, _, 0x6) => Instruction::ShiftRight { x },
        (0x8, _, _, 0x7) => Instruction::SubnReg { x, y },
        (0x8, _, _, 0xE) => Instruction::ShiftLeft { x },
        (0x9, _, _, 0x0) => Instruction::SkipNeReg { x, y },
        (0xA, _, _, _) => Instruction::LoadIndex { addr },
        (0xB, _, _, _) => Instruction::JumpOffset { addr },
        (0xC, _, _, _) => Instruction::Random { x, byte },
        (0xD, _, _, _) => Instruction::Draw { x, y, n },
        (0xE, _, 0x9, 0xE) => Instruction::SkipKey { x },
        (0xE, _, 0xA, 0x1) => Instruction::SkipNoKey { x },
        (0xF, _, 0x0, 0x7) => Instruction::LoadDelay { x },
        (0xF, _, 0x0, 0xA) => Instruction::WaitKey { x },
        (0xF, _, 0x1, 0x5) => Instruction::SetDelay { x },
        (0xF, _, 0x1, 0x8) => Instruction::SetSound { x },
        (0xF, _, 0x1, 0xE) => Instruction::AddIndex { x },
        (0xF, _, 0x2, 0x9) => Instruction::LoadGlyph { x },
        (0xF, _, 0x3, 0x3) => Instruction::StoreBcd { x },
        (0xF, _, 0x5, 0x5) => Instruction::StoreRegs { x },
        (0xF, _, 0x6, 0x5) => Instruction::LoadRegs { x },
        _ => Instruction::Unknown,
    }
}

} // verus!
