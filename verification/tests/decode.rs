use chip8::instruction::{decode, Instruction};

#[test]
fn decode_fixed_words() {
    assert_eq!(decode(0x00E0), Instruction::ClearScreen);
    assert_eq!(decode(0x00EE), Instruction::Return);
}

#[test]
fn decode_address_families() {
    assert_eq!(decode(0x1ABC), Instruction::Jump { addr: 0xABC });
    assert_eq!(decode(0x2FFF), Instruction::Call { addr: 0xFFF });
    assert_eq!(decode(0xA123), Instruction::LoadIndex { addr: 0x123 });
    assert_eq!(decode(0xB000), Instruction::JumpOffset { addr: 0x000 });
}

#[test]
fn decode_register_and_byte_families() {
    assert_eq!(decode(0x3A42), Instruction::SkipEqByte { x: 0xA, byte: 0x42 });
    assert_eq!(decode(0x4B00), Instruction::SkipNeByte { x: 0xB, byte: 0x00 });
    assert_eq!(decode(0x6CFF), Instruction::LoadByte { x: 0xC, byte: 0xFF });
    assert_eq!(decode(0x7D01), Instruction::AddByte { x: 0xD, byte: 0x01 });
    assert_eq!(decode(0xCE0F), Instruction::Random { x: 0xE, byte: 0x0F });
}

#[test]
fn decode_two_register_families() {
    assert_eq!(decode(0x5120), Instruction::SkipEqReg { x: 1, y: 2 });
    assert_eq!(decode(0x8120), Instruction::LoadReg { x: 1, y: 2 });
    assert_eq!(decode(0x8121), Instruction::Or { x: 1, y: 2 });
    assert_eq!(decode(0x8122), Instruction::And { x: 1, y: 2 });
    assert_eq!(decode(0x8123), Instruction::Xor { x: 1, y: 2 });
    assert_eq!(decode(0x8124), Instruction::AddReg { x: 1, y: 2 });
    assert_eq!(decode(0x8125), Instruction::SubReg { x: 1, y: 2 });
    assert_eq!(decode(0x8126), Instruction::ShiftRight { x: 1 });
    assert_eq!(decode(0x8127), Instruction::SubnReg { x: 1, y: 2 });
    assert_eq!(decode(0x812E), Instruction::ShiftLeft { x: 1 });
    assert_eq!(decode(0x9120), Instruction::SkipNeReg { x: 1, y: 2 });
    assert_eq!(decode(0xD125), Instruction::Draw { x: 1, y: 2, n: 5 });
}

#[test]
fn decode_key_and_f_families() {
    assert_eq!(decode(0xE39E), Instruction::SkipKey { x: 3 });
    assert_eq!(decode(0xE3A1), Instruction::SkipNoKey { x: 3 });
    assert_eq!(decode(0xF307), Instruction::LoadDelay { x: 3 });
    assert_eq!(decode(0xF30A), Instruction::WaitKey { x: 3 });
    assert_eq!(decode(0xF315), Instruction::SetDelay { x: 3 });
    assert_eq!(decode(0xF318), Instruction::SetSound { x: 3 });
    assert_eq!(decode(0xF31E), Instruction::AddIndex { x: 3 });
    assert_eq!(decode(0xF329), Instruction::LoadGlyph { x: 3 });
    assert_eq!(decode(0xF333), Instruction::StoreBcd { x: 3 });
    assert_eq!(decode(0xF355), Instruction::StoreRegs { x: 3 });
    assert_eq!(decode(0xF365), Instruction::LoadRegs { x: 3 });
}

#[test]
fn decode_unrecognized_words() {
    assert_eq!(decode(0x0000), Instruction::Unknown);
    assert_eq!(decode(0x00E1), Instruction::Unknown);
    assert_eq!(decode(0x01E0), Instruction::Unknown);
    assert_eq!(decode(0x0123), Instruction::Unknown);
    assert_eq!(decode(0x5121), Instruction::Unknown);
    assert_eq!(decode(0x8128), Instruction::Unknown);
    assert_eq!(decode(0x812F), Instruction::Unknown);
    assert_eq!(decode(0x9121), Instruction::Unknown);
    assert_eq!(decode(0xE39F), Instruction::Unknown);
    assert_eq!(decode(0xE300), Instruction::Unknown);
    assert_eq!(decode(0xF300), Instruction::Unknown);
    assert_eq!(decode(0xF3FF), Instruction::Unknown);
}

#[test]
fn decode_every_word_keeps_operands_in_range() {
    let mut word: u32 = 0;
    while word <= 0xFFFF {
        match decode(word as u16) {
            Instruction::Jump { addr }
            | Instruction::Call { addr }
            | Instruction::LoadIndex { addr }
            | Instruction::JumpOffset { addr } => {
                assert!(addr < 0x1000);
                assert_eq!(addr, (word & 0x0FFF) as u16);
            }
            Instruction::Draw { x, y, n } => {
                assert!(x < 16 && y < 16 && n < 16);
            }
            Instruction::SkipEqByte { x, byte }
            | Instruction::SkipNeByte { x, byte }
            | Instruction::LoadByte { x, byte }
            | Instruction::AddByte { x, byte }
            | Instruction::Random { x, byte } => {
                assert!(x < 16);
                assert_eq!(byte, (word & 0xFF) as u8);
            }
            _ => {}
        }
        word += 1;
    }
}
