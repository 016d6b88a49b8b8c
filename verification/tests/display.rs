use chip8::display::Display;

#[test]
fn display_new_is_black() {
    let display = Display::new(64, 32);
    assert_eq!(display.width, 64);
    assert_eq!(display.height, 32);
    assert_eq!(display.pixels.len(), 6144);
    assert!(display.pixels.iter().all(|&b| b == 0));
}

#[test]
fn display_new_empty() {
    let display = Display::new(0, 32);
    assert_eq!(display.width, 0);
    assert_eq!(display.height, 32);
    assert!(display.pixels.is_empty());
}

#[test]
fn display_update_copies_the_frame() {
    let mut frame = [[false; 64]; 32];
    frame[0][0] = true;
    frame[0][63] = true;
    frame[5][7] = true;
    frame[31][63] = true;
    let mut display = Display::new(64, 32);
    display.update_from_chip8(&frame);
    assert_eq!(display.pixels.len(), 6144);
    let mut y: usize = 0;
    while y < 32 {
        let mut x: usize = 0;
        while x < 64 {
            let at: usize = (y * 64 + x) * 3;
            let expected: u8 = if frame[y][x] { 255 } else { 0 };
            assert_eq!(display.pixels[at], expected);
            assert_eq!(display.pixels[at + 1], expected);
            assert_eq!(display.pixels[at + 2], expected);
            x += 1;
        }
        y += 1;
    }
    assert_eq!(&display.pixels[0..6], &[255, 255, 255, 0, 0, 0]);
    assert_eq!(&display.pixels[(5 * 64 + 7) * 3..(5 * 64 + 8) * 3], &[255, 255, 255]);
    assert_eq!(&display.pixels[6141..6144], &[255, 255, 255]);
}

#[test]
fn display_update_overwrites_the_previous_frame() {
    let mut display = Display::new(64, 32);
    display.update_from_chip8(&[[true; 64]; 32]);
    assert!(display.pixels.iter().all(|&b| b == 255));
    display.update_from_chip8(&[[false; 64]; 32]);
    assert!(display.pixels.iter().all(|&b| b == 0));
}

#[test]
fn display_update_leaves_bytes_beyond_the_frame() {
    let mut display = Display::new(64, 33);
    let extra: usize = display.pixels.len();
    assert_eq!(extra, 6336);
    display.pixels[6144] = 7;
    display.pixels[6335] = 9;
    display.update_from_chip8(&[[true; 64]; 32]);
    assert_eq!(display.pixels.len(), 6336);
    assert_eq!(display.pixels[6143], 255);
    assert_eq!(display.pixels[6144], 7);
    assert_eq!(display.pixels[6145], 0);
    assert_eq!(display.pixels[6335], 9);
    assert_eq!(display.width, 64);
    assert_eq!(display.height, 33);
}

#[test]
fn display_clear_blackens() {
    let mut display = Display::new(64, 32);
    display.update_from_chip8(&[[true; 64]; 32]);
    display.clear();
    assert_eq!(display.pixels.len(), 6144);
    assert!(display.pixels.iter().all(|&b| b == 0));
    assert_eq!(display.width, 64);
    assert_eq!(display.height, 32);
}

#[test]
fn display_ascii_rows_show_lit_pixels() {
    let mut frame = [[false; 64]; 32];
    frame[0][0] = true;
    frame[2][10] = true;
    frame[31][63] = true;
    let mut display = Display::new(64, 32);
    display.update_from_chip8(&frame);
    let rows = display.ascii_rows();
    assert_eq!(rows.len(), 32);
    let mut y: usize = 0;
    while y < 32 {
        assert_eq!(rows[y].len(), 64);
        let mut x: usize = 0;
        while x < 64 {
            let expected: char = if frame[y][x] { '\u{2588}' } else { ' ' };
            assert_eq!(rows[y][x], expected);
            x += 1;
        }
        y += 1;
    }
}

#[test]
fn display_ascii_rows_look_at_the_first_channel() {
    let mut display = Display::new(64, 32);
    display.pixels[0] = 1;
    display.pixels[4] = 200;
    display.pixels[5] = 200;
    display.pixels[6] = 255;
    let rows = display.ascii_rows();
    assert_eq!(rows[0][0], '\u{2588}');
    assert_eq!(rows[0][1], ' ');
    assert_eq!(rows[0][2], '\u{2588}');
    assert_eq!(rows[0][3], ' ');
}
