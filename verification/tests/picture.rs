use invaders::display::{
    pixel, render, square, tint_at, Color, Pixel, Square, BYTES_PER_COLUMN, HEIGHT, PIXEL_SIZE,
    WIDTH,
};
use invaders::memory::{Memory, VIDEO_RAM_SIZE};
use invaders::state::EmulatorState;

#[test]
fn picture_dimensions() {
    assert_eq!(WIDTH, 224);
    assert_eq!(HEIGHT, 256);
    assert_eq!(BYTES_PER_COLUMN, 32);
    assert_eq!(PIXEL_SIZE, 2);
    assert_eq!(WIDTH * BYTES_PER_COLUMN, VIDEO_RAM_SIZE);
    assert_eq!(BYTES_PER_COLUMN * 8, HEIGHT);
}

#[test]
fn bit_zero_of_byte_zero_is_the_bottom_left_pixel() {
    assert_eq!(pixel(0, 0, 0x01), Pixel { x: 0, y: 255, color: Color::Green });
    assert_eq!(pixel(0, 0, 0xfe), Pixel { x: 0, y: 255, color: Color::Black });
}

#[test]
fn bits_of_a_byte_go_up_the_screen() {
    for bit in 0..8u8 {
        let p = pixel(0, bit, 0xff);
        assert_eq!((p.x, p.y), (0, 255 - bit as usize));
    }
    assert_eq!(pixel(1, 0, 0xff).y, 247);
    assert_eq!(pixel(1, 7, 0xff).y, 240);
}

#[test]
fn last_bit_of_the_last_byte_is_the_top_right_pixel() {
    assert_eq!(pixel(7167, 7, 0x80), Pixel { x: 223, y: 0, color: Color::White });
    assert_eq!(pixel(7167, 7, 0x7f), Pixel { x: 223, y: 0, color: Color::Black });
}

#[test]
fn each_run_of_thirty_two_bytes_is_one_column() {
    assert_eq!(pixel(31, 0, 0x01).x, 0);
    assert_eq!(pixel(32, 0, 0x01), Pixel { x: 1, y: 255, color: Color::Green });
    assert_eq!(pixel(63, 7, 0x80), Pixel { x: 1, y: 0, color: Color::White });
    assert_eq!(pixel(3200, 0, 0x01).x, 100);
}

#[test]
fn only_the_addressed_bit_decides_whether_the_pixel_is_lit() {
    for bit in 0..8u8 {
        assert_ne!(pixel(500, bit, 1 << bit).color, Color::Black);
        assert_eq!(pixel(500, bit, !(1 << bit)).color, Color::Black);
    }
}

#[test]
fn tints_follow_the_height_of_the_strip() {
    assert_eq!(tint_at(0), Color::Green);
    assert_eq!(tint_at(72), Color::Green);
    assert_eq!(tint_at(79), Color::Green);
    assert_eq!(tint_at(80), Color::White);
    assert_eq!(tint_at(200), Color::White);
    assert_eq!(tint_at(201), Color::Red);
    assert_eq!(tint_at(208), Color::Red);
    assert_eq!(tint_at(216), Color::Red);
    assert_eq!(tint_at(219), Color::Red);
    assert_eq!(tint_at(220), Color::White);
    assert_eq!(tint_at(248), Color::White);
}

#[test]
fn a_whole_strip_has_the_tint_of_its_lowest_pixel() {
    for bit in 0..8u8 {
        assert_eq!(pixel(9, bit, 0xff).color, Color::Green);
        assert_eq!(pixel(10, bit, 0xff).color, Color::White);
        assert_eq!(pixel(25, bit, 0xff).color, Color::White);
        assert_eq!(pixel(26, bit, 0xff).color, Color::Red);
        assert_eq!(pixel(27, bit, 0xff).color, Color::Red);
        assert_eq!(pixel(28, bit, 0xff).color, Color::White);
    }
}

#[test]
fn squares_are_twice_the_pixel_coordinates() {
    assert_eq!(square(Pixel { x: 0, y: 0, color: Color::Black }), Square { x: 0, y: 0, side: 2 });
    assert_eq!(
        square(Pixel { x: 223, y: 255, color: Color::White }),
        Square { x: 446, y: 510, side: 2 }
    );
    assert_eq!(square(pixel(32, 3, 0x08)), Square { x: 2, y: 504, side: 2 });
}

#[test]
fn render_gives_eight_pixels_for_each_byte_of_video_memory() {
    let mut memory = Memory::new();
    memory.write_byte(0x2400, 0x81);
    memory.write_byte(0x2400 + 26, 0x10);
    memory.write_byte(0x3fff, 0x80);
    memory.write_byte(0x23ff, 0xff);
    memory.write_byte(0x4000, 0xff);
    let state = EmulatorState::new(memory);
    let picture = render(&state);
    assert_eq!(picture.len(), 8 * VIDEO_RAM_SIZE);
    assert_eq!(picture[0], Pixel { x: 0, y: 255, color: Color::Green });
    assert_eq!(picture[1], Pixel { x: 0, y: 254, color: Color::Black });
    assert_eq!(picture[7], Pixel { x: 0, y: 248, color: Color::Green });
    assert_eq!(picture[8 * 26 + 4], Pixel { x: 0, y: 43, color: Color::Red });
    assert_eq!(picture[8 * 7167 + 7], Pixel { x: 223, y: 0, color: Color::White });
    let lit = picture.iter().filter(|p| p.color != Color::Black).count();
    assert_eq!(lit, 4);
    for (i, p) in picture.iter().enumerate() {
        assert_eq!(*p, pixel(i / 8, (i % 8) as u8, state.framebuffer_byte(i / 8)));
        assert!(p.x < WIDTH && p.y < HEIGHT);
    }
}

#[test]
fn render_covers_every_pixel_once() {
    let state = EmulatorState::new(Memory::new());
    let picture = render(&state);
    let mut seen = vec![false; WIDTH * HEIGHT];
    for p in picture.iter() {
        assert_eq!(p.color, Color::Black);
        assert!(!seen[p.y * WIDTH + p.x]);
        seen[p.y * WIDTH + p.x] = true;
    }
    assert!(seen.iter().all(|s| *s));
}
