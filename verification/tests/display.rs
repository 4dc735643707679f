use chip_8::{PixelBuf, RngState};

fn lit_pixels(buf: &PixelBuf) -> Vec<(usize, usize)> {
    let mut lit = Vec::new();
    for row in 0..32 {
        for col in 0..64 {
            if buf.pixel(row, col) {
                lit.push((row, col));
            }
        }
    }
    lit
}

#[test]
fn new_display_is_blank() {
    assert!(lit_pixels(&PixelBuf::new()).is_empty());
}

#[test]
fn sprite_bits_run_from_the_left() {
    let mut buf = PixelBuf::new();
    assert!(!buf.draw_sprite(0, 0, 2, &[0b1000_0001, 0b0100_0000]));
    assert_eq!(lit_pixels(&buf), vec![(0, 0), (0, 7), (1, 1)]);
}

#[test]
fn only_the_first_height_rows_are_drawn() {
    let mut buf = PixelBuf::new();
    assert!(!buf.draw_sprite(3, 4, 1, &[0xFF, 0xFF, 0xFF]));
    assert_eq!(lit_pixels(&buf).len(), 8);
    assert!(!buf.draw_sprite(3, 4, 0, &[0xFF]));
    assert_eq!(lit_pixels(&buf).len(), 8);
}

#[test]
fn drawing_twice_restores_the_display() {
    let sprite = [0xF0, 0x90, 0x90, 0x90, 0xF0];
    let mut buf = PixelBuf::new();
    assert!(!buf.draw_sprite(10, 7, 5, &sprite));
    assert_eq!(lit_pixels(&buf).len(), 14);
    assert!(buf.draw_sprite(10, 7, 5, &sprite));
    assert!(lit_pixels(&buf).is_empty());
}

#[test]
fn drawing_twice_restores_a_display_that_was_not_blank() {
    let mut buf = PixelBuf::new();
    buf.draw_sprite(0, 0, 2, &[0xAA, 0x55]);
    let before = lit_pixels(&buf);
    assert!(buf.draw_sprite(1, 0, 2, &[0xFF, 0xFF]));
    assert_ne!(lit_pixels(&buf), before);
    buf.draw_sprite(1, 0, 2, &[0xFF, 0xFF]);
    assert_eq!(lit_pixels(&buf), before);
}

#[test]
fn an_empty_sprite_never_collides() {
    let mut buf = PixelBuf::new();
    assert!(!buf.draw_sprite(0, 0, 3, &[0, 0, 0]));
    assert!(!buf.draw_sprite(0, 0, 3, &[0, 0, 0]));
    assert!(lit_pixels(&buf).is_empty());
}

#[test]
fn columns_wrap_around_the_right_edge() {
    let mut buf = PixelBuf::new();
    assert!(!buf.draw_sprite(60, 0, 1, &[0xFF]));
    assert_eq!(
        lit_pixels(&buf),
        vec![(0, 0), (0, 1), (0, 2), (0, 3), (0, 60), (0, 61), (0, 62), (0, 63)]
    );
}

#[test]
fn rows_wrap_around_the_bottom_edge() {
    let mut buf = PixelBuf::new();
    assert!(!buf.draw_sprite(0, 30, 8, &[0x80; 8]));
    assert_eq!(
        lit_pixels(&buf),
        vec![(0, 0), (1, 0), (2, 0), (3, 0), (4, 0), (5, 0), (30, 0), (31, 0)]
    );
}

#[test]
fn coordinates_beyond_the_display_wrap_too() {
    let mut buf = PixelBuf::new();
    assert!(!buf.draw_sprite(64 + 5, 32 + 3, 1, &[0x80]));
    assert_eq!(lit_pixels(&buf), vec![(3, 5)]);
    let mut buf = PixelBuf::new();
    assert!(!buf.draw_sprite(255, 255, 1, &[0xC0]));
    assert_eq!(lit_pixels(&buf), vec![(31, 0), (31, 63)]);
}

#[test]
fn a_sprite_higher_than_the_display_meets_itself() {
    let mut buf = PixelBuf::new();
    let mut sprite = vec![0u8; 33];
    sprite[0] = 0x80;
    sprite[32] = 0x80;
    assert!(buf.draw_sprite(0, 0, 33, &sprite));
    assert!(lit_pixels(&buf).is_empty());
}

#[test]
fn collision_needs_a_lit_pixel_to_go_dark() {
    let mut buf = PixelBuf::new();
    assert!(!buf.draw_sprite(0, 0, 1, &[0xF0]));
    assert!(!buf.draw_sprite(0, 0, 1, &[0x0F]));
    assert!(buf.draw_sprite(0, 0, 1, &[0x01]));
    assert_eq!(lit_pixels(&buf).len(), 7);
}

#[test]
fn clear_turns_every_pixel_off() {
    let mut buf = PixelBuf::new();
    buf.draw_sprite(5, 5, 2, &[0xFF, 0xFF]);
    buf.clear();
    assert!(lit_pixels(&buf).is_empty());
}

#[test]
fn generator_gives_the_same_bytes_every_time() {
    let mut rng = RngState::new();
    let mut bytes = Vec::new();
    for _ in 0..16 {
        bytes.push(rng.next());
    }
    assert_eq!(bytes, vec![1, 1, 1, 50, 24, 39, 7, 50, 131, 59, 191, 214, 104, 193, 112, 146]);
    let mut again = RngState::new();
    for byte in bytes {
        assert_eq!(again.next(), byte);
    }
}
