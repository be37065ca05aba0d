use space_recorder::ascii::braille::{grid_to_braille, render, render_into, BRAILLE_BASE};

#[test]
fn test_braille_base() {
    assert_eq!(BRAILLE_BASE, '\u{2800}');
}

#[test]
fn test_grid_to_braille_empty() {
    let grid = [[false; 4]; 2];
    assert_eq!(grid_to_braille(grid), BRAILLE_BASE);
}

#[test]
fn test_grid_to_braille_full() {
    let grid = [[true; 4]; 2];
    assert_eq!(grid_to_braille(grid), '\u{28FF}');
}

#[test]
fn test_grid_to_braille_single_dots() {
    let mut grid = [[false; 4]; 2];
    grid[0][0] = true;
    assert_eq!(grid_to_braille(grid), '\u{2801}');

    let mut grid = [[false; 4]; 2];
    grid[1][0] = true;
    assert_eq!(grid_to_braille(grid), '\u{2808}');
}

#[test]
fn test_render_empty_input() {
    assert!(render(&[], 0, 0, 10, 10, 128, false).is_empty());
    assert!(render(&[128], 1, 1, 0, 0, 128, false).is_empty());
}

#[test]
fn test_render_into_empty_input() {
    let mut buffer = Vec::new();
    assert_eq!(render_into(&[], 0, 0, 10, 10, 128, false, &mut buffer), 0);
    assert!(buffer.is_empty());
}

#[test]
fn test_render_basic() {
    let gray = vec![255u8; 8];
    let result = render(&gray, 2, 4, 1, 1, 128, false);
    assert_eq!(result.len(), 1);
    assert_eq!(result[0], '\u{28FF}');
}

#[test]
fn test_render_invert() {
    let gray = vec![0u8; 8];
    let result = render(&gray, 2, 4, 1, 1, 128, true);
    assert_eq!(result.len(), 1);
    assert_eq!(result[0], '\u{28FF}');
}

#[test]
fn braille_dot_bits_follow_unicode_layout() {
    // Left column rows 0..3 are bits 0,1,2,6; right column rows 0..3 are bits 3,4,5,7.
    let expected = [[0x01u32, 0x02, 0x04, 0x40], [0x08, 0x10, 0x20, 0x80]];
    for col in 0..2 {
        for row in 0..4 {
            let mut grid = [[false; 4]; 2];
            grid[col][row] = true;
            assert_eq!(grid_to_braille(grid) as u32, 0x2800 + expected[col][row]);
        }
    }
}

#[test]
fn braille_render_reuses_buffer() {
    let gray = vec![255u8; 8];
    let mut buffer = vec!['x'; 5];
    assert_eq!(render_into(&gray, 2, 4, 1, 1, 128, false, &mut buffer), 1);
    assert_eq!(buffer, vec!['\u{28FF}']);
}
