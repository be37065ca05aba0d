use space_recorder::ascii::{
    gamma_correct, map_to_chars, map_to_chars_dithered, map_to_chars_gamma, to_grayscale_into, CharSet,
    STANDARD_CHARSET,
};
use space_recorder::camera::{Frame, FrameFormat};
use space_recorder::devices::parse_device_line;
use std::time::Instant;

#[test]
fn mapping_follows_the_documented_example() {
    let chars = map_to_chars(&[0, 127, 255], &STANDARD_CHARSET, false);
    assert_eq!(chars, vec![' ', '+', '@']);
    let inverted = map_to_chars(&[0, 127, 255], &STANDARD_CHARSET, true);
    assert_eq!(inverted, vec!['@', '+', ' ']);
    assert_eq!(map_to_chars(&[10, 20], &[], false), vec![' ', ' ']);
}

#[test]
fn gamma_table_follows_its_formula() {
    for i in 0..=255u8 {
        let expected = ((i as f64 / 255.0).powf(1.0 / 2.2) * 255.0).round() as u8;
        assert_eq!(gamma_correct(i), expected, "brightness {}", i);
    }
    assert_eq!(gamma_correct(254), 255);
    assert_eq!(map_to_chars_gamma(&[0, 255], CharSet::Standard.chars(), false), vec![' ', '@']);
}

#[test]
fn grayscale_into_counts_the_pixels_written() {
    let frame = Frame { data: vec![255, 0, 0], width: 2, height: 2, format: FrameFormat::Rgb, timestamp: Instant::now() };
    let mut buffer = Vec::new();
    assert_eq!(to_grayscale_into(&frame, &mut buffer), 1);
    assert_eq!(buffer, vec![76]);
}

#[test]
fn dithering_gives_one_character_per_value() {
    let charset = CharSet::Standard.chars();
    let grid: Vec<u8> = (0..12).map(|i| (i * 20) as u8).collect();
    assert_eq!(map_to_chars_dithered(&grid, 4, 3, charset, false, false).len(), 12);
    assert_eq!(map_to_chars_dithered(&grid, 4, 2, charset, false, false).len(), 12);
    assert_eq!(map_to_chars_dithered(&grid[..5], 4, 3, charset, false, false).len(), 5);
    assert_eq!(map_to_chars_dithered(&grid, 4, 3, &['#'], false, false), vec!['#'; 12]);
    assert_eq!(map_to_chars_dithered(&grid, 0, 3, charset, false, false), vec![' '; 12]);
    assert_eq!(map_to_chars_dithered(&[], 4, 3, charset, false, false), Vec::<char>::new());
    let full = map_to_chars_dithered(&grid, 4, 3, charset, false, false);
    let partial = map_to_chars_dithered(&grid[..7], 4, 3, charset, false, false);
    assert_eq!(&full[..7], &partial[..]);
    assert_eq!(full[0], ' ');
}

#[test]
fn device_line_without_a_name_is_none() {
    assert!(parse_device_line("x] [0]").is_none());
    assert!(parse_device_line("x] [0] ").is_none());
    let d = parse_device_line("[AVFoundation indev @ 0x1] [2] USB Mic").unwrap();
    assert_eq!(d.index, 2);
    assert_eq!(d.name, "USB Mic");
}
