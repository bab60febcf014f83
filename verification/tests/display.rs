use steelseries_screen::display::{Dimensions, Pixel, SteelSeriesDisplay, SteelSeriesLCDType};

fn every_type() -> Vec<SteelSeriesLCDType> {
    SteelSeriesLCDType::all().to_vec()
}

fn blank_except(len: usize, index: usize, byte: u8) -> Vec<u8> {
    let mut bytes = vec![0u8; len];
    bytes[index] = byte;
    bytes
}

/// Reads a packed buffer back, bit `i` being the pixel in column `i % width`
/// of row `i / width`.
fn decode(bytes: &[u8], width: usize, height: usize) -> Vec<(usize, usize, bool)> {
    let mut pixels = Vec::new();
    for i in 0..width * height {
        let on = bytes[i / 8] & (1 << (7 - i % 8)) != 0;
        pixels.push((i % width, i / width, on));
    }
    pixels
}

#[test]
fn all_lists_the_four_types_in_order() {
    assert_eq!(
        every_type(),
        vec![
            SteelSeriesLCDType::Apex,
            SteelSeriesLCDType::Arctis,
            SteelSeriesLCDType::GameDAC,
            SteelSeriesLCDType::Rival7x0,
        ]
    );
}

#[test]
fn dimensions_follow_the_table() {
    assert_eq!(SteelSeriesLCDType::Apex.dimensions(), Dimensions { width: 128, height: 40 });
    assert_eq!(SteelSeriesLCDType::Arctis.dimensions(), Dimensions { width: 128, height: 48 });
    assert_eq!(SteelSeriesLCDType::GameDAC.dimensions(), Dimensions { width: 128, height: 52 });
    assert_eq!(SteelSeriesLCDType::Rival7x0.dimensions(), Dimensions { width: 128, height: 36 });
}

#[test]
fn every_panel_fills_whole_bytes() {
    for lcd_type in every_type() {
        let size = lcd_type.dimensions();
        assert_eq!(size.width * size.height % 8, 0);
        assert_eq!(lcd_type.buffer_len() * 8, (size.width * size.height) as usize);
    }
}

#[test]
fn buffer_len_is_one_bit_per_pixel() {
    assert_eq!(SteelSeriesLCDType::Apex.buffer_len(), 640);
    assert_eq!(SteelSeriesLCDType::Arctis.buffer_len(), 768);
    assert_eq!(SteelSeriesLCDType::GameDAC.buffer_len(), 832);
    assert_eq!(SteelSeriesLCDType::Rival7x0.buffer_len(), 576);
}

#[test]
fn locate_gives_the_row_major_index() {
    let apex = SteelSeriesLCDType::Apex;
    assert_eq!(apex.locate(0, 0), Some(0));
    assert_eq!(apex.locate(127, 0), Some(127));
    assert_eq!(apex.locate(0, 1), Some(128));
    assert_eq!(apex.locate(5, 3), Some(389));
    assert_eq!(apex.locate(127, 39), Some(5119));
    assert_eq!(apex.locate(128, 0), None);
    assert_eq!(apex.locate(0, 40), None);
    assert_eq!(apex.locate(-1, 0), None);
    assert_eq!(apex.locate(0, -1), None);
    assert_eq!(SteelSeriesLCDType::GameDAC.locate(127, 51), Some(6655));
}

#[test]
fn new_display_is_blank() {
    for lcd_type in every_type() {
        let display = SteelSeriesDisplay::new(lcd_type);
        assert_eq!(display.lcd_type(), lcd_type);
        assert_eq!(display.size(), lcd_type.dimensions());
        assert_eq!(display.as_bytes(), vec![0u8; lcd_type.buffer_len()].as_slice());
        let size = lcd_type.dimensions();
        for y in 0..size.height as i32 {
            for x in 0..size.width as i32 {
                assert_eq!(display.get_pixel(x, y), Some(false));
            }
        }
    }
}

#[test]
fn clear_fills_every_byte() {
    for lcd_type in every_type() {
        let mut display = SteelSeriesDisplay::new(lcd_type);
        display.clear(true);
        assert_eq!(display.as_bytes(), vec![0xFFu8; lcd_type.buffer_len()].as_slice());
        assert_eq!(display.get_pixel(0, 0), Some(true));
        assert_eq!(display.get_pixel(127, 35), Some(true));
        display.clear(false);
        assert_eq!(display.as_bytes(), vec![0x00u8; lcd_type.buffer_len()].as_slice());
        assert_eq!(display.get_pixel(0, 0), Some(false));
    }
}

#[test]
fn clear_overrides_what_was_drawn() {
    let mut display = SteelSeriesDisplay::new(SteelSeriesLCDType::Rival7x0);
    display.set_pixel(3, 3, true);
    display.clear(false);
    assert_eq!(display.as_bytes(), vec![0u8; 576].as_slice());
    display.set_pixel(3, 3, false);
    display.clear(true);
    assert_eq!(display.as_bytes(), vec![0xFFu8; 576].as_slice());
}

#[test]
fn set_pixel_at_origin_sets_bit_seven_of_byte_zero() {
    let mut display = SteelSeriesDisplay::new(SteelSeriesLCDType::Apex);
    assert!(display.set_pixel(0, 0, true));
    assert_eq!(display.as_bytes(), blank_except(640, 0, 0b1000_0000).as_slice());
}

#[test]
fn set_pixel_at_end_of_first_row_sets_bit_zero_of_byte_fifteen() {
    let mut display = SteelSeriesDisplay::new(SteelSeriesLCDType::Apex);
    assert!(display.set_pixel(127, 0, true));
    assert_eq!(display.as_bytes(), blank_except(640, 15, 0b0000_0001).as_slice());
}

#[test]
fn set_pixel_at_start_of_last_row_sets_bit_seven_of_byte_624() {
    let mut display = SteelSeriesDisplay::new(SteelSeriesLCDType::Apex);
    assert!(display.set_pixel(0, 39, true));
    assert_eq!(display.as_bytes(), blank_except(640, 624, 0b1000_0000).as_slice());
}

#[test]
fn set_pixel_inside_a_byte() {
    let mut display = SteelSeriesDisplay::new(SteelSeriesLCDType::Arctis);
    assert!(display.set_pixel(10, 2, true));
    // bit 2 * 128 + 10 = 266: byte 33, two places from the top bit
    assert_eq!(display.as_bytes(), blank_except(768, 33, 0b0010_0000).as_slice());
}

#[test]
fn set_pixel_reads_back_and_touches_no_other_pixel() {
    let mut display = SteelSeriesDisplay::new(SteelSeriesLCDType::GameDAC);
    assert!(display.set_pixel(64, 26, true));
    for y in 0..52 {
        for x in 0..128 {
            assert_eq!(display.get_pixel(x, y), Some(x == 64 && y == 26));
        }
    }
}

#[test]
fn set_pixel_off_clears_only_that_bit() {
    let mut display = SteelSeriesDisplay::new(SteelSeriesLCDType::Apex);
    display.clear(true);
    assert!(display.set_pixel(9, 0, false));
    assert_eq!(display.get_pixel(9, 0), Some(false));
    let mut expected = vec![0xFFu8; 640];
    expected[1] = 0b1011_1111;
    assert_eq!(display.as_bytes(), expected.as_slice());
}

#[test]
fn set_pixel_twice_is_the_same_as_once() {
    let mut display = SteelSeriesDisplay::new(SteelSeriesLCDType::Apex);
    display.set_pixel(1, 1, true);
    display.set_pixel(1, 1, true);
    assert_eq!(display.as_bytes(), blank_except(640, 16, 0b0100_0000).as_slice());
}

#[test]
fn neighbours_share_a_byte_without_aliasing() {
    let mut display = SteelSeriesDisplay::new(SteelSeriesLCDType::Apex);
    display.set_pixel(0, 0, true);
    display.set_pixel(7, 0, true);
    display.set_pixel(8, 0, true);
    assert_eq!(display.as_bytes()[0], 0b1000_0001);
    assert_eq!(display.as_bytes()[1], 0b1000_0000);
    display.set_pixel(0, 0, false);
    assert_eq!(display.as_bytes()[0], 0b0000_0001);
    assert_eq!(display.as_bytes()[1], 0b1000_0000);
}

#[test]
fn drawing_outside_the_panel_changes_nothing() {
    for lcd_type in every_type() {
        let size = lcd_type.dimensions();
        let (w, h) = (size.width as i32, size.height as i32);
        let mut display = SteelSeriesDisplay::new(lcd_type);
        display.set_pixel(2, 2, true);
        let before = display.as_bytes().to_vec();
        for (x, y) in [
            (-1, 0),
            (0, -1),
            (w, 0),
            (0, h),
            (w - 1, h),
            (w, h),
            (i32::MIN, i32::MIN),
            (i32::MAX, i32::MAX),
            (-1, h - 1),
            (w + 1000, 3),
        ] {
            assert!(!display.set_pixel(x, y, true));
            assert!(!display.set_pixel(x, y, false));
            assert_eq!(display.get_pixel(x, y), None);
            assert_eq!(display.as_bytes(), before.as_slice());
        }
    }
}

#[test]
fn the_row_below_the_panel_is_outside() {
    let mut display = SteelSeriesDisplay::new(SteelSeriesLCDType::Apex);
    assert!(display.set_pixel(127, 39, true));
    assert!(!display.set_pixel(0, 40, true));
    assert_eq!(display.as_bytes(), blank_except(640, 639, 0b0000_0001).as_slice());
    assert_eq!(display.as_bytes().len(), 640);
}

#[test]
fn draw_iter_applies_every_write() {
    let mut display = SteelSeriesDisplay::new(SteelSeriesLCDType::Apex);
    let ignored = display.draw_iter(&[
        Pixel { x: 0, y: 0, on: true },
        Pixel { x: 1, y: 0, on: true },
        Pixel { x: 127, y: 39, on: true },
    ]);
    assert_eq!(ignored, vec![]);
    let mut expected = vec![0u8; 640];
    expected[0] = 0b1100_0000;
    expected[639] = 0b0000_0001;
    assert_eq!(display.as_bytes(), expected.as_slice());
}

#[test]
fn draw_iter_of_nothing_changes_nothing() {
    let mut display = SteelSeriesDisplay::new(SteelSeriesLCDType::Apex);
    display.set_pixel(4, 4, true);
    let before = display.as_bytes().to_vec();
    assert_eq!(display.draw_iter(&[]), vec![]);
    assert_eq!(display.as_bytes(), before.as_slice());
}

#[test]
fn draw_iter_last_write_wins() {
    let mut display = SteelSeriesDisplay::new(SteelSeriesLCDType::Apex);
    display.draw_iter(&[Pixel { x: 5, y: 5, on: true }, Pixel { x: 5, y: 5, on: false }]);
    assert_eq!(display.get_pixel(5, 5), Some(false));
    assert_eq!(display.as_bytes(), vec![0u8; 640].as_slice());
    display.draw_iter(&[Pixel { x: 5, y: 5, on: false }, Pixel { x: 5, y: 5, on: true }]);
    assert_eq!(display.get_pixel(5, 5), Some(true));
    assert_eq!(display.as_bytes(), blank_except(640, 80, 0b0000_0100).as_slice());
}

#[test]
fn draw_iter_last_write_wins_across_other_writes() {
    let mut display = SteelSeriesDisplay::new(SteelSeriesLCDType::Arctis);
    display.draw_iter(&[
        Pixel { x: 1, y: 1, on: true },
        Pixel { x: 2, y: 1, on: true },
        Pixel { x: 1, y: 1, on: false },
        Pixel { x: 3, y: 1, on: false },
        Pixel { x: 2, y: 1, on: true },
    ]);
    assert_eq!(display.get_pixel(1, 1), Some(false));
    assert_eq!(display.get_pixel(2, 1), Some(true));
    assert_eq!(display.get_pixel(3, 1), Some(false));
}

#[test]
fn draw_iter_lists_the_writes_it_ignores() {
    let mut display = SteelSeriesDisplay::new(SteelSeriesLCDType::Rival7x0);
    let ignored = display.draw_iter(&[
        Pixel { x: -1, y: 0, on: true },
        Pixel { x: 0, y: 0, on: true },
        Pixel { x: 0, y: 36, on: true },
        Pixel { x: 128, y: 35, on: true },
        Pixel { x: 127, y: 35, on: true },
    ]);
    assert_eq!(
        ignored,
        vec![
            Pixel { x: -1, y: 0, on: true },
            Pixel { x: 0, y: 36, on: true },
            Pixel { x: 128, y: 35, on: true },
        ]
    );
    let mut expected = vec![0u8; 576];
    expected[0] = 0b1000_0000;
    expected[575] = 0b0000_0001;
    assert_eq!(display.as_bytes(), expected.as_slice());
}

#[test]
fn bytes_decode_to_the_pattern_drawn() {
    for lcd_type in every_type() {
        let size = lcd_type.dimensions();
        let (w, h) = (size.width as usize, size.height as usize);
        let mut display = SteelSeriesDisplay::new(lcd_type);
        let lit = |x: usize, y: usize| (x * 7 + y * 13) % 5 == 0 || x == y;
        for y in 0..h {
            for x in 0..w {
                display.set_pixel(x as i32, y as i32, lit(x, y));
            }
        }
        let decoded = decode(display.as_bytes(), w, h);
        assert_eq!(decoded.len(), w * h);
        for (x, y, on) in decoded {
            assert_eq!(on, lit(x, y));
            assert_eq!(display.get_pixel(x as i32, y as i32), Some(on));
        }
    }
}

#[test]
fn displays_compare_by_type_and_content() {
    let mut a = SteelSeriesDisplay::new(SteelSeriesLCDType::Apex);
    let b = SteelSeriesDisplay::new(SteelSeriesLCDType::Apex);
    assert_eq!(a, b);
    a.set_pixel(0, 0, true);
    assert_ne!(a, b);
    assert_ne!(b, SteelSeriesDisplay::new(SteelSeriesLCDType::Arctis));
}
