use epd_waveshare::color::{Color, ColorType, OctColor, OutOfColorRangeParseError, QuadColor, TriColor};

#[test]
fn from_u8() {
    assert_eq!(Color::Black, Color::from(0u8));
    assert_eq!(Color::White, Color::from(1u8));
}

#[test]
fn u8_conversion_black() {
    assert_eq!(Color::from(Color::Black.get_bit_value()), Color::Black);
    assert_eq!(Color::from(0u8).get_bit_value(), 0u8);
}

#[test]
fn u8_conversion_white() {
    assert_eq!(Color::from(Color::White.get_bit_value()), Color::White);
    assert_eq!(Color::from(1u8).get_bit_value(), 1u8);
}

#[test]
fn test_oct() {
    let left = OctColor::Red;
    let right = OctColor::Green;
    assert_eq!(
        OctColor::split_byte(OctColor::colors_byte(left, right)),
        Ok((left, right))
    );
}

#[test]
fn test_tricolor_bitmask() {
    assert_eq!(
        TriColor::Black.bitmask(false, 0),
        (0b01111111, u16::from_le_bytes([0b00000000, 0b00000000]))
    );
    assert_eq!(
        TriColor::White.bitmask(false, 0),
        (0b01111111, u16::from_le_bytes([0b10000000, 0b00000000]))
    );
    assert_eq!(
        TriColor::Chromatic.bitmask(false, 0),
        (0b01111111, u16::from_le_bytes([0b10000000, 0b10000000]))
    );

    assert_eq!(
        TriColor::Black.bitmask(true, 0),
        (0b01111111, u16::from_le_bytes([0b00000000, 0b00000000]))
    );
    assert_eq!(
        TriColor::White.bitmask(true, 0),
        (0b01111111, u16::from_le_bytes([0b10000000, 0b00000000]))
    );
    assert_eq!(
        TriColor::Chromatic.bitmask(true, 0),
        (0b01111111, u16::from_le_bytes([0b00000000, 0b10000000]))
    );
}

const OCT_ALL: [OctColor; 8] = [
    OctColor::Black,
    OctColor::White,
    OctColor::Green,
    OctColor::Blue,
    OctColor::Red,
    OctColor::Yellow,
    OctColor::Orange,
    OctColor::HiZ,
];

#[test]
fn octal_pairs_split_back_high_nibble_first() {
    for a in OCT_ALL {
        for b in OCT_ALL {
            let byte = OctColor::colors_byte(a, b);
            assert_eq!(byte, a.get_nibble() * 16 + b.get_nibble());
            assert_eq!(OctColor::split_byte(byte), Ok((a, b)));
        }
    }
    assert_eq!(OctColor::colors_byte(OctColor::Red, OctColor::Green), 0x42);
}

#[test]
fn nibbles_follow_enumeration_order() {
    for (i, c) in OCT_ALL.iter().enumerate() {
        assert_eq!(c.get_nibble() as usize, i);
        assert_eq!(OctColor::from_nibble(i as u8), Ok(*c));
        assert_eq!(OctColor::from_nibble(0xF0 | i as u8), Ok(*c));
    }
}

#[test]
fn from_nibble_out_of_range_carries_value() {
    assert_eq!(OctColor::from_nibble(0x09), Err(OutOfColorRangeParseError(9)));
    let e = OctColor::from_nibble(0x1A).unwrap_err();
    assert_eq!(e.value(), 10);
}

#[test]
fn split_byte_reports_low_nibble_first() {
    assert_eq!(OctColor::split_byte(0x8F), Err(OutOfColorRangeParseError(15)));
    assert_eq!(OctColor::split_byte(0x82), Err(OutOfColorRangeParseError(8)));
    assert_eq!(OctColor::split_byte(0x07), Ok((OctColor::Black, OctColor::HiZ)));
}

#[test]
fn octal_decode_falls_back_to_red() {
    assert_eq!(OctColor::from_bits(2), OctColor::Green);
    assert_eq!(OctColor::from_bits(7), OctColor::HiZ);
    assert_eq!(OctColor::from_bits(8), OctColor::Red);
    assert_eq!(OctColor::from_bits(0x12), OctColor::Red);
}

#[test]
fn decode_tables_and_fallbacks() {
    assert_eq!(Color::from_bits(0), Color::Black);
    assert_eq!(Color::from_bits(0x40), Color::White);
    assert_eq!(TriColor::from_bits(0), TriColor::Black);
    assert_eq!(TriColor::from_bits(1), TriColor::Chromatic);
    assert_eq!(TriColor::from_bits(2), TriColor::White);
    assert_eq!(TriColor::from_bits(3), TriColor::White);
    assert_eq!(QuadColor::from_bits(1), QuadColor::White);
    assert_eq!(QuadColor::from_bits(2), QuadColor::Yellow);
    assert_eq!(QuadColor::from_bits(0x11), QuadColor::Red);
    assert_eq!(QuadColor::from_bits(3), QuadColor::Black);
    assert_eq!(QuadColor::from_bits(0), QuadColor::Black);
}

#[test]
fn monochrome_bitmask_selects_bit() {
    assert_eq!(Color::White.bitmask(false, 0), (0x7F, 0x80));
    assert_eq!(Color::White.bitmask(false, 11), (0xEF, 0x10));
    assert_eq!(Color::Black.bitmask(true, 7), (0xFE, 0x00));
}

#[test]
fn tricolor_tie_break_at_other_position() {
    assert_eq!(TriColor::Chromatic.bitmask(true, 9), (0xBF, 0x4000));
    assert_eq!(TriColor::Chromatic.bitmask(false, 9), (0xBF, 0x4040));
}

#[test]
fn quad_bitmask_fields() {
    assert_eq!(QuadColor::Black.bitmask(false, 0), (0xFC, 0x00));
    assert_eq!(QuadColor::White.bitmask(false, 1), (0xF3, 0x04));
    assert_eq!(QuadColor::Yellow.bitmask(false, 2), (0xCF, 0x20));
    assert_eq!(QuadColor::Red.bitmask(false, 7), (0x3F, 0xC0));
}

#[test]
fn octal_bitmask_nibbles() {
    assert_eq!(OctColor::Orange.bitmask(false, 0), (0x0F, 0x60));
    assert_eq!(OctColor::Orange.bitmask(false, 3), (0xF0, 0x06));
}

#[test]
fn pixel_fields() {
    assert_eq!(Color::pixel_field(2), (0x20, 5));
    assert_eq!(TriColor::pixel_field(15), (0x01, 0));
    assert_eq!(QuadColor::pixel_field(3), (0xC0, 6));
    assert_eq!(OctColor::pixel_field(4), (0xF0, 4));
    assert_eq!(OctColor::pixel_field(5), (0x0F, 0));
}

#[test]
fn bit_and_byte_values() {
    assert_eq!(Color::White.get_byte_value(), 0xff);
    assert_eq!(Color::Black.get_byte_value(), 0x00);
    assert_eq!(TriColor::Chromatic.get_bit_value(), 0);
    assert_eq!(TriColor::White.get_bit_value(), 1);
    assert_eq!(TriColor::Chromatic.get_byte_value(), 0x00);
    assert_eq!(TriColor::White.get_byte_value(), 0xff);
    assert_eq!(QuadColor::Yellow.get_bit_value(), 0);
    assert_eq!(QuadColor::White.get_bit_value(), 1);
    assert_eq!(QuadColor::Red.get_byte_value(), 0x00);
    assert_eq!(QuadColor::White.get_byte_value(), 0xff);
}

#[test]
fn inverse_and_strict_parse() {
    assert_eq!(Color::White.inverse(), Color::Black);
    assert_eq!(Color::Black.inverse(), Color::White);
    assert_eq!(Color::from_u8(0), Color::Black);
    assert_eq!(Color::from_u8(1), Color::White);
    assert_eq!(Color::from(7u8), Color::White);
}

#[test]
fn defaults_are_white() {
    assert_eq!(Color::default(), Color::White);
    assert_eq!(TriColor::default(), TriColor::White);
    assert_eq!(QuadColor::default(), QuadColor::White);
    assert_eq!(OctColor::default(), OctColor::White);
}

#[test]
fn octal_rgb_levels() {
    assert_eq!(OctColor::Orange.rgb(), (0xff, 0x80, 0x00));
    assert_eq!(OctColor::HiZ.rgb(), (0x80, 0x80, 0x80));
    assert_eq!(OctColor::Blue.rgb(), (0x00, 0x00, 0xff));
}

#[test]
fn octal_from_rgb_exact_and_nearest() {
    for c in OCT_ALL {
        let (r, g, b) = c.rgb();
        assert_eq!(OctColor::from_rgb(r, g, b), c);
        assert_eq!(c.distance(r, g, b), 0);
    }
    assert_eq!(OctColor::from_rgb(250, 130, 10), OctColor::Orange);
    assert_eq!(OctColor::from_rgb(10, 10, 200), OctColor::Blue);
    assert_eq!(OctColor::Black.distance(1, 2, 3), 14);
    // (64, 64, 64) is as near to black as to grey: black comes first
    assert_eq!(OctColor::Black.distance(64, 64, 64), OctColor::HiZ.distance(64, 64, 64));
    assert_eq!(OctColor::from_rgb(64, 64, 64), OctColor::Black);
}

#[test]
fn monochrome_from_rgb() {
    let white888 = (255, 255, 255);
    assert_eq!(Color::from_rgb(0, 0, 0, white888), Color::Black);
    assert_eq!(Color::from_rgb(255, 255, 255, white888), Color::White);
    assert_eq!(Color::from_rgb(128, 128, 127, white888), Color::White);
    assert_eq!(Color::from_rgb(128, 127, 127, white888), Color::Black);
    assert_eq!(Color::from_rgb(31, 63, 31, (31, 63, 31)), Color::White);
    assert_eq!(Color::from_rgb(31, 62, 31, (31, 63, 31)), Color::Black);
    assert_eq!(Color::White.rgb(), (255, 255, 255));
    assert_eq!(Color::from_binary(true), Color::Black);
    assert_eq!(Color::from_binary(false), Color::White);
}

#[test]
fn tri_and_quad_from_rgb() {
    assert_eq!(TriColor::from_rgb(0, 0, 0), TriColor::Black);
    assert_eq!(TriColor::from_rgb(255, 255, 255), TriColor::White);
    assert_eq!(TriColor::from_rgb(0, 0, 255), TriColor::Chromatic);
    assert_eq!(TriColor::Chromatic.rgb(), (255, 0, 0));
    assert_eq!(QuadColor::from_rgb(255, 255, 0), QuadColor::Yellow);
    assert_eq!(QuadColor::from_rgb(0, 255, 0), QuadColor::Red);
    assert_eq!(QuadColor::from_rgb(255, 255, 255), QuadColor::White);
    assert_eq!(QuadColor::from_rgb(0, 0, 0), QuadColor::Black);
    assert_eq!(QuadColor::Yellow.rgb(), (240, 240, 100));
    assert_eq!(QuadColor::from_binary(true), QuadColor::Black);
    assert_eq!(TriColor::from_binary(false), TriColor::White);
    assert_eq!(OctColor::from_binary(true), OctColor::Black);
}

#[test]
fn raw_graphics_values() {
    assert_eq!(Color::from_raw(0), Color::White);
    assert_eq!(Color::from_raw(1), Color::Black);
    assert_eq!(TriColor::from_raw(0), TriColor::White);
    assert_eq!(TriColor::from_raw(1), TriColor::Black);
    assert_eq!(TriColor::from_raw(2), TriColor::Chromatic);
    assert_eq!(TriColor::from_raw(3), TriColor::Chromatic);
}
