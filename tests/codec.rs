use epd_waveshare::buffer::{buffer_len, get_pixel, pixel_byte_index, set_pixel};
use epd_waveshare::color::{Color, OctColor, QuadColor, TriColor};

#[test]
fn buffer_len_spot_checks() {
    assert_eq!(buffer_len::<Color>(800, 480), 48000);
    assert_eq!(buffer_len::<QuadColor>(800, 480), 96000);
    assert_eq!(buffer_len::<TriColor>(800, 480), 96000);
    assert_eq!(buffer_len::<OctColor>(800, 480), 192000);
}

#[test]
fn buffer_len_rounds_up() {
    assert_eq!(buffer_len::<Color>(3, 3), 2);
    assert_eq!(buffer_len::<QuadColor>(1, 5), 2);
    assert_eq!(buffer_len::<OctColor>(1, 1), 1);
    assert_eq!(buffer_len::<TriColor>(0, 10), 0);
}

#[test]
fn byte_index_per_family() {
    assert_eq!(pixel_byte_index::<Color>(17), 2);
    assert_eq!(pixel_byte_index::<QuadColor>(17), 4);
    assert_eq!(pixel_byte_index::<OctColor>(17), 8);
    assert_eq!(pixel_byte_index::<Color>(u32::MAX), 536870911);
}

#[test]
fn monochrome_round_trip_every_position() {
    let mut buf = vec![0xA5u8; 4];
    for pos in 0..32u32 {
        for c in [Color::Black, Color::White] {
            set_pixel(&mut buf, 0, pos, &c, false);
            assert_eq!(get_pixel::<Color>(&buf, 0, pos), c);
        }
    }
}

#[test]
fn monochrome_write_sets_single_bit() {
    let mut buf = vec![0x00u8; 2];
    set_pixel(&mut buf, 0, 9, &Color::White, false);
    assert_eq!(buf, vec![0x00, 0x40]);
    set_pixel(&mut buf, 0, 9, &Color::Black, false);
    assert_eq!(buf, vec![0x00, 0x00]);
}

#[test]
fn neighbours_in_one_byte_survive() {
    let mut buf = vec![0u8; 1];
    set_pixel(&mut buf, 0, 0, &QuadColor::White, false);
    set_pixel(&mut buf, 0, 1, &QuadColor::Yellow, false);
    assert_eq!(get_pixel::<QuadColor>(&buf, 0, 0), QuadColor::White);
    assert_eq!(get_pixel::<QuadColor>(&buf, 0, 1), QuadColor::Yellow);
    assert_eq!(buf[0], 0b0000_1001);

    let mut oct = vec![0u8; 1];
    set_pixel(&mut oct, 0, 0, &OctColor::Red, false);
    set_pixel(&mut oct, 0, 1, &OctColor::Green, false);
    assert_eq!(oct[0], 0x42);
    assert_eq!(get_pixel::<OctColor>(&oct, 0, 0), OctColor::Red);
    assert_eq!(get_pixel::<OctColor>(&oct, 0, 1), OctColor::Green);

    let mut mono = vec![0u8; 1];
    set_pixel(&mut mono, 0, 3, &Color::White, false);
    set_pixel(&mut mono, 0, 4, &Color::Black, false);
    assert_eq!(get_pixel::<Color>(&mono, 0, 3), Color::White);
    assert_eq!(get_pixel::<Color>(&mono, 0, 4), Color::Black);
}

#[test]
fn quad_round_trip_and_red_reads_black() {
    let mut buf = vec![0xFFu8; 2];
    for pos in 0..8u32 {
        for c in [QuadColor::Black, QuadColor::White, QuadColor::Yellow] {
            set_pixel(&mut buf, 0, pos, &c, false);
            assert_eq!(get_pixel::<QuadColor>(&buf, 0, pos), c);
        }
        set_pixel(&mut buf, 0, pos, &QuadColor::Red, false);
        assert_eq!(get_pixel::<QuadColor>(&buf, 0, pos), QuadColor::Black);
    }
    assert_eq!(buf, vec![0xFF, 0xFF]);
}

#[test]
fn octal_round_trip_every_color() {
    let all = [
        OctColor::Black,
        OctColor::White,
        OctColor::Green,
        OctColor::Blue,
        OctColor::Red,
        OctColor::Yellow,
        OctColor::Orange,
        OctColor::HiZ,
    ];
    let mut buf = vec![0x5Au8; 3];
    for pos in 0..6u32 {
        for c in all {
            set_pixel(&mut buf, 0, pos, &c, false);
            assert_eq!(get_pixel::<OctColor>(&buf, 0, pos), c);
        }
    }
}

#[test]
fn tricolor_two_planes() {
    // two planes of two bytes each
    let mut buf = vec![0u8; 4];
    set_pixel(&mut buf, 2, 1, &TriColor::Chromatic, true);
    assert_eq!(buf, vec![0x00, 0x00, 0x40, 0x00]);
    assert_eq!(get_pixel::<TriColor>(&buf, 2, 1), TriColor::Chromatic);

    set_pixel(&mut buf, 2, 8, &TriColor::White, true);
    assert_eq!(buf, vec![0x00, 0x80, 0x40, 0x00]);
    assert_eq!(get_pixel::<TriColor>(&buf, 2, 8), TriColor::White);
    assert_eq!(get_pixel::<TriColor>(&buf, 2, 1), TriColor::Chromatic);
    assert_eq!(get_pixel::<TriColor>(&buf, 2, 0), TriColor::Black);

    set_pixel(&mut buf, 2, 1, &TriColor::Black, true);
    assert_eq!(buf, vec![0x00, 0x80, 0x00, 0x00]);
}

#[test]
fn tricolor_chromatic_without_tie_break_reads_white() {
    let mut buf = vec![0u8; 2];
    set_pixel(&mut buf, 1, 0, &TriColor::Chromatic, false);
    assert_eq!(buf, vec![0x80, 0x80]);
    assert_eq!(get_pixel::<TriColor>(&buf, 1, 0), TriColor::White);
}
