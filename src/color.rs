//! Color families of electrophoretic panels and their pixel encodings.
//!
//! Each family packs a pixel into a field of one byte (and, for the dual-plane
//! tri-color format, into the same field of a second byte that lives one plane
//! further in the frame buffer).
use vstd::prelude::*;

verus! {

/// A raw value that lies outside the range of a color family.
#[derive(Debug, PartialEq, Eq, Structural)]
pub struct OutOfColorRangeParseError(pub u8);

impl OutOfColorRangeParseError {
    fn _new(size: u8) -> (r: OutOfColorRangeParseError)
        ensures
            r.0 == size,
    {
        OutOfColorRangeParseError(size)
    }

    /// The offending raw value.
    pub open spec fn spec_value(&self) -> u8 {
        self.0
    }

    /// The offending raw value.
    pub fn value(&self) -> (r: u8)
        ensures
            r == self.spec_value(),
    {
        self.0
    }
}

/// Colors of black/white panels.
#[derive(Clone, Copy, PartialEq, Eq, Debug, Structural)]
pub enum Color {
    /// Black color
    Black,
    /// White color
    White,
}

/// Colors of black/white/chromatic panels.
#[derive(Clone, Copy, PartialEq, Eq, Debug, Structural)]
pub enum TriColor {
    /// Black color
    Black,
    /// White color
    White,
    /// Chromatic color
    Chromatic,
}

/// Colors of black/white/red/yellow panels.
#[derive(Clone, Copy, PartialEq, Eq, Debug, Structural)]
pub enum QuadColor {
    /// Black color
    Black,
    /// White color
    White,
    /// Red color
    Red,
    /// Yellow color
    Yellow,
}

/// Colors of seven-color panels (plus the high-impedance state).
#[derive(Clone, Copy, PartialEq, Eq, Debug, Structural)]
pub enum OctColor {
    /// Black Color
    Black,
    /// White Color
    White,
    /// Green Color
    Green,
    /// Blue Color
    Blue,
    /// Red Color
    Red,
    /// Yellow Color
    Yellow,
    /// Orange Color
    Orange,
    /// HiZ / Clean Color
    HiZ,
}

impl Default for Color {
    fn default() -> (r: Color)
        ensures
            r == Color::White,
    {
        Color::White
    }
}

impl Default for TriColor {
    fn default() -> (r: TriColor)
        ensures
            r == TriColor::White,
    {
        TriColor::White
    }
}

impl Default for QuadColor {
    fn default() -> (r: QuadColor)
        ensures
            r == QuadColor::White,
    {
        QuadColor::White
    }
}

impl Default for OctColor {
    fn default() -> (r: OctColor)
        ensures
            r == OctColor::White,
    {
        OctColor::White
    }
}

/// A color family as a frame buffer stores it.
///
/// A pixel at linear position `pos` owns a field of `BITS_PER_PIXEL_PER_BUFFER`
/// bits in byte `pos * BITS_PER_PIXEL_PER_BUFFER / 8` of every plane.
pub trait ColorType: Sized {
    /// Number of bits one pixel takes in a single plane.
    const BITS_PER_PIXEL_PER_BUFFER: usize;

    /// Number of planes: 2 for the split black/white + chromatic format, else 1.
    const BUFFER_COUNT: usize;

    /// The mask that clears the pixel's field, and the bits to set in it:
    /// the low byte for the first plane, the high byte for the second.
    spec fn spec_bitmask(&self, bwrbit: bool, pos: u32) -> (u8, u16);

    /// The color that a raw field pattern stands for.
    spec fn spec_from_bits(bits: u8) -> Self;

    /// The bits that the pixel at `pos` owns within its byte, and the shift
    /// that brings them down to bit 0.
    spec fn spec_pixel_field(pos: u32) -> (u8, u32);

    /// Returns `(mask, bits)`: `byte & mask` clears this pixel's field in a
    /// plane, and `bits` holds what to set there (low byte: first plane, high
    /// byte: second plane). `bwrbit` chooses the first-plane bit that goes
    /// with a chromatic color.
    fn bitmask(&self, bwrbit: bool, pos: u32) -> (r: (u8, u16))
        ensures
            r == self.spec_bitmask(bwrbit, pos),
            r.0 == !Self::spec_pixel_field(pos).0,
    ;

    /// Decodes a field pattern; total, with a fixed fallback color.
    fn from_bits(bits: u8) -> (r: Self)
        ensures
            r == Self::spec_from_bits(bits),
    ;

    /// The owned bits and the shift of the pixel at `pos`.
    fn pixel_field(pos: u32) -> (r: (u8, u32))
        ensures
            r == Self::spec_pixel_field(pos),
            r.1 < 8,
    ;

    /// The two family constants take one of the values that a byte can be
    /// split by.
    proof fn lemma_layout()
        ensures
            Self::BITS_PER_PIXEL_PER_BUFFER == 1 || Self::BITS_PER_PIXEL_PER_BUFFER == 2
                || Self::BITS_PER_PIXEL_PER_BUFFER == 4,
            Self::BUFFER_COUNT == 1 || Self::BUFFER_COUNT == 2,
    ;
}

/// The single bit of a one-bit-per-pixel format, most significant bit first.
pub open spec fn single_bit(pos: u32) -> u8 {
    0x80u8 >> (pos % 8)
}

impl ColorType for Color {
    const BITS_PER_PIXEL_PER_BUFFER: usize = 1;

    const BUFFER_COUNT: usize = 1;

    open spec fn spec_bitmask(&self, bwrbit: bool, pos: u32) -> (u8, u16) {
        let bit = single_bit(pos);
        match self {
            Color::Black => (!bit, 0u16),
            Color::White => (!bit, bit as u16),
        }
    }

    open spec fn spec_from_bits(bits: u8) -> Color {
        if bits == 0 {
            Color::Black
        } else {
            Color::White
        }
    }

    open spec fn spec_pixel_field(pos: u32) -> (u8, u32) {
        (single_bit(pos), (7 - pos % 8) as u32)
    }

    fn bitmask(&self, bwrbit: bool, pos: u32) -> (r: (u8, u16)) {
        let bit: u8 = 0x80u8 >> (pos % 8);
        match self {
            Color::Black => (!bit, 0u16),
            Color::White => (!bit, bit as u16),
        }
    }

    fn from_bits(bits: u8) -> (r: Color) {
        match bits {
            0x00 => Color::Black,
            _ => Color::White,
        }
    }

    fn pixel_field(pos: u32) -> (r: (u8, u32)) {
        (0x80u8 >> (pos % 8), 7 - pos % 8)
    }

    proof fn lemma_layout()
        ensures
            Self::BITS_PER_PIXEL_PER_BUFFER == 1,
            Self::BUFFER_COUNT == 1,
    {
    }
}

impl ColorType for TriColor {
    const BITS_PER_PIXEL_PER_BUFFER: usize = 1;

    const BUFFER_COUNT: usize = 2;

    open spec fn spec_bitmask(&self, bwrbit: bool, pos: u32) -> (u8, u16) {
        let bit = single_bit(pos);
        match self {
            TriColor::Black => (!bit, 0u16),
            TriColor::White => (!bit, bit as u16),
            TriColor::Chromatic => (
                !bit,
                if bwrbit {
                    (bit as u16) << 8u16
                } else {
                    (bit as u16) << 8u16 | bit as u16
                },
            ),
        }
    }

    /// The pattern holds the first-plane bit at bit 1 and the chromatic-plane
    /// bit at bit 0.
    open spec fn spec_from_bits(bits: u8) -> TriColor {
        if bits == 0 {
            TriColor::Black
        } else if bits == 1 {
            TriColor::Chromatic
        } else {
            TriColor::White
        }
    }

    open spec fn spec_pixel_field(pos: u32) -> (u8, u32) {
        (single_bit(pos), (7 - pos % 8) as u32)
    }

    fn bitmask(&self, bwrbit: bool, pos: u32) -> (r: (u8, u16)) {
        let bit: u8 = 0x80u8 >> (pos % 8);
        match self {
            TriColor::Black => (!bit, 0u16),
            TriColor::White => (!bit, bit as u16),
            TriColor::Chromatic => (
                !bit,
                if bwrbit {
                    (bit as u16) << 8u16
                } else {
                    (bit as u16) << 8u16 | bit as u16
                },
            ),
        }
    }

    fn from_bits(bits: u8) -> (r: TriColor) {
        match bits {
            0x00 => TriColor::Black,
            0x01 => TriColor::Chromatic,
            _ => TriColor::White,
        }
    }

    fn pixel_field(pos: u32) -> (r: (u8, u32)) {
        (0x80u8 >> (pos % 8), 7 - pos % 8)
    }

    proof fn lemma_layout()
        ensures
            Self::BITS_PER_PIXEL_PER_BUFFER == 1,
            Self::BUFFER_COUNT == 2,
    {
    }
}

/// The two-bit code of a quad color: black `00`, white `01`, yellow `10`, red `11`.
pub open spec fn quad_code(c: QuadColor) -> u8 {
    match c {
        QuadColor::Black => 0,
        QuadColor::White => 1,
        QuadColor::Yellow => 2,
        QuadColor::Red => 3,
    }
}

impl ColorType for QuadColor {
    const BITS_PER_PIXEL_PER_BUFFER: usize = 2;

    const BUFFER_COUNT: usize = 1;

    open spec fn spec_bitmask(&self, bwrbit: bool, pos: u32) -> (u8, u16) {
        let shift = ((pos % 4) * 2) as u32;
        (!(0x03u8 << shift), (quad_code(*self) << shift) as u16)
    }

    /// Red is recognised by the pattern `0x11`, which a two-bit field never
    /// holds: a red pixel reads back as black.
    open spec fn spec_from_bits(bits: u8) -> QuadColor {
        if bits == 0x01 {
            QuadColor::White
        } else if bits == 0x02 {
            QuadColor::Yellow
        } else if bits == 0x11 {
            QuadColor::Red
        } else {
            QuadColor::Black
        }
    }

    open spec fn spec_pixel_field(pos: u32) -> (u8, u32) {
        let shift = ((pos % 4) * 2) as u32;
        (0x03u8 << shift, shift)
    }

    fn bitmask(&self, bwrbit: bool, pos: u32) -> (r: (u8, u16)) {
        let shift: u32 = (pos % 4) * 2;
        let mask: u8 = !(0x03u8 << shift);
        let color_bits: u8 = match self {
            QuadColor::Black => 0b00,
            QuadColor::White => 0b01,
            QuadColor::Yellow => 0b10,
            QuadColor::Red => 0b11,
        };
        let value = (color_bits << shift) as u16;
        (mask, value)
    }

    fn from_bits(bits: u8) -> (r: QuadColor) {
        match bits {
            0x01 => QuadColor::White,
            0x02 => QuadColor::Yellow,
            0x11 => QuadColor::Red,
            _ => QuadColor::Black,
        }
    }

    fn pixel_field(pos: u32) -> (r: (u8, u32)) {
        let shift: u32 = (pos % 4) * 2;
        (0x03u8 << shift, shift)
    }

    proof fn lemma_layout()
        ensures
            Self::BITS_PER_PIXEL_PER_BUFFER == 2,
            Self::BUFFER_COUNT == 1,
    {
    }
}

/// The nibble of an octal color, in enumeration order.
pub open spec fn oct_nibble(c: OctColor) -> u8 {
    match c {
        OctColor::Black => 0,
        OctColor::White => 1,
        OctColor::Green => 2,
        OctColor::Blue => 3,
        OctColor::Red => 4,
        OctColor::Yellow => 5,
        OctColor::Orange => 6,
        OctColor::HiZ => 7,
    }
}

/// The octal color of a nibble value in `0..=7`.
pub open spec fn oct_of_nibble(n: u8) -> OctColor
    recommends
        n < 8,
{
    if n == 0 {
        OctColor::Black
    } else if n == 1 {
        OctColor::White
    } else if n == 2 {
        OctColor::Green
    } else if n == 3 {
        OctColor::Blue
    } else if n == 4 {
        OctColor::Red
    } else if n == 5 {
        OctColor::Yellow
    } else if n == 6 {
        OctColor::Orange
    } else {
        OctColor::HiZ
    }
}

impl ColorType for OctColor {
    const BITS_PER_PIXEL_PER_BUFFER: usize = 4;

    const BUFFER_COUNT: usize = 1;

    /// Even positions take the high nibble, odd positions the low nibble.
    open spec fn spec_bitmask(&self, bwrbit: bool, pos: u32) -> (u8, u16) {
        let bits = oct_nibble(*self) as u16;
        (!(0xF0u8 >> (((pos % 2) * 4) as u32)), if pos % 2 == 1 {
            bits
        } else {
            bits << 4u16
        })
    }

    /// A nibble value names its color; any other pattern reads as red.
    open spec fn spec_from_bits(bits: u8) -> OctColor {
        if bits < 8 {
            oct_of_nibble(bits)
        } else {
            OctColor::Red
        }
    }

    open spec fn spec_pixel_field(pos: u32) -> (u8, u32) {
        (0xF0u8 >> (((pos % 2) * 4) as u32), (4 - (pos % 2) * 4) as u32)
    }

    fn bitmask(&self, bwrbit: bool, pos: u32) -> (r: (u8, u16)) {
        let mask: u8 = !(0xF0u8 >> ((pos % 2) * 4));
        let bits = self.get_nibble() as u16;
        (mask, if pos % 2 == 1 {
            bits
        } else {
            bits << 4u16
        })
    }

    fn from_bits(bits: u8) -> (r: OctColor) {
        match OctColor::from_nibble(bits) {
            Ok(c) if bits < 8 => c,
            _ => OctColor::Red,
        }
    }

    fn pixel_field(pos: u32) -> (r: (u8, u32)) {
        (0xF0u8 >> ((pos % 2) * 4), 4 - (pos % 2) * 4)
    }

    proof fn lemma_layout()
        ensures
            Self::BITS_PER_PIXEL_PER_BUFFER == 4,
            Self::BUFFER_COUNT == 1,
    {
    }
}

/// The red, green and blue levels that stand for an octal color.
pub open spec fn oct_rgb(c: OctColor) -> (u8, u8, u8) {
    match c {
        OctColor::White => (0xff, 0xff, 0xff),
        OctColor::Black => (0x00, 0x00, 0x00),
        OctColor::Green => (0x00, 0xff, 0x00),
        OctColor::Blue => (0x00, 0x00, 0xff),
        OctColor::Red => (0xff, 0x00, 0x00),
        OctColor::Yellow => (0xff, 0xff, 0x00),
        OctColor::Orange => (0xff, 0x80, 0x00),
        OctColor::HiZ => (0x80, 0x80, 0x80),
    }
}

/// Two octal colors in one byte, the first in the high nibble.
pub open spec fn spec_colors_byte(a: OctColor, b: OctColor) -> u8 {
    (oct_nibble(a) * 16 + oct_nibble(b)) as u8
}

/// The color named by the low four bits of `nibble`, or an error carrying
/// those four bits.
pub open spec fn spec_from_nibble(nibble: u8) -> Result<OctColor, OutOfColorRangeParseError> {
    let n = (nibble % 16) as u8;
    if n < 8 {
        Ok(oct_of_nibble(n))
    } else {
        Err(OutOfColorRangeParseError(n))
    }
}

/// Both nibbles of `byte` as colors, high nibble first; an error on the low
/// nibble comes before one on the high nibble.
pub open spec fn spec_split_byte(byte: u8) -> Result<(OctColor, OctColor), OutOfColorRangeParseError> {
    match spec_from_nibble(byte) {
        Err(e) => Err(e),
        Ok(low) => match spec_from_nibble((byte / 16) as u8) {
            Err(e) => Err(e),
            Ok(high) => Ok((high, low)),
        },
    }
}

/// Packing two colors into a byte and splitting that byte gives back both
/// colors, the first packed coming first.
pub proof fn lemma_split_colors_byte(a: OctColor, b: OctColor)
    ensures
        spec_split_byte(spec_colors_byte(a, b)) == Ok::<(OctColor, OctColor), OutOfColorRangeParseError>(
            (a, b),
        ),
{
    let byte = spec_colors_byte(a, b);
    assert(byte % 16 == oct_nibble(b));
    assert(byte / 16 == oct_nibble(a));
    assert(oct_of_nibble(oct_nibble(a)) == a);
    assert(oct_of_nibble(oct_nibble(b)) == b);
}

impl OctColor {
    /// Gets the nibble representation of the color as the display needs it.
    pub fn get_nibble(self) -> (r: u8)
        ensures
            r == oct_nibble(self),
            r < 8,
    {
        match self {
            OctColor::Black => 0x00,
            OctColor::White => 0x01,
            OctColor::Green => 0x02,
            OctColor::Blue => 0x03,
            OctColor::Red => 0x04,
            OctColor::Yellow => 0x05,
            OctColor::Orange => 0x06,
            OctColor::HiZ => 0x07,
        }
    }

    /// Packs two colors into one byte, the first in the high nibble.
    pub fn colors_byte(a: OctColor, b: OctColor) -> (r: u8)
        ensures
            r == spec_colors_byte(a, b),
    {
        let hi = a.get_nibble();
        let lo = b.get_nibble();
        assert((hi << 4u8) | lo == hi * 16 + lo) by (bit_vector)
            requires
                hi < 8,
                lo < 8,
        ;
        hi << 4 | lo
    }

    /// Takes the low four bits and converts them to a color if they name one.
    pub fn from_nibble(nibble: u8) -> (r: Result<OctColor, OutOfColorRangeParseError>)
        ensures
            r == spec_from_nibble(nibble),
    {
        let low = nibble & 0xf;
        assert(nibble & 0xf == nibble % 16) by (bit_vector);
        match low {
            0x00 => Ok(OctColor::Black),
            0x01 => Ok(OctColor::White),
            0x02 => Ok(OctColor::Green),
            0x03 => Ok(OctColor::Blue),
            0x04 => Ok(OctColor::Red),
            0x05 => Ok(OctColor::Yellow),
            0x06 => Ok(OctColor::Orange),
            0x07 => Ok(OctColor::HiZ),
            e => Err(OutOfColorRangeParseError::_new(e)),
        }
    }

    /// Splits a byte into its two nibbles and converts both, high nibble first.
    /// The low nibble is parsed first, so its error wins when both are out of range.
    pub fn split_byte(byte: u8) -> (r: Result<(OctColor, OctColor), OutOfColorRangeParseError>)
        ensures
            r == spec_split_byte(byte),
    {
        assert(byte & 0xf == byte % 16 && (byte >> 4u8) & 0xf == byte / 16) by (bit_vector);
        let low = match OctColor::from_nibble(byte & 0xf) {
            Ok(c) => c,
            Err(e) => {
                return Err(e);
            },
        };
        let high = match OctColor::from_nibble((byte >> 4) & 0xf) {
            Ok(c) => c,
            Err(e) => {
                return Err(e);
            },
        };
        Ok((high, low))
    }

    /// Converts to a limited range of RGB values.
    pub fn rgb(self) -> (r: (u8, u8, u8))
        ensures
            r == oct_rgb(self),
    {
        match self {
            OctColor::White => (0xff, 0xff, 0xff),
            OctColor::Black => (0x00, 0x00, 0x00),
            OctColor::Green => (0x00, 0xff, 0x00),
            OctColor::Blue => (0x00, 0x00, 0xff),
            OctColor::Red => (0xff, 0x00, 0x00),
            OctColor::Yellow => (0xff, 0xff, 0x00),
            OctColor::Orange => (0xff, 0x80, 0x00),
            OctColor::HiZ => (0x80, 0x80, 0x80),
        }
    }
}

impl Color {
    /// Gets the one-bit encoding of the color.
    pub fn get_bit_value(self) -> (r: u8)
        ensures
            r == (if self == Color::White { 1u8 } else { 0u8 }),
    {
        match self {
            Color::White => 1u8,
            Color::Black => 0u8,
        }
    }

    /// Gets a full byte of pixels of this color.
    pub fn get_byte_value(self) -> (r: u8)
        ensures
            r == (if self == Color::White { 0xffu8 } else { 0x00u8 }),
    {
        match self {
            Color::White => 0xff,
            Color::Black => 0x00,
        }
    }

    /// Parses 0 as black and 1 as white.
    pub fn from_u8(val: u8) -> (r: Color)
        requires
            val <= 1,
        ensures
            r == (if val == 0 { Color::Black } else { Color::White }),
    {
        match val {
            0 => Color::Black,
            _ => Color::White,
        }
    }

    /// Returns the other color: black for white and white for black.
    pub fn inverse(self) -> (r: Color)
        ensures
            r != self,
    {
        match self {
            Color::White => Color::Black,
            Color::Black => Color::White,
        }
    }
}

/// 0 is black, any other value white (the strict form is `Color::from_u8`).
impl From<u8> for Color {
    fn from(value: u8) -> (r: Color) {
        if value == 0 {
            Color::Black
        } else {
            Color::White
        }
    }
}

impl vstd::std_specs::convert::FromSpecImpl<u8> for Color {
    open spec fn obeys_from_spec() -> bool {
        true
    }

    open spec fn from_spec(v: u8) -> Color {
        if v == 0 {
            Color::Black
        } else {
            Color::White
        }
    }
}

impl TriColor {
    /// Gets the black/white-plane bit of the color.
    pub fn get_bit_value(self) -> (r: u8)
        ensures
            r == (if self == TriColor::White { 1u8 } else { 0u8 }),
    {
        match self {
            TriColor::White => 1u8,
            TriColor::Black | TriColor::Chromatic => 0u8,
        }
    }

    /// Gets a full black/white-plane byte of pixels of this color.
    pub fn get_byte_value(self) -> (r: u8)
        ensures
            r == (if self == TriColor::White { 0xffu8 } else { 0x00u8 }),
    {
        match self {
            TriColor::White => 0xff,
            TriColor::Black | TriColor::Chromatic => 0x00,
        }
    }
}

impl QuadColor {
    /// Gets the black/white bit of the color: 1 for white only.
    pub fn get_bit_value(self) -> (r: u8)
        ensures
            r == (if self == QuadColor::White { 1u8 } else { 0u8 }),
    {
        match self {
            QuadColor::White => 1u8,
            _ => 0u8,
        }
    }

    /// Gets a full byte for this color on a black/white plane: 0xff for white only.
    pub fn get_byte_value(self) -> (r: u8)
        ensures
            r == (if self == QuadColor::White { 0xffu8 } else { 0x00u8 }),
    {
        match self {
            QuadColor::White => 0xff,
            _ => 0x00,
        }
    }
}

/// The squared distance between an octal color and the levels `(r, g, b)`.
pub open spec fn oct_distance(c: OctColor, r: u8, g: u8, b: u8) -> int {
    let (cr, cg, cb) = oct_rgb(c);
    (cr - r) * (cr - r) + (cg - g) * (cg - g) + (cb - b) * (cb - b)
}

/// `c` is the octal color nearest to `(r, g, b)`: none is nearer, and none
/// that comes before it in enumeration order is as near.
pub open spec fn is_nearest_oct(c: OctColor, r: u8, g: u8, b: u8) -> bool {
    &&& forall|n: u8| n < 8 ==> oct_distance(c, r, g, b) <= oct_distance(oct_of_nibble(n), r, g, b)
    &&& forall|n: u8| n < oct_nibble(c) ==> oct_distance(c, r, g, b) < oct_distance(oct_of_nibble(n), r, g, b)
}

/// The square of the difference of two levels.
fn level_distance(a: u8, b: u8) -> (r: u32)
    ensures
        r == (a - b) * (a - b),
        r <= 255 * 255,
{
    let d: u32 = if a > b {
        (a - b) as u32
    } else {
        (b - a) as u32
    };
    assert(d * d <= 255 * 255 && d * d == (a - b) * (a - b)) by (nonlinear_arith)
        requires
            d <= 255,
            d == a - b || d == b - a,
    ;
    d * d
}

impl OctColor {
    /// The color of a nibble value in `0..=7`.
    fn of_index(n: u8) -> (r: OctColor)
        requires
            n < 8,
        ensures
            r == oct_of_nibble(n),
    {
        match OctColor::from_nibble(n) {
            Ok(c) => c,
            Err(_) => OctColor::HiZ,
        }
    }

    /// The squared distance between this color and `(r, g, b)`.
    pub fn distance(self, r: u8, g: u8, b: u8) -> (d: u32)
        ensures
            d == oct_distance(self, r, g, b),
    {
        let (cr, cg, cb) = self.rgb();
        level_distance(cr, r) + level_distance(cg, g) + level_distance(cb, b)
    }

    /// The color nearest to the levels `(r, g, b)`; a color that matches them
    /// exactly is at distance zero and so is the one picked.
    pub fn from_rgb(r: u8, g: u8, b: u8) -> (c: OctColor)
        ensures
            is_nearest_oct(c, r, g, b),
    {
        let mut best = OctColor::Black;
        let mut best_d = best.distance(r, g, b);
        let mut n: u8 = 1;
        while n < 8
            invariant
                1 <= n <= 8,
                best_d == oct_distance(best, r, g, b),
                oct_nibble(best) < n,
                forall|k: u8| k < n ==> best_d <= oct_distance(oct_of_nibble(k), r, g, b),
                forall|k: u8| k < oct_nibble(best) ==> best_d < oct_distance(oct_of_nibble(k), r, g, b),
            decreases 8 - n,
        {
            let c = OctColor::of_index(n);
            let d = c.distance(r, g, b);
            if d < best_d {
                best = c;
                best_d = d;
            }
            n = n + 1;
        }
        best
    }
}

/// The black/white color of `(r, g, b)` in a format whose white is `white`:
/// black and that white map to themselves, any other color to white when its
/// levels add up to more than 382, else to black.
pub open spec fn spec_color_of_rgb(r: u8, g: u8, b: u8, white: (u8, u8, u8)) -> Color {
    if r == 0 && g == 0 && b == 0 {
        Color::Black
    } else if (r, g, b) == white {
        Color::White
    } else if r + g + b > 382 {
        Color::White
    } else {
        Color::Black
    }
}

impl Color {
    /// Converts the levels `(r, g, b)` of a format whose white is `white`.
    pub fn from_rgb(r: u8, g: u8, b: u8, white: (u8, u8, u8)) -> (c: Color)
        ensures
            c == spec_color_of_rgb(r, g, b, white),
    {
        if r == 0 && g == 0 && b == 0 {
            Color::Black
        } else if r == white.0 && g == white.1 && b == white.2 {
            Color::White
        } else if r as u16 + g as u16 + b as u16 > 255 * 3 / 2 {
            Color::White
        } else {
            Color::Black
        }
    }

    /// The 8-bit levels of the color.
    pub fn rgb(self) -> (r: (u8, u8, u8))
        ensures
            r == (if self == Color::White { (255u8, 255u8, 255u8) } else { (0u8, 0u8, 0u8) }),
    {
        match self {
            Color::Black => (0, 0, 0),
            Color::White => (255, 255, 255),
        }
    }

    /// A raw one-bit graphics value: 0 is white, anything else black.
    pub fn from_raw(bit: u8) -> (c: Color)
        ensures
            c == (if bit == 0 { Color::White } else { Color::Black }),
    {
        if bit == 0 {
            Color::White
        } else {
            Color::Black
        }
    }

    /// A binary color: on is black, off is white.
    pub fn from_binary(on: bool) -> (c: Color)
        ensures
            c == (if on { Color::Black } else { Color::White }),
    {
        if on {
            Color::Black
        } else {
            Color::White
        }
    }
}

impl TriColor {
    /// Black and white map to themselves; any other color is chromatic.
    pub fn from_rgb(r: u8, g: u8, b: u8) -> (c: TriColor)
        ensures
            c == (if r == 0 && g == 0 && b == 0 {
                TriColor::Black
            } else if r == 255 && g == 255 && b == 255 {
                TriColor::White
            } else {
                TriColor::Chromatic
            }),
    {
        if r == 0 && g == 0 && b == 0 {
            TriColor::Black
        } else if r == 255 && g == 255 && b == 255 {
            TriColor::White
        } else {
            TriColor::Chromatic
        }
    }

    /// The 8-bit levels of the color; chromatic shows as red.
    pub fn rgb(self) -> (r: (u8, u8, u8))
        ensures
            r == (match self {
                TriColor::Black => (0u8, 0u8, 0u8),
                TriColor::White => (255u8, 255u8, 255u8),
                TriColor::Chromatic => (255u8, 0u8, 0u8),
            }),
    {
        match self {
            TriColor::Black => (0, 0, 0),
            TriColor::White => (255, 255, 255),
            TriColor::Chromatic => (255, 0, 0),
        }
    }

    /// A raw two-bit graphics value: `00` is white, `01` black, anything
    /// else chromatic.
    pub fn from_raw(bits: u8) -> (c: TriColor)
        ensures
            c == (if bits == 0 {
                TriColor::White
            } else if bits == 1 {
                TriColor::Black
            } else {
                TriColor::Chromatic
            }),
    {
        if bits == 0b00 {
            TriColor::White
        } else if bits == 0b01 {
            TriColor::Black
        } else {
            TriColor::Chromatic
        }
    }

    /// A binary color: on is black, off is white.
    pub fn from_binary(on: bool) -> (c: TriColor)
        ensures
            c == (if on { TriColor::Black } else { TriColor::White }),
    {
        if on {
            TriColor::Black
        } else {
            TriColor::White
        }
    }
}

impl QuadColor {
    /// Black, white and yellow map to themselves; any other color is red.
    pub fn from_rgb(r: u8, g: u8, b: u8) -> (c: QuadColor)
        ensures
            c == (if r == 0 && g == 0 && b == 0 {
                QuadColor::Black
            } else if r == 255 && g == 255 && b == 255 {
                QuadColor::White
            } else if r == 255 && g == 255 && b == 0 {
                QuadColor::Yellow
            } else {
                QuadColor::Red
            }),
    {
        if r == 0 && g == 0 && b == 0 {
            QuadColor::Black
        } else if r == 255 && g == 255 && b == 255 {
            QuadColor::White
        } else if r == 255 && g == 255 && b == 0 {
            QuadColor::Yellow
        } else {
            QuadColor::Red
        }
    }

    /// The levels a screen shows the color with, softened from the pure
    /// colors so that white and yellow are not glaring.
    pub fn rgb(self) -> (r: (u8, u8, u8))
        ensures
            r == (match self {
                QuadColor::Black => (10u8, 10u8, 10u8),
                QuadColor::White => (240u8, 240u8, 240u8),
                QuadColor::Yellow => (240u8, 240u8, 100u8),
                QuadColor::Red => (200u8, 50u8, 50u8),
            }),
    {
        match self {
            QuadColor::Black => (10, 10, 10),
            QuadColor::White => (240, 240, 240),
            QuadColor::Yellow => (240, 240, 100),
            QuadColor::Red => (200, 50, 50),
        }
    }

    /// A binary color: on is black, off is white.
    pub fn from_binary(on: bool) -> (c: QuadColor)
        ensures
            c == (if on { QuadColor::Black } else { QuadColor::White }),
    {
        if on {
            QuadColor::Black
        } else {
            QuadColor::White
        }
    }
}

impl OctColor {
    /// A binary color: on is black, off is white.
    pub fn from_binary(on: bool) -> (c: OctColor)
        ensures
            c == (if on { OctColor::Black } else { OctColor::White }),
    {
        if on {
            OctColor::Black
        } else {
            OctColor::White
        }
    }
}

} // verus!
