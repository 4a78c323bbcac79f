//! The 800 x 480 black/white/red/yellow panel: its geometry and the byte
//! addresses of a partial-refresh window.
//!
//! The panel takes column addresses in bytes of eight pixels and row
//! addresses in pixels. What is sent over the bus, and when, is up to the
//! caller; this module computes what to send.
use vstd::prelude::*;

use crate::color::QuadColor;

verus! {

/// Width of the display
pub const WIDTH: u32 = 800;

/// Height of the display
pub const HEIGHT: u32 = 480;

/// Default Background Color
pub const DEFAULT_BACKGROUND_COLOR: QuadColor = QuadColor::White;

/// Bytes of one full frame: four pixels per byte.
pub const NUM_DISPLAY_BITS: usize = 800 / 4 * 480;

/// Selects gate scanning both inside and outside the partial window.
pub const PARTIAL_SCAN_BOTH: u8 = 0x01;

/// A window in panel units: columns in bytes of eight pixels, rows in pixels,
/// both ends included.
#[derive(Clone, Copy, PartialEq, Eq, Debug, Structural)]
pub struct PartialWindow {
    pub start_col: u32,
    pub end_col: u32,
    pub start_row: u32,
    pub end_row: u32,
}

/// A pixel rectangle can be addressed: its right and bottom edges fit a
/// `u32`, and it reaches past the first column byte and the first row.
pub open spec fn window_addressable(x: u32, y: u32, width: u32, height: u32) -> bool {
    &&& x + width <= u32::MAX
    &&& x + width >= 8
    &&& y + height <= u32::MAX
    &&& y + height >= 1
}

/// The window of a pixel rectangle; columns are rounded down to whole bytes.
pub open spec fn spec_partial_window(x: u32, y: u32, width: u32, height: u32) -> PartialWindow {
    PartialWindow {
        start_col: (x / 8) as u32,
        end_col: ((x + width) / 8 - 1) as u32,
        start_row: y,
        end_row: (y + height - 1) as u32,
    }
}

/// The nine bytes of the partial-window command: start and end column as
/// (upper, lower) pairs where the lower byte holds the column times eight
/// (the end with its low three bits set), start and end row as big-endian
/// pairs, then the scan mode.
pub open spec fn window_bytes(w: PartialWindow) -> Seq<u8> {
    seq![
        ((w.start_col % 256) / 32) as u8,
        ((w.start_col * 8) % 256) as u8,
        ((w.end_col % 256) / 32) as u8,
        ((w.end_col * 8) % 256 + 7) as u8,
        ((w.start_row / 256) % 256) as u8,
        (w.start_row % 256) as u8,
        ((w.end_row / 256) % 256) as u8,
        (w.end_row % 256) as u8,
        PARTIAL_SCAN_BOTH,
    ]
}

/// Computes the window of the pixel rectangle `(x, y, width, height)`:
/// start column byte `x / 8`, end column byte `(x + width) / 8 - 1`, rows
/// from `y` to `y + height - 1`. Columns that are not multiples of eight
/// are rounded down.
pub fn partial_window(x: u32, y: u32, width: u32, height: u32) -> (r: PartialWindow)
    requires
        window_addressable(x, y, width, height),
    ensures
        r == spec_partial_window(x, y, width, height),
{
    PartialWindow {
        start_col: x / 8,
        end_col: (x + width) / 8 - 1,
        start_row: y,
        end_row: y + height - 1,
    }
}

/// Encodes a window as the data of the partial-window command.
pub fn window_data(w: PartialWindow) -> (r: [u8; 9])
    requires
        w.end_col < 0x2000_0000,
    ensures
        r@ == window_bytes(w),
{
    let sc = w.start_col;
    let ec = w.end_col;
    let sr = w.start_row;
    let er = w.end_row;
    let hrst_upper = (sc as u8) >> 5;
    let hrst_lower = (sc << 3) as u8;
    let hred_upper = (ec as u8) >> 5;
    let hred_lower = ((ec << 3) as u8) | 0b111;
    let vrst_upper = (sr >> 8) as u8;
    let vrst_lower = sr as u8;
    let vred_upper = (er >> 8) as u8;
    let vred_lower = er as u8;
    assert(((sc as u8) >> 5u8) == ((sc % 256) / 32) as u8 && ((sc << 3u32) as u8) == ((sc * 8)
        % 256) as u8) by (bit_vector);
    assert(((ec as u8) >> 5u8) == ((ec % 256) / 32) as u8 && (((ec << 3u32) as u8) | 7u8) == ((ec
        * 8) % 256 + 7) as u8) by (bit_vector)
        requires
            ec < 0x2000_0000u32,
    ;
    assert(((sr >> 8u32) as u8) == ((sr / 256) % 256) as u8 && (sr as u8) == (sr % 256) as u8)
        by (bit_vector);
    assert(((er >> 8u32) as u8) == ((er / 256) % 256) as u8 && (er as u8) == (er % 256) as u8)
        by (bit_vector);
    let r = [
        hrst_upper,
        hrst_lower,
        hred_upper,
        hred_lower,
        vrst_upper,
        vrst_lower,
        vred_upper,
        vred_lower,
        PARTIAL_SCAN_BOTH,
    ];
    assert(r@ =~= window_bytes(w));
    r
}

/// What a partial update sends: the partial-window command's data, then the
/// first `data_len` bytes of the frame buffer.
#[derive(Clone, Copy, PartialEq, Eq, Debug)]
pub struct PartialUpdate {
    pub window: [u8; 9],
    pub data_len: usize,
}

/// The state of one panel session.
pub struct Epd7in5 {
    /// Background Color
    color: QuadColor,
}

impl Epd7in5 {
    /// The background color of the session.
    pub closed spec fn spec_background_color(&self) -> QuadColor {
        self.color
    }

    /// A session with the default background color.
    pub fn new() -> (r: Epd7in5)
        ensures
            r.spec_background_color() == DEFAULT_BACKGROUND_COLOR,
    {
        Epd7in5 { color: DEFAULT_BACKGROUND_COLOR }
    }

    pub fn set_background_color(&mut self, color: QuadColor)
        ensures
            final(self).spec_background_color() == color,
    {
        self.color = color;
    }

    pub fn background_color(&self) -> (r: &QuadColor)
        ensures
            *r == self.spec_background_color(),
    {
        &self.color
    }

    pub fn width(&self) -> (r: u32)
        ensures
            r == WIDTH,
    {
        WIDTH
    }

    pub fn height(&self) -> (r: u32)
        ensures
            r == HEIGHT,
    {
        HEIGHT
    }

    /// The data of the resolution command: width then height, each as a
    /// big-endian pair of bytes.
    pub fn resolution_data(&self) -> (r: [u8; 4])
        ensures
            r@ == seq![(WIDTH / 256) as u8, (WIDTH % 256) as u8, (HEIGHT / 256) as u8, (HEIGHT % 256) as u8],
    {
        let w = self.width();
        let h = self.height();
        let r = [(w >> 8) as u8, w as u8, (h >> 8) as u8, h as u8];
        assert((w >> 8u32) as u8 == 3u8 && w as u8 == 32u8 && (h >> 8u32) as u8 == 1u8 && h as u8
            == 224u8) by (bit_vector)
            requires
                w == 800u32,
                h == 480u32,
        ;
        assert(r@ =~= seq![3u8, 32u8, 1u8, 224u8]);
        r
    }

    /// Plans a partial update of the rectangle `(x, y, width, height)` from
    /// `buffer`: the window command's data, and the number of buffer bytes to
    /// send after it (the first half of the buffer).
    pub fn update_partial_frame2(
        &self,
        buffer: &[u8],
        x: u32,
        y: u32,
        width: u32,
        height: u32,
    ) -> (r: PartialUpdate)
        requires
            window_addressable(x, y, width, height),
        ensures
            r.window@ == window_bytes(spec_partial_window(x, y, width, height)),
            r.data_len == buffer@.len() / 2,
    {
        let w = partial_window(x, y, width, height);
        let window = window_data(w);
        let half = buffer.len() / 2;
        PartialUpdate { window, data_len: half }
    }
}

} // verus!
