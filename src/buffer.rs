//! The frame-buffer codec: where a pixel lives in a packed buffer, how a
//! color is written into it, and how it is read back.
use vstd::prelude::*;

use crate::color::ColorType;

verus! {

/// `ceil(width * height * bits * count / 8)`: the bytes a frame needs.
pub open spec fn spec_buffer_len(width: int, height: int, bits: int, count: int) -> int {
    (width * height * bits * count + 7) / 8
}

/// The byte of a plane that holds the pixel at linear position `pos`.
pub open spec fn pixel_index<C: ColorType>(pos: u32) -> int {
    pos * C::BITS_PER_PIXEL_PER_BUFFER / 8
}

/// `byte` with the bits outside `mask` cleared and `bits` set.
pub open spec fn merge(byte: u8, mask: u8, bits: u8) -> u8 {
    (byte & mask) | bits
}

/// The field `owned` of `byte`, shifted down to bit 0.
pub open spec fn extract(byte: u8, owned: u8, shift: u32) -> u8 {
    (byte & owned) >> shift
}

/// The buffer after the pixel at `pos` is set to `c`; the second plane, if
/// the family has one, starts `plane_len` bytes after the first.
pub open spec fn written<C: ColorType>(
    buf: Seq<u8>,
    plane_len: int,
    pos: u32,
    c: C,
    bwrbit: bool,
) -> Seq<u8> {
    let (mask, bits) = c.spec_bitmask(bwrbit, pos);
    let i = pixel_index::<C>(pos);
    let first = buf.update(i, merge(buf[i], mask, bits as u8));
    if C::BUFFER_COUNT == 2 {
        first.update(i + plane_len, merge(first[i + plane_len], mask, (bits >> 8u16) as u8))
    } else {
        first
    }
}

/// The raw pattern of the pixel at `pos`: its field in the first plane and,
/// for a two-plane family, that field shifted up by one with the second
/// plane's field below it.
pub open spec fn read_bits<C: ColorType>(buf: Seq<u8>, plane_len: int, pos: u32) -> u8 {
    let (owned, shift) = C::spec_pixel_field(pos);
    let i = pixel_index::<C>(pos);
    let first = extract(buf[i], owned, shift);
    if C::BUFFER_COUNT == 2 {
        (first << 1u8) | extract(buf[i + plane_len], owned, shift)
    } else {
        first
    }
}

/// The color that the buffer holds at `pos`.
pub open spec fn read<C: ColorType>(buf: Seq<u8>, plane_len: int, pos: u32) -> C {
    C::spec_from_bits(read_bits::<C>(buf, plane_len, pos))
}

/// The pixel at `pos` lies inside a buffer of `len` bytes, in every plane.
pub open spec fn pixel_in_buffer<C: ColorType>(len: int, plane_len: int, pos: u32) -> bool {
    &&& pixel_index::<C>(pos) < len
    &&& C::BUFFER_COUNT == 2 ==> 0 <= plane_len && pixel_index::<C>(pos) + plane_len < len
}

/// The number of bytes a `width` x `height` frame of family `C` needs,
/// all planes together.
pub fn buffer_len<C: ColorType>(width: usize, height: usize) -> (r: usize)
    requires
        width * height * C::BITS_PER_PIXEL_PER_BUFFER * C::BUFFER_COUNT + 7 <= usize::MAX,
    ensures
        r == spec_buffer_len(
            width as int,
            height as int,
            C::BITS_PER_PIXEL_PER_BUFFER as int,
            C::BUFFER_COUNT as int,
        ),
{
    proof {
        C::lemma_layout();
        assert(0 <= width * height <= width * height * C::BITS_PER_PIXEL_PER_BUFFER) by (nonlinear_arith)
            requires
                C::BITS_PER_PIXEL_PER_BUFFER >= 1,
        ;
        assert(0 <= width * height * C::BITS_PER_PIXEL_PER_BUFFER <= width * height
            * C::BITS_PER_PIXEL_PER_BUFFER * C::BUFFER_COUNT) by (nonlinear_arith)
            requires
                C::BUFFER_COUNT >= 1,
        ;
    }
    let area = width * height;
    let bits = area * C::BITS_PER_PIXEL_PER_BUFFER;
    let total = bits * C::BUFFER_COUNT;
    (total + 7) / 8
}

/// The byte of a plane that holds the pixel at `pos`.
pub fn pixel_byte_index<C: ColorType>(pos: u32) -> (r: u64)
    ensures
        r == pixel_index::<C>(pos),
{
    proof {
        C::lemma_layout();
        assert(pos * C::BITS_PER_PIXEL_PER_BUFFER <= 4 * 0xffff_ffffu64) by (nonlinear_arith)
            requires
                C::BITS_PER_PIXEL_PER_BUFFER <= 4,
                pos <= 0xffff_ffffu64,
        ;
    }
    (pos as u64) * (C::BITS_PER_PIXEL_PER_BUFFER as u64) / 8
}

/// Writes `color` at `pos`: `byte = (byte & mask) | bits` in the first plane
/// and, for a two-plane family, with the high byte of `bits` at
/// `plane_len` bytes further.
pub fn set_pixel<C: ColorType>(
    buffer: &mut Vec<u8>,
    plane_len: usize,
    pos: u32,
    color: &C,
    bwrbit: bool,
)
    requires
        pixel_in_buffer::<C>(old(buffer).len() as int, plane_len as int, pos),
    ensures
        final(buffer)@ == written::<C>(old(buffer)@, plane_len as int, pos, *color, bwrbit),
{
    let (mask, bits) = color.bitmask(bwrbit, pos);
    let i = pixel_byte_index::<C>(pos) as usize;
    let first = (buffer[i] & mask) | (bits as u8);
    buffer.set(i, first);
    if C::BUFFER_COUNT == 2 {
        let j = i + plane_len;
        let second = (buffer[j] & mask) | ((bits >> 8) as u8);
        buffer.set(j, second);
    }
}

/// Reads back the color at `pos`.
pub fn get_pixel<C: ColorType>(buffer: &[u8], plane_len: usize, pos: u32) -> (r: C)
    requires
        pixel_in_buffer::<C>(buffer@.len() as int, plane_len as int, pos),
    ensures
        r == read::<C>(buffer@, plane_len as int, pos),
{
    let (owned, shift) = C::pixel_field(pos);
    let i = pixel_byte_index::<C>(pos) as usize;
    let first = (buffer[i] & owned) >> shift;
    let bits = if C::BUFFER_COUNT == 2 {
        let second = (buffer[i + plane_len] & owned) >> shift;
        (first << 1) | second
    } else {
        first
    };
    C::from_bits(bits)
}

} // verus!
