//! Laws of the codec: a written pixel reads back as its color, and writing a
//! pixel leaves every other pixel of the buffer as it was.
use vstd::prelude::*;

use crate::buffer::{merge, pixel_in_buffer, pixel_index, read, read_bits, written};
use crate::color::{oct_nibble, oct_of_nibble, quad_code, single_bit, Color, ColorType, OctColor, QuadColor, TriColor};

verus! {

/// Setting `bits` inside the field `owned` leaves the field holding `bits`
/// and each bit of a disjoint field `other` as it was.
proof fn lemma_merge_field(byte: u8, owned: u8, bits: u8, other: u8)
    by (bit_vector)
    requires
        bits & !owned == 0,
        owned & other == 0,
    ensures
        merge(byte, !owned, bits) & owned == bits,
        merge(byte, !owned, bits) & other == byte & other,
{
}

/// The two planes that a pixel writes do not overlap, and the buffer
/// holds them.
pub open spec fn planes_apart<C: ColorType>(len: int, plane_len: int, pos: u32) -> bool {
    &&& pixel_in_buffer::<C>(len, plane_len, pos)
    &&& C::BUFFER_COUNT == 2 ==> pixel_index::<C>(pos) < plane_len
}

/// What a family's write at `pos` sets stays inside the pixel's own field.
pub open spec fn write_in_field<C: ColorType>(c: C, bwrbit: bool, pos: u32) -> bool {
    let (mask, bits) = c.spec_bitmask(bwrbit, pos);
    let owned = C::spec_pixel_field(pos).0;
    &&& mask == !owned
    &&& (bits as u8) & !owned == 0
    &&& ((bits >> 8u16) as u8) & !owned == 0
}

/// Two pixels that share a byte own disjoint fields of it.
pub open spec fn fields_disjoint<C: ColorType>(p: u32, q: u32) -> bool {
    pixel_index::<C>(p) == pixel_index::<C>(q) ==> C::spec_pixel_field(p).0 & C::spec_pixel_field(
        q,
    ).0 == 0
}

/// The pattern read back at `pos` right after a write there.
proof fn lemma_read_after_write<C: ColorType>(
    buf: Seq<u8>,
    plane_len: int,
    pos: u32,
    c: C,
    bwrbit: bool,
)
    requires
        planes_apart::<C>(buf.len() as int, plane_len, pos),
        write_in_field::<C>(c, bwrbit, pos),
    ensures
        ({
            let (mask, bits) = c.spec_bitmask(bwrbit, pos);
            let shift = C::spec_pixel_field(pos).1;
            read_bits::<C>(written::<C>(buf, plane_len, pos, c, bwrbit), plane_len, pos) == if C::BUFFER_COUNT == 2 {
                (((bits as u8) >> shift) << 1u8) | (((bits >> 8u16) as u8) >> shift)
            } else {
                (bits as u8) >> shift
            }
        }),
{
    let (mask, bits) = c.spec_bitmask(bwrbit, pos);
    let (owned, shift) = C::spec_pixel_field(pos);
    let i = pixel_index::<C>(pos);
    let w = written::<C>(buf, plane_len, pos, c, bwrbit);
    assert(owned & 0 == 0) by (bit_vector);
    lemma_merge_field(buf[i], owned, bits as u8, 0);
    if C::BUFFER_COUNT == 2 {
        lemma_merge_field(buf[i + plane_len], owned, (bits >> 8u16) as u8, 0);
        assert(w[i] == merge(buf[i], mask, bits as u8));
        assert(w[i + plane_len] == merge(buf[i + plane_len], mask, (bits >> 8u16) as u8));
    }
}

/// Writing the pixel at `p` leaves the pattern of every other pixel `q`
/// unchanged.
proof fn lemma_write_keeps_other<C: ColorType>(
    buf: Seq<u8>,
    plane_len: int,
    p: u32,
    q: u32,
    c: C,
    bwrbit: bool,
)
    requires
        planes_apart::<C>(buf.len() as int, plane_len, p),
        planes_apart::<C>(buf.len() as int, plane_len, q),
        write_in_field::<C>(c, bwrbit, p),
        fields_disjoint::<C>(p, q),
    ensures
        read_bits::<C>(written::<C>(buf, plane_len, p, c, bwrbit), plane_len, q) == read_bits::<C>(
            buf,
            plane_len,
            q,
        ),
{
    let (mask, bits) = c.spec_bitmask(bwrbit, p);
    let owned = C::spec_pixel_field(p).0;
    let other = C::spec_pixel_field(q).0;
    let i = pixel_index::<C>(p);
    let j = pixel_index::<C>(q);
    let w = written::<C>(buf, plane_len, p, c, bwrbit);
    if i == j {
        lemma_merge_field(buf[i], owned, bits as u8, other);
        assert(w[j] & other == buf[j] & other);
        if C::BUFFER_COUNT == 2 {
            lemma_merge_field(buf[i + plane_len], owned, (bits >> 8u16) as u8, other);
            assert(w[j + plane_len] & other == buf[j + plane_len] & other);
        }
    } else {
        assert(w[j] == buf[j]);
        if C::BUFFER_COUNT == 2 {
            assert(w[j + plane_len] == buf[j + plane_len]);
        }
    }
}

proof fn lemma_single_bit(s: u32, t: u32)
    by (bit_vector)
    requires
        s < 8,
        t < 8,
    ensures
        (0x80u8 >> s) >> (7 - s) as u32 == 1u8,
        (0u8 >> (7 - s) as u32) == 0u8,
        s != t ==> (0x80u8 >> s) & (0x80u8 >> t) == 0,
        (0x80u8 >> s) & !(0x80u8 >> s) == 0,
        0u8 & !(0x80u8 >> s) == 0,
{
}

proof fn lemma_planes_of(x: u8)
    by (bit_vector)
    ensures
        (x as u16) as u8 == x,
        ((x as u16) >> 8u16) as u8 == 0,
        ((x as u16) << 8u16) as u8 == 0,
        (((x as u16) << 8u16) >> 8u16) as u8 == x,
        ((x as u16) << 8u16 | x as u16) as u8 == x,
        (((x as u16) << 8u16 | x as u16) >> 8u16) as u8 == x,
        (0u16 as u8) == 0,
        (0u16 >> 8u16) as u8 == 0,
{
}

proof fn lemma_pair_bits(a: u8, b: u8)
    by (bit_vector)
    requires
        a <= 1,
        b <= 1,
    ensures
        (a << 1u8) | b == a * 2 + b,
{
}

/// Two distinct positions in the same byte differ in their offset within it.
proof fn lemma_same_byte(p: u32, q: u32, per_byte: u32)
    requires
        p != q,
        per_byte > 0,
        p / per_byte == q / per_byte,
    ensures
        p % per_byte != q % per_byte,
{
    assert(p == per_byte * (p / per_byte) + p % per_byte) by (nonlinear_arith)
        requires
            per_byte > 0,
    ;
    assert(q == per_byte * (q / per_byte) + q % per_byte) by (nonlinear_arith)
        requires
            per_byte > 0,
    ;
}

proof fn lemma_single_bit_family<C: ColorType>(c: C, bwrbit: bool, p: u32, q: u32)
    requires
        C::BITS_PER_PIXEL_PER_BUFFER == 1,
        forall|pos: u32| #[trigger] C::spec_pixel_field(pos) == (single_bit(pos), (7 - pos % 8) as u32),
        ({
            let bits = c.spec_bitmask(bwrbit, p).1;
            let bit = single_bit(p);
            bits == 0u16 || bits == bit as u16 || bits == (bit as u16) << 8u16 || bits == ((bit as u16) << 8u16 | bit as u16)
        }),
        c.spec_bitmask(bwrbit, p).0 == !single_bit(p),
    ensures
        write_in_field::<C>(c, bwrbit, p),
        p != q ==> fields_disjoint::<C>(p, q),
{
    lemma_single_bit(p % 8, q % 8);
    lemma_planes_of(single_bit(p));
    if p != q && pixel_index::<C>(p) == pixel_index::<C>(q) {
        lemma_same_byte(p, q, 8);
    }
}

/// A pixel of a black/white buffer reads back as the color written into it.
pub proof fn lemma_color_round_trip(buf: Seq<u8>, plane_len: int, pos: u32, c: Color, bwrbit: bool)
    requires
        pixel_in_buffer::<Color>(buf.len() as int, plane_len, pos),
    ensures
        read::<Color>(written::<Color>(buf, plane_len, pos, c, bwrbit), plane_len, pos) == c,
{
    Color::lemma_layout();
    lemma_single_bit_family::<Color>(c, bwrbit, pos, pos);
    lemma_read_after_write::<Color>(buf, plane_len, pos, c, bwrbit);
    lemma_single_bit(pos % 8, pos % 8);
    lemma_planes_of(single_bit(pos));
}

/// Writing a pixel of a black/white buffer leaves every other pixel's color
/// as it was.
pub proof fn lemma_color_keeps_others(
    buf: Seq<u8>,
    plane_len: int,
    p: u32,
    q: u32,
    c: Color,
    bwrbit: bool,
)
    requires
        p != q,
        pixel_in_buffer::<Color>(buf.len() as int, plane_len, p),
        pixel_in_buffer::<Color>(buf.len() as int, plane_len, q),
    ensures
        read::<Color>(written::<Color>(buf, plane_len, p, c, bwrbit), plane_len, q) == read::<
            Color,
        >(buf, plane_len, q),
{
    Color::lemma_layout();
    lemma_single_bit_family::<Color>(c, bwrbit, p, q);
    lemma_write_keeps_other::<Color>(buf, plane_len, p, q, c, bwrbit);
}

/// A pixel of a two-plane buffer reads back as the color written into it,
/// except a chromatic pixel written with `bwrbit` unset: its first-plane bit
/// is then set as well, and the pattern `11` reads as white.
pub proof fn lemma_tricolor_round_trip(
    buf: Seq<u8>,
    plane_len: int,
    pos: u32,
    c: TriColor,
    bwrbit: bool,
)
    requires
        planes_apart::<TriColor>(buf.len() as int, plane_len, pos),
    ensures
        read::<TriColor>(written::<TriColor>(buf, plane_len, pos, c, bwrbit), plane_len, pos) == if c
            == TriColor::Chromatic && !bwrbit {
            TriColor::White
        } else {
            c
        },
{
    TriColor::lemma_layout();
    lemma_single_bit_family::<TriColor>(c, bwrbit, pos, pos);
    lemma_read_after_write::<TriColor>(buf, plane_len, pos, c, bwrbit);
    lemma_single_bit(pos % 8, pos % 8);
    lemma_planes_of(single_bit(pos));
    lemma_pair_bits(0, 0);
    lemma_pair_bits(0, 1);
    lemma_pair_bits(1, 0);
    lemma_pair_bits(1, 1);
}

/// Writing a pixel of a two-plane buffer leaves every other pixel's color
/// as it was.
pub proof fn lemma_tricolor_keeps_others(
    buf: Seq<u8>,
    plane_len: int,
    p: u32,
    q: u32,
    c: TriColor,
    bwrbit: bool,
)
    requires
        p != q,
        planes_apart::<TriColor>(buf.len() as int, plane_len, p),
        planes_apart::<TriColor>(buf.len() as int, plane_len, q),
    ensures
        read::<TriColor>(written::<TriColor>(buf, plane_len, p, c, bwrbit), plane_len, q) == read::<
            TriColor,
        >(buf, plane_len, q),
{
    TriColor::lemma_layout();
    lemma_single_bit_family::<TriColor>(c, bwrbit, p, q);
    lemma_write_keeps_other::<TriColor>(buf, plane_len, p, q, c, bwrbit);
}

proof fn lemma_zero_field(owned: u8)
    by (bit_vector)
    ensures
        0u8 & !owned == 0,
{
}

proof fn lemma_two_bit_field(code: u8, s: u32, t: u32)
    by (bit_vector)
    requires
        code <= 3,
        s == 0 || s == 2 || s == 4 || s == 6,
        t == 0 || t == 2 || t == 4 || t == 6,
    ensures
        (code << s) & !(0x03u8 << s) == 0,
        (code << s) >> s == code,
        s != t ==> (0x03u8 << s) & (0x03u8 << t) == 0,
{
}

proof fn lemma_quad_fields(c: QuadColor, bwrbit: bool, p: u32, q: u32)
    ensures
        write_in_field::<QuadColor>(c, bwrbit, p),
        p != q ==> fields_disjoint::<QuadColor>(p, q),
{
    QuadColor::lemma_layout();
    lemma_two_bit_field(quad_code(c), ((p % 4) * 2) as u32, ((q % 4) * 2) as u32);
    lemma_planes_of(quad_code(c) << (((p % 4) * 2) as u32));
    lemma_zero_field(QuadColor::spec_pixel_field(p).0);
    if p != q && pixel_index::<QuadColor>(p) == pixel_index::<QuadColor>(q) {
        assert(p * 2 / 8 == p / 4 && q * 2 / 8 == q / 4) by (nonlinear_arith);
        lemma_same_byte(p, q, 4);
    }
}

/// A pixel of a quad-color buffer reads back as the color written into it,
/// except red: its code `11` is not the pattern `0x11` that decoding names
/// red, so it reads back as black.
pub proof fn lemma_quadcolor_round_trip(
    buf: Seq<u8>,
    plane_len: int,
    pos: u32,
    c: QuadColor,
    bwrbit: bool,
)
    requires
        pixel_in_buffer::<QuadColor>(buf.len() as int, plane_len, pos),
    ensures
        read::<QuadColor>(written::<QuadColor>(buf, plane_len, pos, c, bwrbit), plane_len, pos)
            == if c == QuadColor::Red {
            QuadColor::Black
        } else {
            c
        },
{
    QuadColor::lemma_layout();
    lemma_quad_fields(c, bwrbit, pos, pos);
    lemma_read_after_write::<QuadColor>(buf, plane_len, pos, c, bwrbit);
    lemma_two_bit_field(quad_code(c), ((pos % 4) * 2) as u32, ((pos % 4) * 2) as u32);
    lemma_planes_of(quad_code(c) << (((pos % 4) * 2) as u32));
}

/// Writing a pixel of a quad-color buffer leaves every other pixel's color
/// as it was.
pub proof fn lemma_quadcolor_keeps_others(
    buf: Seq<u8>,
    plane_len: int,
    p: u32,
    q: u32,
    c: QuadColor,
    bwrbit: bool,
)
    requires
        p != q,
        pixel_in_buffer::<QuadColor>(buf.len() as int, plane_len, p),
        pixel_in_buffer::<QuadColor>(buf.len() as int, plane_len, q),
    ensures
        read::<QuadColor>(written::<QuadColor>(buf, plane_len, p, c, bwrbit), plane_len, q)
            == read::<QuadColor>(buf, plane_len, q),
{
    QuadColor::lemma_layout();
    lemma_quad_fields(c, bwrbit, p, q);
    lemma_write_keeps_other::<QuadColor>(buf, plane_len, p, q, c, bwrbit);
}

proof fn lemma_nibble_field(n: u8)
    by (bit_vector)
    requires
        n < 16,
    ensures
        ((n as u16) as u8) & !(0xF0u8 >> 4u32) == 0,
        ((n as u16) as u8) >> 0u32 == n,
        ((n as u16) >> 8u16) as u8 == 0,
        (((n as u16) << 4u16) as u8) & !(0xF0u8 >> 0u32) == 0,
        (((n as u16) << 4u16) as u8) >> 4u32 == n,
        (((n as u16) << 4u16) >> 8u16) as u8 == 0,
        (0xF0u8 >> 0u32) & (0xF0u8 >> 4u32) == 0,
        (0xF0u8 >> 4u32) & (0xF0u8 >> 0u32) == 0,
{
}

proof fn lemma_oct_fields(c: OctColor, bwrbit: bool, p: u32, q: u32)
    ensures
        write_in_field::<OctColor>(c, bwrbit, p),
        p != q ==> fields_disjoint::<OctColor>(p, q),
{
    OctColor::lemma_layout();
    lemma_nibble_field(oct_nibble(c));
    lemma_zero_field(OctColor::spec_pixel_field(p).0);
    if p != q && pixel_index::<OctColor>(p) == pixel_index::<OctColor>(q) {
        assert(p * 4 / 8 == p / 2 && q * 4 / 8 == q / 2) by (nonlinear_arith);
        lemma_same_byte(p, q, 2);
    }
}

/// A pixel of an octal-color buffer reads back as the color written into it.
pub proof fn lemma_octcolor_round_trip(
    buf: Seq<u8>,
    plane_len: int,
    pos: u32,
    c: OctColor,
    bwrbit: bool,
)
    requires
        pixel_in_buffer::<OctColor>(buf.len() as int, plane_len, pos),
    ensures
        read::<OctColor>(written::<OctColor>(buf, plane_len, pos, c, bwrbit), plane_len, pos) == c,
{
    OctColor::lemma_layout();
    lemma_oct_fields(c, bwrbit, pos, pos);
    lemma_read_after_write::<OctColor>(buf, plane_len, pos, c, bwrbit);
    lemma_nibble_field(oct_nibble(c));
    assert(oct_of_nibble(oct_nibble(c)) == c);
}

/// Writing a pixel of an octal-color buffer leaves every other pixel's color
/// as it was.
pub proof fn lemma_octcolor_keeps_others(
    buf: Seq<u8>,
    plane_len: int,
    p: u32,
    q: u32,
    c: OctColor,
    bwrbit: bool,
)
    requires
        p != q,
        pixel_in_buffer::<OctColor>(buf.len() as int, plane_len, p),
        pixel_in_buffer::<OctColor>(buf.len() as int, plane_len, q),
    ensures
        read::<OctColor>(written::<OctColor>(buf, plane_len, p, c, bwrbit), plane_len, q)
            == read::<OctColor>(buf, plane_len, q),
{
    OctColor::lemma_layout();
    lemma_oct_fields(c, bwrbit, p, q);
    lemma_write_keeps_other::<OctColor>(buf, plane_len, p, q, c, bwrbit);
}

/// For a chromatic pixel the tie-break flag changes only the first-plane bit:
/// both ways clear the same field and set the chromatic-plane bit; with the
/// flag set the first-plane bit stays clear, with it unset that bit is set.
pub proof fn lemma_tricolor_tie_break(pos: u32)
    ensures
        TriColor::Chromatic.spec_bitmask(true, pos).0 == TriColor::Chromatic.spec_bitmask(false, pos).0,
        (TriColor::Chromatic.spec_bitmask(true, pos).1 >> 8u16) as u8 == single_bit(pos),
        (TriColor::Chromatic.spec_bitmask(false, pos).1 >> 8u16) as u8 == single_bit(pos),
        TriColor::Chromatic.spec_bitmask(true, pos).1 as u8 == 0,
        TriColor::Chromatic.spec_bitmask(false, pos).1 as u8 == single_bit(pos),
{
    lemma_planes_of(single_bit(pos));
}

} // verus!
