//! Reading and writing bit fields inside little buffers of bytes.
use vstd::prelude::*;

verus! {

/// Bits `start .. start + len` of the byte `b`, counted from the least
/// significant bit.
pub open spec fn bits_u8(b: u8, start: u8, len: u8) -> u8 {
    (b >> start) & (0xffu8 >> ((8 - len) as u8))
}

/// Bits `start .. start + len` of the 16-bit word `w`.
pub open spec fn bits_u16(w: u16, start: u16, len: u16) -> u16 {
    (w >> start) & (0xffffu16 >> ((16 - len) as u16))
}

/// The 16-bit word stored in two bytes, in the given byte order.
pub open spec fn word_of(b0: u8, b1: u8, big_endian: bool) -> u16 {
    if big_endian {
        ((b0 as u16) << 8u16) | (b1 as u16)
    } else {
        ((b1 as u16) << 8u16) | (b0 as u16)
    }
}

/// Two's complement reading of the `len` low bits of `v`: values with the
/// top bit (bit `len - 1`) set stand for `v - 2^len`.
pub open spec fn sign_extend(v: u16, len: u16) -> int {
    if v >= (1u32 << ((len - 1) as u32)) {
        v - (1u32 << (len as u32))
    } else {
        v as int
    }
}

/// `mem` with bits `start .. start + len` cleared and `value`, shifted to
/// `start`, or'ed in (bits of `value` above `len` are not cut off).
pub open spec fn insert_bits_u8(mem: u8, value: u8, start: u8, len: u8) -> u8 {
    (mem & !((0xffu8 >> ((8 - len) as u8)) << start)) | (value << start)
}

/// Reads bits `start_bit .. start_bit + len_bits` of a one-byte buffer as an
/// unsigned number.
pub fn read_u8<const BIG_ENDIAN: bool>(data: [u8; 1], start_bit: usize, len_bits: usize) -> (r: u8)
    requires
        len_bits > 0,
        len_bits + start_bit <= 8,
    ensures
        r == bits_u8(data[0], start_bit as u8, len_bits as u8),
{
    let d: u8 = data[0];
    let s: u8 = start_bit as u8;
    let l: u8 = len_bits as u8;
    let value_mask: u8 = 0xffu8 >> (8 - l);
    (d >> s) & value_mask
}

/// Reads bits `start_bit .. start_bit + len_bits` of a one-byte buffer as a
/// two's complement number.
pub fn read_i8<const BIG_ENDIAN: bool>(data: [u8; 1], start_bit: usize, len_bits: usize) -> (r: i8)
    requires
        len_bits > 1,
        len_bits + start_bit <= 8,
    ensures
        r as int == sign_extend(bits_u8(data[0], start_bit as u8, len_bits as u8) as u16, len_bits as u16),
{
    let value: u8 = read_u8::<BIG_ENDIAN>(data, start_bit, len_bits);
    let d: u8 = data[0];
    let s: u8 = start_bit as u8;
    let l: u8 = len_bits as u8;
    let v: u16 = value as u16;
    let lw: u16 = l as u16;
    let half: u16 = 1u16 << (lw - 1);
    let full: u16 = 1u16 << lw;
    assert(value < (1u16 << (l as u16))) by (bit_vector)
        requires
            value == (d >> s) & (0xffu8 >> ((8 - l) as u8)),
            1 < l <= 8,
            s + l <= 8,
    ;
    assert(half as u32 == 1u32 << ((lw - 1) as u32) && full as u32 == 1u32 << (lw as u32)
        && full == 2 * half && half <= 128) by (bit_vector)
        requires
            half == 1u16 << ((lw - 1) as u16),
            full == 1u16 << lw,
            1 < lw <= 8,
    ;
    if v >= half {
        (v as i16 - full as i16) as i8
    } else {
        v as i8
    }
}

/// Reads bits `start_bit .. start_bit + len_bits` of a two-byte buffer, in
/// the given byte order, as a two's complement number.
pub fn read_i16<const BIG_ENDIAN: bool>(data: [u8; 2], start_bit: usize, len_bits: usize) -> (r: i16)
    requires
        len_bits > 1,
        len_bits + start_bit <= 16,
    ensures
        r as int == sign_extend(
            bits_u16(word_of(data[0], data[1], BIG_ENDIAN), start_bit as u16, len_bits as u16),
            len_bits as u16,
        ),
{
    let w: u16 = if BIG_ENDIAN {
        ((data[0] as u16) << 8u16) | (data[1] as u16)
    } else {
        ((data[1] as u16) << 8u16) | (data[0] as u16)
    };
    let s: u16 = start_bit as u16;
    let l: u16 = len_bits as u16;
    let value_mask: u16 = 0xffffu16 >> (16 - l);
    let v: u16 = (w >> s) & value_mask;
    let half: u32 = 1u32 << ((l - 1) as u32);
    let full: u32 = 1u32 << (l as u32);
    assert(v < full && full == 2 * half && half <= 32768) by (bit_vector)
        requires
            v == (w >> s) & (0xffffu16 >> ((16 - l) as u16)),
            half == 1u32 << ((l - 1) as u32),
            full == 1u32 << (l as u32),
            1 < l <= 16,
            s + l <= 16,
    ;
    if (v as u32) >= half {
        (v as i32 - full as i32) as i16
    } else {
        v as i16
    }
}

/// Writes `value` into bits `start_bit .. start_bit + len_bits` of the byte
/// `mem`, keeping the other bits, and returns the resulting one-byte buffer.
pub fn write_u8<const BIG_ENDIAN: bool>(value: u8, mem: u8, start_bit: usize, len_bits: usize) -> (r: [u8; 1])
    requires
        len_bits > 0,
        len_bits + start_bit <= 8,
    ensures
        r[0] == insert_bits_u8(mem, value, start_bit as u8, len_bits as u8),
{
    let s: u8 = start_bit as u8;
    let l: u8 = len_bits as u8;
    let value_max: u8 = 0xffu8 >> (8 - l);
    let mask: u8 = value_max << s;
    let shifted: u8 = value << s;
    let out: u8 = (mem & !mask) | shifted;
    [out]
}

} // verus!
