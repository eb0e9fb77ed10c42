use vstd::prelude::*;

verus! {

/// The most pixels an image may have to be decoded: 2^26. The bound is
/// this library's own. It keeps every buffer of the decoding, at up to
/// four bytes a pixel, below 2^28 bytes, within reach of a 32-bit size.
pub const MAX_PIXELS: u32 = 0x400_0000;

/// Where the first chunk after the header chunk starts: behind the eight
/// bytes of the signature and the header chunk's length, type, thirteen
/// bytes of data and check sum.
pub const AFTER_HEADER: usize = 33;

/// The four bytes at `at`, read as one number, highest byte first.
pub open spec fn be32(data: Seq<u8>, at: int) -> int {
    data[at] * 0x100_0000 + data[at + 1] * 0x1_0000 + data[at + 2] * 0x100 + data[at + 3]
}

/// Whether the four bytes at `at` are `a`, `b`, `c`, `d`.
pub open spec fn four_bytes(data: Seq<u8>, at: int, a: u8, b: u8, c: u8, d: u8) -> bool {
    data[at] == a && data[at + 1] == b && data[at + 2] == c && data[at + 3] == d
}

/// Whether `data` starts with the PNG signature.
pub open spec fn has_signature(data: Seq<u8>) -> bool {
    &&& data.len() >= 8
    &&& four_bytes(data, 0, 137, 80, 78, 71)
    &&& four_bytes(data, 4, 13, 10, 26, 10)
}

/// Whether the chunk that starts at `at` is one that is never decoded: a
/// second header (`IHDR`) or one of the animation chunks (`acTL`, `fcTL`,
/// `fdAT`).
pub open spec fn refused_chunk(data: Seq<u8>, at: int) -> bool {
    ||| four_bytes(data, at + 4, 73, 72, 68, 82)
    ||| four_bytes(data, at + 4, 97, 99, 84, 76)
    ||| four_bytes(data, at + 4, 102, 99, 84, 76)
    ||| four_bytes(data, at + 4, 102, 100, 65, 84)
}

/// Whether the chunk that starts at `at` is one that is decoded only
/// ahead of the image data: a palette (`PLTE`) or transparency (`tRNS`).
/// Either changes how long a decoded row is.
pub open spec fn early_chunk(data: Seq<u8>, at: int) -> bool {
    ||| four_bytes(data, at + 4, 80, 76, 84, 69)
    ||| four_bytes(data, at + 4, 116, 82, 78, 83)
}

/// Whether the chunk that starts at `at` holds image data (`IDAT`).
pub open spec fn data_chunk(data: Seq<u8>, at: int) -> bool {
    four_bytes(data, at + 4, 73, 68, 65, 84)
}

/// Whether the chunk that starts at `at` ends the image (`IEND`).
pub open spec fn end_chunk(data: Seq<u8>, at: int) -> bool {
    four_bytes(data, at + 4, 73, 69, 78, 68)
}

/// Whether none of the chunks from `at` on, as far as a decoder can read
/// them, is a refused one, or an early one that comes behind image data;
/// `after_data` says whether image data came before `at`. Reading stops
/// at the end chunk, or where the bytes run out before a chunk's type or
/// inside a chunk.
pub open spec fn chunks_admitted(data: Seq<u8>, at: int, after_data: bool) -> bool
    decreases data.len() - at,
{
    if at < 0 || at + 8 > data.len() {
        true
    } else if refused_chunk(data, at) || (after_data && early_chunk(data, at)) {
        false
    } else if end_chunk(data, at) {
        true
    } else if at + 12 + be32(data, at) > data.len() {
        true
    } else {
        chunks_admitted(data, at + 12 + be32(data, at), after_data || data_chunk(data, at))
    }
}

/// Whether a header may give this bit depth with this colour type: grey
/// and palette images with 1, 2, 4 or 8 bits per sample; grey, RGB, grey
/// with alpha and RGBA with 8 or 16.
pub open spec fn admitted_format(depth: u8, color: u8) -> bool {
    ||| (color == 0 || color == 3) && (depth == 1 || depth == 2 || depth == 4 || depth == 8)
    ||| (color == 0 || color == 2 || color == 4 || color == 6) && (depth == 8 || depth == 16)
}

/// Width and height that the header chunk of `data` gives.
pub open spec fn header_size(data: Seq<u8>) -> (int, int) {
    (be32(data, 16), be32(data, 20))
}

/// Whether `data` is a PNG file of the kind that is decoded: the
/// signature; then a header chunk of thirteen bytes that gives a width
/// and a height from 1 to 65535 with at most [`MAX_PIXELS`] pixels, an
/// admitted bit depth and colour type, the one compression and filter
/// method there is, and rows in order or interlaced; then no refused
/// chunk, and palette and transparency only ahead of the image data.
pub open spec fn admitted_png(data: Seq<u8>) -> bool {
    &&& data.len() >= AFTER_HEADER
    &&& has_signature(data)
    &&& be32(data, 8) == 13
    &&& four_bytes(data, 12, 73, 72, 68, 82)
    &&& 1 <= header_size(data).0 <= 0xFFFF
    &&& 1 <= header_size(data).1 <= 0xFFFF
    &&& header_size(data).0 * header_size(data).1 <= MAX_PIXELS
    &&& admitted_format(data[24], data[25])
    &&& data[26] == 0
    &&& data[27] == 0
    &&& (data[28] == 0 || data[28] == 1)
    &&& chunks_admitted(data, AFTER_HEADER as int, false)
}

fn read_be32(data: &Vec<u8>, at: usize) -> (value: u32)
    requires
        at + 4 <= data@.len(),
    ensures
        value == be32(data@, at as int),
{
    let _ = data.len();
    let b0: u32 = data[at] as u32;
    let b1: u32 = data[at + 1] as u32;
    let b2: u32 = data[at + 2] as u32;
    let b3: u32 = data[at + 3] as u32;
    b0 * 0x100_0000 + b1 * 0x1_0000 + b2 * 0x100 + b3
}

fn is_four_bytes(data: &Vec<u8>, at: usize, a: u8, b: u8, c: u8, d: u8) -> (same: bool)
    requires
        at + 4 <= data@.len(),
    ensures
        same == four_bytes(data@, at as int, a, b, c, d),
{
    let _ = data.len();
    data[at] == a && data[at + 1] == b && data[at + 2] == c && data[at + 3] == d
}

fn is_refused_chunk(data: &Vec<u8>, at: usize) -> (refused: bool)
    requires
        at + 8 <= data@.len(),
    ensures
        refused == refused_chunk(data@, at as int),
{
    let _ = data.len();
    is_four_bytes(data, at + 4, 73, 72, 68, 82) || is_four_bytes(data, at + 4, 97, 99, 84, 76)
        || is_four_bytes(data, at + 4, 102, 99, 84, 76) || is_four_bytes(
        data,
        at + 4,
        102,
        100,
        65,
        84,
    )
}

fn is_early_chunk(data: &Vec<u8>, at: usize) -> (early: bool)
    requires
        at + 8 <= data@.len(),
    ensures
        early == early_chunk(data@, at as int),
{
    let _ = data.len();
    is_four_bytes(data, at + 4, 80, 76, 84, 69) || is_four_bytes(data, at + 4, 116, 82, 78, 83)
}

fn are_chunks_admitted(data: &Vec<u8>) -> (admitted: bool)
    requires
        data@.len() >= AFTER_HEADER,
    ensures
        admitted == chunks_admitted(data@, AFTER_HEADER as int, false),
{
    let mut at: usize = AFTER_HEADER;
    let mut after_data = false;
    loop
        invariant
            AFTER_HEADER <= at <= data@.len(),
            chunks_admitted(data@, AFTER_HEADER as int, false) == chunks_admitted(
                data@,
                at as int,
                after_data,
            ),
        decreases data@.len() - at,
    {
        if data.len() - at < 8 {
            return true;
        }
        if is_refused_chunk(data, at) || (after_data && is_early_chunk(data, at)) {
            return false;
        }
        if is_four_bytes(data, at + 4, 73, 69, 78, 68) {
            return true;
        }
        let length: u32 = read_be32(data, at);
        if data.len() - at < 12 {
            return true;
        }
        let room: usize = data.len() - at - 12;
        if room < 0xFFFF_FFFF && (room as u32) < length {
            return true;
        }
        if is_four_bytes(data, at + 4, 73, 68, 65, 84) {
            after_data = true;
        }
        at = at + 12 + length as usize;
    }
}

/// Whether `data` is a PNG file of the kind that is decoded.
pub fn is_admitted_png(data: &Vec<u8>) -> (admitted: bool)
    ensures
        admitted == admitted_png(data@),
{
    if data.len() < AFTER_HEADER {
        return false;
    }
    if !(is_four_bytes(data, 0, 137, 80, 78, 71) && is_four_bytes(data, 4, 13, 10, 26, 10)) {
        return false;
    }
    if read_be32(data, 8) != 13 || !is_four_bytes(data, 12, 73, 72, 68, 82) {
        return false;
    }
    let width: u32 = read_be32(data, 16);
    let height: u32 = read_be32(data, 20);
    if width < 1 || width > 0xFFFF || height < 1 || height > 0xFFFF {
        return false;
    }
    assert(width * height <= 0xFFFF * 0xFFFF) by (nonlinear_arith)
        requires
            width <= 0xFFFF,
            height <= 0xFFFF,
    ;
    let pixels: u64 = (width as u64) * (height as u64);
    if pixels > MAX_PIXELS as u64 {
        return false;
    }
    let depth: u8 = data[24];
    let color: u8 = data[25];
    let low = (color == 0 || color == 3) && (depth == 1 || depth == 2 || depth == 4 || depth == 8);
    let full = (color == 0 || color == 2 || color == 4 || color == 6) && (depth == 8 || depth
        == 16);
    if !(low || full) {
        return false;
    }
    if data[26] != 0 || data[27] != 0 || !(data[28] == 0 || data[28] == 1) {
        return false;
    }
    are_chunks_admitted(data)
}

} // verus!
