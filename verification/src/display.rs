//! The two-image OLED display: which image a poll of the buttons shows, and
//! the 1-bit-per-pixel raw image format that the display draws.
use vstd::prelude::*;

verus! {

/// One of the two images the display can show.
#[derive(Clone, Copy, Debug, PartialEq, Eq, Structural)]
pub enum Image {
    Primary,
    Secondary,
}

/// The image to draw after one poll of the buttons (`true` = pressed). The
/// display starts on the primary image; Button1 switches to the secondary
/// image, and so does Button2; with neither pressed nothing is redrawn.
pub fn select_image(btn1: bool, btn2: bool) -> (img: Option<Image>)
    ensures
        img == (if btn1 || btn2 {
            Some(Image::Secondary)
        } else {
            None
        }),
{
    if btn1 {
        Some(Image::Secondary)
    } else if btn2 {
        Some(Image::Secondary)
    } else {
        None
    }
}

/// Width and height, in pixels, of the images.
pub const IMAGE_SIDE: usize = 64;

/// A grey level above this is a lit pixel.
pub const LIT_THRESHOLD: u8 = 127;

/// 1 for a lit pixel, 0 for a dark one.
pub open spec fn pixel_bit(gray: u8) -> nat {
    if gray > LIT_THRESHOLD {
        1
    } else {
        0
    }
}

/// The value of the bit for the `j`-th pixel of a byte: the first pixel is the
/// most significant bit.
pub open spec fn bit_weight(j: int) -> nat {
    if j == 0 {
        128
    } else if j == 1 {
        64
    } else if j == 2 {
        32
    } else if j == 3 {
        16
    } else if j == 4 {
        8
    } else if j == 5 {
        4
    } else if j == 6 {
        2
    } else if j == 7 {
        1
    } else {
        0
    }
}

/// The byte for a run of at most eight pixels: pixel `j` sets the bit of
/// weight `bit_weight(j)`; bits without a pixel stay clear.
pub open spec fn packed_byte(chunk: Seq<u8>) -> nat
    decreases chunk.len(),
{
    if chunk.len() == 0 {
        0
    } else {
        packed_byte(chunk.drop_last()) + pixel_bit(chunk.last()) * bit_weight(chunk.len() - 1)
    }
}

/// The `k`-th run of eight pixels (the last run may be shorter).
pub open spec fn pixel_chunk(gray: Seq<u8>, k: int) -> Seq<u8> {
    let start = 8 * k;
    let end = if start + 8 <= gray.len() {
        start + 8
    } else {
        gray.len() as int
    };
    gray.subrange(start, end)
}

/// The packed image: one byte per run of eight pixels.
pub open spec fn spec_pack_pixels(gray: Seq<u8>) -> Seq<u8> {
    Seq::new(
        ((gray.len() + 7) / 8) as nat,
        |k: int| packed_byte(pixel_chunk(gray, k)) as u8,
    )
}

/// The weight of a bit is twice that of the next.
proof fn lemma_weight_halves(j: int)
    requires
        0 <= j < 7,
    ensures
        bit_weight(j) == 2 * bit_weight(j + 1),
{
}

/// A run of at most eight pixels packs into one byte: the bits below the
/// last pixel's stay clear, so the value stays below 256.
pub proof fn lemma_packed_byte_fits(chunk: Seq<u8>)
    requires
        chunk.len() <= 8,
    ensures
        chunk.len() < 8 ==> packed_byte(chunk) + 2 * bit_weight(chunk.len() as int) <= 256,
        packed_byte(chunk) <= 255,
    decreases chunk.len(),
{
    if chunk.len() > 0 {
        lemma_packed_byte_fits(chunk.drop_last());
        if chunk.len() < 8 {
            lemma_weight_halves(chunk.len() - 1);
        }
    }
}

/// The value of the `j`-th bit of a byte.
fn weight_of(j: usize) -> (w: u8)
    requires
        j < 8,
    ensures
        w == bit_weight(j as int),
{
    if j == 0 {
        128
    } else if j == 1 {
        64
    } else if j == 2 {
        32
    } else if j == 3 {
        16
    } else if j == 4 {
        8
    } else if j == 5 {
        4
    } else if j == 6 {
        2
    } else {
        1
    }
}

/// Pack the pixels `gray[start..end]` (at most eight) into one byte.
fn pack_chunk(gray: &[u8], start: usize, end: usize) -> (byte: u8)
    requires
        start <= end <= gray@.len(),
        end - start <= 8,
    ensures
        byte == packed_byte(gray@.subrange(start as int, end as int)),
{
    let mut byte: u8 = 0;
    let mut i: usize = start;
    while i < end
        invariant
            start <= i <= end <= gray@.len(),
            end - start <= 8,
            byte == packed_byte(gray@.subrange(start as int, i as int)),
            i - start < 8 ==> byte + 2 * bit_weight(i - start) <= 256,
            i - start == 8 ==> byte <= 255,
        decreases end - i,
    {
        let j: usize = i - start;
        let w = weight_of(j);
        let bit: u8 = if gray[i] > LIT_THRESHOLD { 1 } else { 0 };
        proof {
            if j < 7 {
                lemma_weight_halves(j as int);
            }
            let s = gray@.subrange(start as int, i + 1);
            assert(s.drop_last() =~= gray@.subrange(start as int, i as int));
            assert(s.last() == gray@[i as int]);
        }
        byte = byte + bit * w;
        i = i + 1;
    }
    byte
}

/// Threshold grey levels and pack them, eight pixels to a byte, first pixel
/// in the most significant bit; a last run of fewer than eight pixels leaves
/// the low bits of its byte clear.
pub fn pack_pixels(gray: &[u8]) -> (packed: Vec<u8>)
    ensures
        packed@ == spec_pack_pixels(gray@),
{
    let n = gray.len();
    let mut packed: Vec<u8> = Vec::new();
    let mut start: usize = 0;
    while start < n
        invariant
            n == gray@.len(),
            start <= n,
            start == 8 * packed@.len(),
            forall|k: int| 0 <= k < packed@.len() ==> #[trigger] packed@[k] == packed_byte(pixel_chunk(gray@, k)) as u8,
        decreases n - start,
    {
        let end: usize = if n - start >= 8 { start + 8 } else { n };
        let byte = pack_chunk(gray, start, end);
        proof {
            assert(pixel_chunk(gray@, packed@.len() as int) == gray@.subrange(start as int, end as int));
        }
        packed.push(byte);
        if end - start < 8 {
            assert(spec_pack_pixels(gray@).len() == packed@.len());
            assert(packed@ =~= spec_pack_pixels(gray@));
            return packed;
        }
        start = end;
    }
    assert(packed@ =~= spec_pack_pixels(gray@));
    packed
}

} // verus!
