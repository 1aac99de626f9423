//! Decoded pixel data.
//!
//! [`RgbaImage`] is a row-major RGBA buffer, 4 bytes per pixel, together with
//! its dimensions.  The module also holds the two pure pixel transforms of
//! the texture layer: vertical flipping and the expansion of a
//! single-channel alpha mask into opaque-white RGBA pixels.

use vstd::prelude::*;

verus! {

/// A decoded RGBA image: row-major bytes, 4 per pixel.
///
/// Well-formedness ([`RgbaImage::wf`]) ties the buffer length to the
/// dimensions; every constructor establishes it and every operation
/// preserves it.
#[derive(Clone, Debug, PartialEq, Eq)]
pub struct RgbaImage {
    /// Width in pixels.
    pub width: u32,
    /// Height in pixels.
    pub height: u32,
    /// Row-major RGBA bytes; `4 * width * height` of them.
    pub data: Vec<u8>,
}

impl RgbaImage {
    /// The buffer holds exactly 4 bytes per pixel.
    pub open spec fn wf(&self) -> bool {
        self.data@.len() == 4 * self.width * self.height
    }

    /// Builds an image from raw parts; refuses a buffer whose length does
    /// not match the dimensions.
    pub fn from_raw(width: u32, height: u32, data: Vec<u8>) -> (r: Option<RgbaImage>)
        ensures
            match r {
                Some(img) => {
                    &&& img.width == width
                    &&& img.height == height
                    &&& img.data@ == data@
                    &&& img.wf()
                },
                None => data@.len() != 4 * width * height,
            },
    {
        proof {
            assert(4 * (width as int) * (height as int) <= u128::MAX) by (nonlinear_arith)
                requires
                    width <= u32::MAX,
                    height <= u32::MAX,
            ;
        }
        let expected: u128 = 4 * (width as u128) * (height as u128);
        if (data.len() as u128) == expected {
            Some(RgbaImage { width, height, data })
        } else {
            None
        }
    }

    /// Width and height in pixels.
    pub fn dimensions(&self) -> (r: (u32, u32))
        ensures
            r == (self.width, self.height),
    {
        (self.width, self.height)
    }
}

/// Index of the byte that a vertical flip moves to position `i`: same column
/// and byte-within-pixel, mirrored row.  Out-of-shape arguments map to `i`
/// itself so that the function is total.
pub open spec fn flip_source_index(i: int, width: int, height: int, len: int) -> int {
    let stride = 4 * width;
    if 0 < stride && 0 <= i < len && len == stride * height {
        (height - 1 - i / stride) * stride + (i % stride)
    } else {
        i
    }
}

/// The vertical mirror of a row-major RGBA buffer: row `y` of the result is
/// row `height - 1 - y` of the input.
pub open spec fn flipped_vertical(bytes: Seq<u8>, width: int, height: int) -> Seq<u8> {
    Seq::new(
        bytes.len(),
        |i: int| bytes[flip_source_index(i, width, height, bytes.len() as int)],
    )
}

/// The mirrored byte index stays within the buffer.
proof fn lemma_flip_source_in_range(i: int, width: int, height: int, len: int)
    requires
        0 <= i < len,
        0 <= width,
        0 <= height,
        len == 4 * width * height,
    ensures
        0 <= flip_source_index(i, width, height, len) < len,
{
    let stride = 4 * width;
    assert(stride * height == len) by (nonlinear_arith)
        requires
            stride == 4 * width,
            len == 4 * width * height,
    ;
    if 0 < stride && len == stride * height {
        let row = i / stride;
        let rem = i % stride;
        vstd::arithmetic::div_mod::lemma_fundamental_div_mod(i, stride);
        vstd::arithmetic::div_mod::lemma_remainder_lower(i, stride);
        vstd::arithmetic::div_mod::lemma_remainder_upper(i, stride);
        assert(0 <= row < height) by (nonlinear_arith)
            requires
                0 <= i < stride * height,
                0 < stride,
                row == i / stride,
        ;
        assert(0 <= (height - 1 - row) * stride + rem < stride * height) by (nonlinear_arith)
            requires
                0 <= row < height,
                0 <= rem < stride,
        ;
    } else {
        assert(stride <= 0);
        assert(width == 0);
        assert(len == 0) by (nonlinear_arith)
            requires
                width == 0,
                len == 4 * width * height,
        ;
    }
}

/// The mirror, read pixel by pixel: byte `c` of the pixel at column `x`,
/// row `y` of the mirror is byte `c` of the pixel at column `x`, row
/// `height - 1 - y` of the input.
pub proof fn lemma_flipped_pixel(bytes: Seq<u8>, width: int, height: int, x: int, y: int, c: int)
    requires
        bytes.len() == 4 * width * height,
        0 <= x < width,
        0 <= y < height,
        0 <= c < 4,
    ensures
        flipped_vertical(bytes, width, height)[4 * (y * width + x) + c] == bytes[4 * ((height - 1
            - y) * width + x) + c],
{
    let stride = 4 * width;
    let i = 4 * (y * width + x) + c;
    let rem = 4 * x + c;
    assert(i == y * stride + rem && 0 <= rem < stride && 0 <= i < stride * height && stride
        * height == bytes.len() && (height - 1 - y) * stride + rem == 4 * ((height - 1 - y)
        * width + x) + c) by (nonlinear_arith)
        requires
            stride == 4 * width,
            i == 4 * (y * width + x) + c,
            rem == 4 * x + c,
            bytes.len() == 4 * width * height,
            0 <= x < width,
            0 <= y < height,
            0 <= c < 4,
    ;
    vstd::arithmetic::div_mod::lemma_fundamental_div_mod_converse(i, stride, y, rem);
    assert(flip_source_index(i, width, height, bytes.len() as int) == (height - 1 - y) * stride
        + rem);
}

/// Returns the vertical mirror of `img`: row `y` of the result is row
/// `height - 1 - y` of `img`.
pub fn flip_vertical(img: &RgbaImage) -> (r: RgbaImage)
    requires
        img.wf(),
    ensures
        r.width == img.width,
        r.height == img.height,
        r.wf(),
        r.data@ == flipped_vertical(img.data@, img.width as int, img.height as int),
{
    let width = img.width;
    let height = img.height;
    let total = img.data.len();
    let stride: u64 = 4 * (width as u64);
    let height64: u64 = height as u64;
    proof {
        assert(total == (stride as int) * (height64 as int)) by (nonlinear_arith)
            requires
                total == 4 * width * height,
                stride == 4 * width,
                height64 == height,
        ;
    }
    let mut out: Vec<u8> = Vec::new();
    let mut i: usize = 0;
    while i < total
        invariant
            i <= total,
            width == img.width,
            height == img.height,
            total == img.data@.len(),
            total == 4 * img.width * img.height,
            stride == 4 * img.width,
            height64 == img.height,
            total == stride * height64,
            out@.len() == i,
            forall|j: int|
                0 <= j < i ==> out@[j] == img.data@[flip_source_index(
                    j,
                    img.width as int,
                    img.height as int,
                    total as int,
                )],
        decreases total - i,
    {
        let iu: u64 = i as u64;
        proof {
            if stride == 0 {
                assert(stride * height64 == 0) by (nonlinear_arith)
                    requires
                        stride == 0,
                ;
            }
        }
        let row: u64 = iu / stride;
        let rem: u64 = iu % stride;
        proof {
            lemma_flip_source_in_range(i as int, width as int, height as int, total as int);
            vstd::arithmetic::div_mod::lemma_fundamental_div_mod(iu as int, stride as int);
            vstd::arithmetic::div_mod::lemma_remainder_lower(iu as int, stride as int);
            vstd::arithmetic::div_mod::lemma_remainder_upper(iu as int, stride as int);
            assert(0 <= row < height64) by (nonlinear_arith)
                requires
                    0 <= iu < stride * height64,
                    0 < stride,
                    row == iu / stride,
            ;
            assert((height64 - 1 - row) * stride + rem < stride * height64) by (nonlinear_arith)
                requires
                    0 <= row < height64,
                    0 <= rem < stride,
            ;
            assert((height64 - 1 - row) * stride + rem >= 0) by (nonlinear_arith)
                requires
                    0 <= row < height64,
                    0 <= rem,
            ;
        }
        let src64: u64 = (height64 - 1 - row) * stride + rem;
        let src = src64 as usize;
        out.push(img.data[src]);
        i = i + 1;
    }
    proof {
        assert(out@ =~= flipped_vertical(img.data@, img.width as int, img.height as int));
    }
    RgbaImage { width, height, data: out }
}

/// The expansion of an alpha mask into RGBA bytes: each alpha byte becomes
/// an opaque-white pixel `[255, 255, 255, alpha]`.  The color channels carry
/// no information; the mask only supplies coverage.
pub open spec fn alpha_expanded(alpha: Seq<u8>) -> Seq<u8> {
    Seq::new(4 * alpha.len(), |i: int| if i % 4 == 3 { alpha[i / 4] } else { 255u8 })
}

/// Every pixel of an expanded alpha mask is opaque white carrying the
/// mask's alpha: the red, green and blue bytes of pixel `i` are 255 and its
/// alpha byte is the mask's byte `i`.
pub proof fn lemma_alpha_expanded_pixel(alpha: Seq<u8>, i: int)
    requires
        0 <= i < alpha.len(),
    ensures
        alpha_expanded(alpha)[4 * i] == 255,
        alpha_expanded(alpha)[4 * i + 1] == 255,
        alpha_expanded(alpha)[4 * i + 2] == 255,
        alpha_expanded(alpha)[4 * i + 3] == alpha[i],
{
    assert((4 * i) % 4 == 0 && (4 * i + 1) % 4 == 1 && (4 * i + 2) % 4 == 2 && (4 * i + 3) % 4
        == 3 && (4 * i) / 4 == i && (4 * i + 1) / 4 == i && (4 * i + 2) / 4 == i && (4 * i + 3)
        / 4 == i && 4 * i + 3 < 4 * alpha.len()) by (nonlinear_arith)
        requires
            0 <= i < alpha.len(),
    ;
}

/// Expands a single-channel alpha mask into opaque-white RGBA pixels.
pub fn alpha_to_rgba(alpha: &[u8]) -> (r: Vec<u8>)
    ensures
        r@ == alpha_expanded(alpha@),
        r@.len() == 4 * alpha@.len(),
{
    let n = alpha.len();
    let mut out: Vec<u8> = Vec::new();
    let mut i: usize = 0;
    while i < n
        invariant
            i <= n,
            n == alpha@.len(),
            out@.len() == 4 * i,
            forall|j: int|
                0 <= j < 4 * i ==> out@[j] == (if j % 4 == 3 {
                    alpha@[j / 4]
                } else {
                    255u8
                }),
        decreases n - i,
    {
        let a = alpha[i];
        out.push(255);
        out.push(255);
        out.push(255);
        out.push(a);
        proof {
            let w = 4 * i as int;
            assert(w % 4 == 0 && (w + 1) % 4 == 1 && (w + 2) % 4 == 2 && (w + 3) % 4 == 3
                && w / 4 == i && (w + 1) / 4 == i && (w + 2) / 4 == i && (w + 3) / 4 == i)
                by (nonlinear_arith)
                requires
                    w == 4 * i as int,
                    0 <= i,
            ;
        }
        i = i + 1;
    }
    proof {
        assert(out@ =~= alpha_expanded(alpha@));
    }
    out
}

} // verus!
