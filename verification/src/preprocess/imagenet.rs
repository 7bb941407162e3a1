//! Integer parts of image preprocessing: the size check of raw RGB input,
//! the centre-crop origin and the shape of the produced tensor.
//!
//! Decoding, resizing and the per-pixel normalization are floating-point
//! image work done outside this module.

use vstd::prelude::*;

use crate::utils::errors::{ErrorView, MiddlewareError};
use crate::utils::text::{decimal, push_decimal, push_str};

verus! {

/// The error for raw RGB data of the wrong size.
pub open spec fn raw_size_mismatch(got: nat, expected: nat, width: nat, height: nat) -> ErrorView {
    ErrorView::PreprocessingFailed(
        "Raw RGB data size mismatch: got "@ + decimal(got) + " bytes, expected "@ + decimal(
            expected,
        ) + " for "@ + decimal(width) + "x"@ + decimal(height),
    )
}

/// Raw RGB data must hold exactly three bytes per pixel.
pub fn check_raw_rgb(data_len: usize, width: u32, height: u32) -> (r: Result<(), MiddlewareError>)
    requires
        width * height * 3 <= u32::MAX,
    ensures
        r is Ok <==> data_len == width * height * 3,
        r matches Err(e) ==> e@ == raw_size_mismatch(
            data_len as nat,
            (width * height * 3) as nat,
            width as nat,
            height as nat,
        ),
{
    assert(width * height <= u32::MAX) by (nonlinear_arith)
        requires
            width * height * 3 <= u32::MAX,
    ;
    let expected: u32 = width * height * 3;
    if data_len as u64 == expected as u64 {
        return Ok(());
    }
    let mut m = String::from_str("Raw RGB data size mismatch: got ");
    push_decimal(&mut m, data_len as u64);
    push_str(&mut m, " bytes, expected ");
    push_decimal(&mut m, expected as u64);
    push_str(&mut m, " for ");
    push_decimal(&mut m, width as u64);
    push_str(&mut m, "x");
    push_decimal(&mut m, height as u64);
    Err(MiddlewareError::PreprocessingFailed(m))
}

/// Where a centre crop to `tw` x `th` starts in a `w` x `h` image; `None`
/// when the image already has the target size (it is kept as it is).
pub fn crop_origin(w: u32, h: u32, tw: u32, th: u32) -> (r: Option<(u32, u32)>)
    ensures
        (w == tw && h == th) <==> r is None,
        r matches Some((x0, y0)) ==> x0 == (if w >= tw {
            (w - tw) / 2
        } else {
            0
        }) && y0 == (if h >= th {
            (h - th) / 2
        } else {
            0
        }),
{
    if w == tw && h == th {
        return None;
    }
    Some((w.saturating_sub(tw) / 2, h.saturating_sub(th) / 2))
}

/// The shape of a preprocessed tensor: `[1, 3, height, width]`.
pub fn input_shape(width: u32, height: u32) -> (s: Vec<usize>)
    ensures
        s@ == seq![1usize, 3usize, height as usize, width as usize],
{
    let mut s: Vec<usize> = Vec::new();
    s.push(1);
    s.push(3);
    s.push(height as usize);
    s.push(width as usize);
    s
}

/// Where output byte `i` of a planar `size` x `size` crop comes from in an
/// interleaved RGB image `width` pixels wide, the crop starting `offset`
/// pixels from the top and from the left: plane `i / (size * size)`, row
/// and column from the remainder.
pub open spec fn planar_source(i: int, width: int, size: int, offset: int) -> int {
    let c = i / (size * size);
    let r = i % (size * size);
    let y = r / size;
    let x = r % size;
    ((y + offset) * width + (x + offset)) * 3 + c
}

proof fn lemma_planar_index(i: int, width: int, height: int, size: int, offset: int)
    requires
        size > 0,
        offset >= 0,
        offset + size <= width,
        offset + size <= height,
        0 <= i < 3 * size * size,
    ensures
        0 <= i / (size * size) < 3,
        0 <= (i % (size * size)) / size < size,
        0 <= (i % (size * size)) % size < size,
        0 <= ((i % (size * size)) / size + offset) * width + ((i % (size * size)) % size + offset)
            < width * height,
        0 <= planar_source(i, width, size, offset) < width * height * 3,
{
    let ss = size * size;
    assert(size * size > 0) by (nonlinear_arith)
        requires
            size > 0,
    ;
    assert(3 * size * size == 3 * ss) by (nonlinear_arith)
        requires
            ss == size * size,
    ;
    let c = i / ss;
    let r = i % ss;
    assert(0 <= c < 3) by (nonlinear_arith)
        requires
            0 <= i < 3 * ss,
            ss > 0,
            c == i / ss,
    ;
    assert(0 <= r < ss);
    let y = r / size;
    let x = r % size;
    assert(0 <= y < size) by (nonlinear_arith)
        requires
            0 <= r < size * size,
            size > 0,
            y == r / size,
    ;
    assert(0 <= x < size);
    let row = y + offset;
    let col = x + offset;
    assert(0 <= row < height && 0 <= col < width);
    assert(0 <= row * width + col < width * height) by (nonlinear_arith)
        requires
            0 <= row < height,
            0 <= col < width,
    ;
}

/// The planar (channel-major) `size` x `size` crop of an interleaved RGB
/// image, starting `offset` pixels from the top and from the left.
pub fn planar_crop(rgb: &Vec<u8>, width: usize, height: usize, size: usize, offset: usize) -> (out:
    Vec<u8>)
    requires
        size > 0,
        offset + size <= width,
        offset + size <= height,
        rgb@.len() == width * height * 3,
    ensures
        out@.len() == 3 * size * size,
        forall|i: int|
            0 <= i < out@.len() ==> #[trigger] out@[i] == rgb@[planar_source(
                i,
                width as int,
                size as int,
                offset as int,
            )],
{
    assert(size * size <= 3 * size * size <= width * height * 3) by (nonlinear_arith)
        requires
            size <= width,
            size <= height,
            size > 0,
    ;
    assert(rgb@.len() == rgb.len());
    assert(size * size > 0) by (nonlinear_arith)
        requires
            size > 0,
    ;
    assert(3 * (size * size) == 3 * size * size) by (nonlinear_arith);
    let ss: usize = size * size;
    let n: usize = 3 * ss;
    let mut out: Vec<u8> = Vec::new();
    let mut i: usize = 0;
    while i < n
        invariant
            size > 0,
            offset + size <= width,
            offset + size <= height,
            rgb@.len() == width * height * 3,
            ss == size * size,
            ss > 0,
            n == 3 * size * size,
            n <= rgb@.len(),
            rgb@.len() <= usize::MAX,
            i <= n,
            out@.len() == i,
            forall|k: int|
                0 <= k < i ==> #[trigger] out@[k] == rgb@[planar_source(
                    k,
                    width as int,
                    size as int,
                    offset as int,
                )],
        decreases n - i,
    {
        proof {
            lemma_planar_index(i as int, width as int, height as int, size as int, offset as int);
        }
        let c = i / ss;
        let r = i % ss;
        let y = r / size;
        let x = r % size;
        let lin = (y + offset) * width + (x + offset);
        assert(lin < width * height);
        assert(lin * 3 + c < width * height * 3) by (nonlinear_arith)
            requires
                lin < width * height,
                c < 3,
        ;
        let src = lin * 3 + c;
        out.push(rgb[src]);
        i += 1;
    }
    out
}

} // verus!
