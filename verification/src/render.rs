//! Compositing per-pixel shading decisions into an RGBA byte buffer.

use vstd::prelude::*;
use crate::color::clamp;

verus! {

/// The blue channel written for one pixel: black when the pixel's ray hit
/// nothing in front of the camera, otherwise the integer shading value
/// clamped into `[3, 255]`.
pub open spec fn pixel_blue(s: Option<i32>) -> u8 {
    match s {
        Some(d) => clamp(d as int, 0xff, 3) as u8,
        None => 0,
    }
}

/// Byte `c` (0 red, 1 green, 2 blue, 3 alpha) written for a pixel whose
/// shading decision is `s`: red and green are always zero, alpha always 255,
/// blue as `pixel_blue` says.
pub open spec fn pixel_byte(s: Option<i32>, c: int) -> u8 {
    if c == 2 {
        pixel_blue(s)
    } else if c == 3 {
        255
    } else {
        0
    }
}

/// The screen coordinates of the pixel at flat index `i` of a row-major
/// buffer `width` pixels wide: `x` the column, `y` the row.
pub fn pixel_coords(i: usize, width: u32, height: u32) -> (xy: (u32, u32))
    requires
        0 < width,
        i < width as int * height as int,
    ensures
        xy.0 as int == i as int % width as int,
        xy.1 as int == i as int / width as int,
{
    let w: usize = width as usize;
    let x: usize = i % w;
    let y: usize = i / w;
    assert((i as int) / (w as int) < (height as int)) by (nonlinear_arith)
        requires
            0 < w,
            (i as int) < (w as int) * (height as int),
    ;
    ((x as u32), (y as u32))
}

/// A pixel whose ray hit something in front of the camera is composited as
/// opaque blue: red and green zero, alpha 255, and the blue channel in
/// `[3, 255]`, so a lit pixel is never black.
pub proof fn lemma_hit_pixel_is_lit_blue(s: Option<i32>)
    requires
        s is Some,
    ensures
        pixel_byte(s, 0) == 0,
        pixel_byte(s, 1) == 0,
        3 <= pixel_byte(s, 2) <= 255,
        pixel_byte(s, 3) == 255,
{
}

/// A pixel whose ray hit nothing in front of the camera is opaque black.
pub proof fn lemma_miss_pixel_is_opaque_black(s: Option<i32>)
    requires
        s is None,
    ensures
        pixel_byte(s, 0) == 0,
        pixel_byte(s, 1) == 0,
        pixel_byte(s, 2) == 0,
        pixel_byte(s, 3) == 255,
{
}

/// Writes one frame into `frame`, row-major, four bytes per pixel in
/// (R, G, B, A) order. `shade[p]` is the shading decision for pixel `p`:
/// `None` when its ray hit nothing in front of the camera (the pixel becomes
/// opaque black), `Some(d)` the integer shading value of a hit (the pixel
/// becomes opaque blue, `d` clamped into `[3, 255]`).
/// Every byte of the buffer is written; nothing of the old contents remains.
pub fn draw(frame: &mut Vec<u8>, width: u32, height: u32, shade: &Vec<Option<i32>>)
    requires
        old(frame)@.len() == width as int * height as int * 4,
        shade@.len() == width as int * height as int,
    ensures
        final(frame)@.len() == old(frame)@.len(),
        forall|p: int, c: int|
            0 <= p < shade@.len() && 0 <= c < 4 ==> final(frame)@[4 * p + c] == pixel_byte(
                shade@[p],
                c,
            ),
{
    let total: usize = frame.len();
    let n: usize = shade.len();
    let mut p: usize = 0;
    while p < n
        invariant
            n == shade@.len(),
            total == 4 * n,
            frame@.len() == old(frame)@.len(),
            old(frame)@.len() == 4 * n,
            p <= n,
            forall|q: int, c: int|
                0 <= q < p && 0 <= c < 4 ==> frame@[4 * q + c] == pixel_byte(shade@[q], c),
        decreases n - p,
    {
        let blue: u8 = match shade[p] {
            Some(d) => {
                let capped: i32 = if d < 0xff {
                    d
                } else {
                    0xff
                };
                if capped < 3 {
                    3
                } else {
                    capped as u8
                }
            },
            None => 0,
        };
        frame[4 * p] = 0x00;
        frame[4 * p + 1] = 0x00;
        frame[4 * p + 2] = blue;
        frame[4 * p + 3] = 0xff;
        p = p + 1;
    }
}

} // verus!
