use vstd::prelude::*;

verus! {

/// Requested output size: either dimension may be left open.
#[derive(Clone, Copy, Debug, PartialEq, Eq)]
pub struct Size {
    pub w: Option<i32>,
    pub h: Option<i32>,
}

/// Requested smart-crop box.
#[derive(Clone, Copy, Debug, PartialEq, Eq)]
pub struct Crop {
    pub w: Option<i32>,
    pub h: Option<i32>,
}

/// Where a watermark goes on the base image.
///
/// `Point`: a non-negative offset is a margin from the left (top) edge, a
/// negative one a margin of its magnitude from the right (bottom) edge.
/// `Center`: centred on the base image, then moved by the offsets.
#[derive(Clone, Copy, Debug, PartialEq, Eq)]
pub enum WatermarkPosition {
    Point { dx: i32, dy: i32 },
    Center { dx: i32, dy: i32 },
}

/// `a / b` rounded to the nearest integer, halves upwards (for `a >= 0`, `b > 0`).
pub open spec fn round_div(a: int, b: int) -> int {
    (2 * a + b) / (2 * b)
}

/// `len` scaled by `num / den`, rounded, and never below one pixel.
pub open spec fn scaled(len: int, num: int, den: int) -> int {
    let r = round_div(len * num, den);
    if r < 1 { 1 } else { r }
}

/// Aspect-preserving target of a resize; when both dimensions are requested
/// the image fits within both (the smaller of the two scales wins).
pub open spec fn target_size(ow: int, oh: int, size: Size) -> Option<(int, int)> {
    match (size.w, size.h) {
        (Some(w), None) => if w > 0 { Some((w as int, scaled(oh, w as int, ow))) } else { None },
        (None, Some(h)) => if h > 0 { Some((scaled(ow, h as int, oh), h as int)) } else { None },
        (Some(w), Some(h)) => if w <= 0 || h <= 0 {
            None
        } else if w * oh <= h * ow {
            Some((w as int, scaled(oh, w as int, ow)))
        } else {
            Some((scaled(ow, h as int, oh), h as int))
        },
        (None, None) => None,
    }
}

pub open spec fn fits_i32(d: (int, int)) -> bool {
    d.0 <= i32::MAX && d.1 <= i32::MAX
}

proof fn lemma_product_fits(a: int, b: int)
    requires
        0 < a <= i32::MAX,
        0 < b <= i32::MAX,
    ensures
        0 < a * b <= 0x3FFF_FFFF_0000_0001,
{
    assert(0 < a * b <= 0x3FFF_FFFF_0000_0001) by (nonlinear_arith)
        requires 0 < a <= 0x7FFF_FFFF, 0 < b <= 0x7FFF_FFFF;
}

/// Exec form of `scaled`; the result may exceed `i32`, so it is an `i64`.
fn scale_len(len: i32, num: i32, den: i32) -> (r: i64)
    requires
        len > 0,
        num > 0,
        den > 0,
    ensures
        r == scaled(len as int, num as int, den as int),
{
    proof { lemma_product_fits(len as int, num as int); }
    let a: i64 = len as i64 * num as i64;
    let r: i64 = (2 * a + den as i64) / (2 * den as i64);
    if r < 1 { 1 } else { r }
}

/// Target dimensions of an aspect-preserving resize of an `ow` x `oh` image.
/// `None` when a requested dimension is not positive, when nothing is
/// requested, or when the result does not fit in `i32`.
pub fn get_target_size(ow: i32, oh: i32, size: &Size) -> (r: Option<(i32, i32)>)
    requires
        ow > 0,
        oh > 0,
    ensures
        r == (match target_size(ow as int, oh as int, *size) {
            Some(d) => if fits_i32(d) { Some((d.0 as i32, d.1 as i32)) } else { None },
            None => None,
        }),
{
    let (tw, th): (i64, i64) = match (size.w, size.h) {
        (Some(w), None) => {
            if w <= 0 {
                return None;
            }
            (w as i64, scale_len(oh, w, ow))
        },
        (None, Some(h)) => {
            if h <= 0 {
                return None;
            }
            (scale_len(ow, h, oh), h as i64)
        },
        (Some(w), Some(h)) => {
            if w <= 0 || h <= 0 {
                return None;
            }
            proof { lemma_product_fits(w as int, oh as int); lemma_product_fits(h as int, ow as int); }
            if (w as i64) * (oh as i64) <= (h as i64) * (ow as i64) {
                (w as i64, scale_len(oh, w, ow))
            } else {
                (scale_len(ow, h, oh), h as i64)
            }
        },
        (None, None) => {
            return None;
        },
    };
    if tw > i32::MAX as i64 || th > i32::MAX as i64 {
        None
    } else {
        Some((tw as i32, th as i32))
    }
}

/// Smart-crop is applied only when both crop dimensions are given and the
/// image is at least that large in both axes: it never upscales.
pub open spec fn crop_applies(ow: int, oh: int, crop: Crop) -> bool {
    match (crop.w, crop.h) {
        (Some(cw), Some(ch)) => ow >= cw && oh >= ch,
        _ => false,
    }
}

pub fn smartcrop_eligible(ow: i32, oh: i32, crop: &Crop) -> (r: bool)
    ensures
        r == crop_applies(ow as int, oh as int, *crop),
{
    match (crop.w, crop.h) {
        (Some(cw), Some(ch)) => ow >= cw && oh >= ch,
        _ => false,
    }
}

/// Watermark size: `pct` percent of the base dimension that corresponds to the
/// watermark's larger dimension (width on a tie); the other dimension keeps the
/// watermark's aspect ratio. Both are at least one pixel.
pub open spec fn watermark_target(bw: int, bh: int, ww: int, wh: int, pct: int) -> (int, int) {
    if ww >= wh {
        let tw = if bw * pct / 100 < 1 { 1 } else { bw * pct / 100 };
        (tw, scaled(wh, tw, ww))
    } else {
        let th = if bh * pct / 100 < 1 { 1 } else { bh * pct / 100 };
        (scaled(ww, th, wh), th)
    }
}

proof fn lemma_percent_bounds(b: int, pct: int)
    requires
        0 < b,
        1 <= pct <= 100,
    ensures
        0 <= b * pct / 100 <= b,
{
    assert(0 <= b * pct <= b * 100) by (nonlinear_arith)
        requires 0 < b, 1 <= pct <= 100;
}

proof fn lemma_scaled_bounded(len: int, num: int, den: int)
    requires
        0 < len <= den,
        0 < num,
    ensures
        1 <= scaled(len, num, den) <= num,
{
    assert(len * num <= den * num) by (nonlinear_arith)
        requires 0 < len <= den, 0 < num;
    assert((2 * (len * num) + den) / (2 * den) <= num) by (nonlinear_arith)
        requires len * num <= den * num, 0 < den, 0 < num;
}

/// Target size of a watermark on a `bw` x `bh` base image.
pub fn get_watermark_target_size(bw: i32, bh: i32, ww: i32, wh: i32, pct: i32) -> (r: (i32, i32))
    requires
        bw > 0,
        bh > 0,
        ww > 0,
        wh > 0,
        1 <= pct <= 100,
    ensures
        r.0 as int == watermark_target(bw as int, bh as int, ww as int, wh as int, pct as int).0,
        r.1 as int == watermark_target(bw as int, bh as int, ww as int, wh as int, pct as int).1,
        1 <= r.0 && 1 <= r.1,
{
    if ww >= wh {
        proof { lemma_percent_bounds(bw as int, pct as int); }
        let p: i64 = (bw as i64) * (pct as i64) / 100;
        let tw: i32 = if p < 1 { 1 } else { p as i32 };
        proof { lemma_scaled_bounded(wh as int, tw as int, ww as int); }
        let th = scale_len(wh, tw, ww);
        (tw, th as i32)
    } else {
        proof { lemma_percent_bounds(bh as int, pct as int); }
        let p: i64 = (bh as i64) * (pct as i64) / 100;
        let th: i32 = if p < 1 { 1 } else { p as i32 };
        proof { lemma_scaled_bounded(ww as int, th as int, wh as int); }
        let tw = scale_len(ww, th, wh);
        (tw as i32, th)
    }
}

/// Half of `d`, rounded towards zero.
pub open spec fn half(d: int) -> int {
    if d >= 0 { d / 2 } else { -((-d) / 2) }
}

/// Offset along one axis: `len` of the base, `mark` of the watermark.
pub open spec fn point_offset(len: int, mark: int, d: int) -> int {
    if d >= 0 { d } else { len - mark + d }
}

pub open spec fn center_offset(len: int, mark: int, d: int) -> int {
    half(len - mark) + d
}

/// Margins `(left, top, right, bottom)` of a watermark placed on the base image.
pub open spec fn borders(bw: int, bh: int, ww: int, wh: int, pos: WatermarkPosition) -> (int, int, int, int) {
    let (left, top) = match pos {
        WatermarkPosition::Point { dx, dy } => (point_offset(bw, ww, dx as int), point_offset(bh, wh, dy as int)),
        WatermarkPosition::Center { dx, dy } => (center_offset(bw, ww, dx as int), center_offset(bh, wh, dy as int)),
    };
    (left, top, bw - ww - left, bh - wh - top)
}

fn half_exec(d: i64) -> (r: i64)
    requires
        -0x1_0000_0000 <= d <= 0x1_0000_0000,
    ensures
        r == half(d as int),
{
    if d >= 0 { d / 2 } else { -((-d) / 2) }
}

/// Margins `(left, top, right, bottom)` of a `ww` x `wh` watermark on a
/// `bw` x `bh` base image; a margin is negative where the watermark overhangs.
pub fn get_watermark_borders(bw: i32, bh: i32, ww: i32, wh: i32, pos: &WatermarkPosition) -> (r: (i64, i64, i64, i64))
    requires
        bw > 0,
        bh > 0,
        ww > 0,
        wh > 0,
    ensures
        (r.0 as int, r.1 as int, r.2 as int, r.3 as int) == borders(bw as int, bh as int, ww as int, wh as int, *pos),
{
    let (left, top): (i64, i64) = match *pos {
        WatermarkPosition::Point { dx, dy } => {
            let l: i64 = if dx >= 0 { dx as i64 } else { bw as i64 - ww as i64 + dx as i64 };
            let t: i64 = if dy >= 0 { dy as i64 } else { bh as i64 - wh as i64 + dy as i64 };
            (l, t)
        },
        WatermarkPosition::Center { dx, dy } => {
            let l: i64 = half_exec(bw as i64 - ww as i64) + dx as i64;
            let t: i64 = half_exec(bh as i64 - wh as i64) + dy as i64;
            (l, t)
        },
    };
    (left, top, bw as i64 - ww as i64 - left, bh as i64 - wh as i64 - top)
}

} // verus!
