use vstd::prelude::*;
use crate::geometry::{Size, target_size, fits_i32, crop_applies, watermark_target, borders, get_target_size, smartcrop_eligible, get_watermark_target_size, get_watermark_borders};
use crate::request::{ProcessImageRequest, WatermarkSpec, valid_size};
use crate::encode::{EncodeOptions, encode_options, encode_options_of};
use crate::errors::ImageProcessingError;

verus! {

/// What the engine reports of a decoded image.
#[derive(Clone, Copy, Debug, PartialEq, Eq)]
pub struct DecodedInfo {
    pub width: i32,
    pub height: i32,
    pub has_alpha: bool,
}

/// Uniform resize of the source by `num / den`, to `width` x `height`.
#[derive(Clone, Copy, Debug, PartialEq, Eq)]
pub struct ResizeStep {
    pub num: i32,
    pub den: i32,
    pub width: i32,
    pub height: i32,
}

/// How one watermark is applied: the watermark at `index` of the inputs is
/// scaled by `scale_num / scale_den` (before the opacity adjustment when it
/// shrinks, after it otherwise), given an opaque alpha channel when it has
/// none, and composited over the image at (`left`, `top`).
#[derive(Clone, Copy, Debug, PartialEq, Eq)]
pub struct WatermarkStep {
    pub index: usize,
    pub scale_num: i32,
    pub scale_den: i32,
    pub downscale_first: bool,
    pub add_alpha: bool,
    pub width: i32,
    pub height: i32,
    pub left: i64,
    pub top: i64,
}

/// The work that the engine does on a decoded source image, in order: resize,
/// smart-crop (centred attention), watermarks, padding to a white square
/// canvas with the content centred, encoding. `width` x `height` is the size
/// of the output.
#[derive(Clone, Debug)]
pub struct PipelinePlan {
    pub resize: Option<ResizeStep>,
    pub crop: Option<(i32, i32)>,
    pub watermarks: Vec<WatermarkStep>,
    pub pad_to: Option<i32>,
    pub encode: EncodeOptions,
    pub width: i32,
    pub height: i32,
}

/// Ratio of the resize: the constrained dimension over the source's.
pub open spec fn resize_ratio(ow: int, oh: int, s: Size) -> (int, int) {
    match (s.w, s.h) {
        (Some(w), None) => (w as int, ow),
        (None, Some(h)) => (h as int, oh),
        (Some(w), Some(h)) => if w * oh <= h * ow { (w as int, ow) } else { (h as int, oh) },
        (None, None) => (1, 1),
    }
}

/// A size that can be planned: its target fits in `i32`.
pub open spec fn resize_fits(ow: int, oh: int, size: Option<Size>) -> bool {
    match size {
        Some(s) => target_size(ow, oh, s) is Some && fits_i32(target_size(ow, oh, s)->0),
        None => true,
    }
}

pub open spec fn resize_of(ow: int, oh: int, size: Option<Size>) -> Option<ResizeStep> {
    match size {
        Some(s) => {
            let t = target_size(ow, oh, s)->0;
            let q = resize_ratio(ow, oh, s);
            Some(ResizeStep { num: q.0 as i32, den: q.1 as i32, width: t.0 as i32, height: t.1 as i32 })
        },
        None => None,
    }
}

/// Size of the image after the resize.
pub open spec fn resized_dims(ow: int, oh: int, size: Option<Size>) -> (int, int) {
    match size {
        Some(s) => target_size(ow, oh, s)->0,
        None => (ow, oh),
    }
}

/// Size of the image that watermarks are placed on: after the resize and the crop.
pub open spec fn base_dims(req: ProcessImageRequest, ow: int, oh: int) -> (int, int) {
    let d = resized_dims(ow, oh, req.size);
    if crop_applies(d.0, d.1, req.crop) {
        (req.crop.w->0 as int, req.crop.h->0 as int)
    } else {
        d
    }
}

pub open spec fn max(a: int, b: int) -> int {
    if a >= b { a } else { b }
}

/// Size of the output: the base, or its longer side squared.
pub open spec fn output_dims(req: ProcessImageRequest, ow: int, oh: int) -> (int, int) {
    let b = base_dims(req, ow, oh);
    if req.square { (max(b.0, b.1), max(b.0, b.1)) } else { b }
}

/// A watermark that decoded to a non-empty image.
pub open spec fn usable(d: Option<DecodedInfo>) -> bool {
    d is Some && d->0.width > 0 && d->0.height > 0
}

pub open spec fn mark_step(spec: WatermarkSpec, info: DecodedInfo, index: int, bw: int, bh: int) -> WatermarkStep {
    let t = watermark_target(bw, bh, info.width as int, info.height as int, spec.size as int);
    let b = borders(bw, bh, t.0, t.1, spec.position);
    WatermarkStep {
        index: index as usize,
        scale_num: t.0 as i32,
        scale_den: info.width,
        downscale_first: info.width * info.height > t.0 * t.1,
        add_alpha: !info.has_alpha,
        width: t.0 as i32,
        height: t.1 as i32,
        left: b.0 as i64,
        top: b.1 as i64,
    }
}

/// The steps of the first `n` watermarks, in list order; one that did not
/// decode is left out and moves none of the others.
pub open spec fn planned_steps(
    specs: Seq<WatermarkSpec>,
    decoded: Seq<Option<DecodedInfo>>,
    bw: int,
    bh: int,
    n: nat,
) -> Seq<WatermarkStep>
    decreases n,
{
    if n == 0 {
        Seq::empty()
    } else {
        let prev = planned_steps(specs, decoded, bw, bh, (n - 1) as nat);
        if usable(decoded[n - 1]) {
            prev.push(mark_step(specs[n - 1], decoded[n - 1]->0, n - 1, bw, bh))
        } else {
            prev
        }
    }
}

pub open spec fn plannable(req: ProcessImageRequest, ow: int, oh: int) -> bool {
    req.valid() && resize_fits(ow, oh, req.size)
}

/// The plan of a request on a source of `ow` x `oh` whose watermarks decoded
/// as `decoded`.
pub open spec fn plan_of(req: ProcessImageRequest, ow: int, oh: int, decoded: Seq<Option<DecodedInfo>>, p: PipelinePlan) -> bool {
    let d = resized_dims(ow, oh, req.size);
    let b = base_dims(req, ow, oh);
    let o = output_dims(req, ow, oh);
    &&& p.resize == resize_of(ow, oh, req.size)
    &&& p.crop == (if crop_applies(d.0, d.1, req.crop) {
        Some((req.crop.w->0, req.crop.h->0))
    } else {
        None::<(i32, i32)>
    })
    &&& p.watermarks@ == planned_steps(req.watermarks@, decoded, b.0, b.1, decoded.len())
    &&& p.pad_to == (if req.square { Some(o.0 as i32) } else { None::<i32> })
    &&& p.encode == encode_options_of(req.format, req.quality)
    &&& p.width as int == o.0
    &&& p.height as int == o.1
}

proof fn lemma_resized_positive(ow: int, oh: int, s: Size)
    requires
        ow > 0,
        oh > 0,
        valid_size(s),
    ensures
        target_size(ow, oh, s) is Some,
        positive_dims(target_size(ow, oh, s)->0),
{
}

pub open spec fn positive_dims(d: (int, int)) -> bool {
    d.0 >= 1 && d.1 >= 1
}

/// Plans the work on a source image of `ow` x `oh` pixels. `decoded[i]` is
/// what the engine made of the `i`-th watermark of the request (`None`: it
/// could not decode it, and it is skipped). Fails with `InvalidRequest`
/// exactly when the request is not valid or its resize target overflows.
pub fn plan_pipeline(
    req: &ProcessImageRequest,
    ow: i32,
    oh: i32,
    decoded: &Vec<Option<DecodedInfo>>,
) -> (r: Result<PipelinePlan, ImageProcessingError>)
    requires
        ow > 0,
        oh > 0,
        decoded@.len() == req.watermarks@.len(),
    ensures
        r is Err <==> !plannable(*req, ow as int, oh as int),
        r is Err ==> r->Err_0 is InvalidRequest,
        r is Ok ==> plan_of(*req, ow as int, oh as int, decoded@, r->Ok_0),
{
    if !req.is_valid() {
        return Err(ImageProcessingError::InvalidRequest);
    }
    let (resize, rw, rh): (Option<ResizeStep>, i32, i32) = match req.size {
        None => (None, ow, oh),
        Some(s) => {
            proof { lemma_resized_positive(ow as int, oh as int, s); }
            match get_target_size(ow, oh, &s) {
                None => {
                    return Err(ImageProcessingError::InvalidRequest);
                },
                Some((tw, th)) => {
                    let (num, den): (i32, i32) = match (s.w, s.h) {
                        (Some(w), None) => (w, ow),
                        (None, Some(h)) => (h, oh),
                        (Some(w), Some(h)) => {
                            proof {
                                assert(0 < w * oh <= 0x3FFF_FFFF_0000_0001) by (nonlinear_arith)
                                    requires 0 < w <= 0x7FFF_FFFF, 0 < oh <= 0x7FFF_FFFF;
                                assert(0 < h * ow <= 0x3FFF_FFFF_0000_0001) by (nonlinear_arith)
                                    requires 0 < h <= 0x7FFF_FFFF, 0 < ow <= 0x7FFF_FFFF;
                            }
                            if (w as i64) * (oh as i64) <= (h as i64) * (ow as i64) {
                                (w, ow)
                            } else {
                                (h, oh)
                            }
                        },
                        (None, None) => (1, 1),
                    };
                    (Some(ResizeStep { num, den, width: tw, height: th }), tw, th)
                },
            }
        },
    };
    let crop: Option<(i32, i32)> = if smartcrop_eligible(rw, rh, &req.crop) {
        match (req.crop.w, req.crop.h) {
            (Some(cw), Some(ch)) => Some((cw, ch)),
            _ => None,
        }
    } else {
        None
    };
    let (bw, bh): (i32, i32) = match crop {
        Some((cw, ch)) => (cw, ch),
        None => (rw, rh),
    };
    let mut steps: Vec<WatermarkStep> = Vec::new();
    let mut i: usize = 0;
    while i < decoded.len()
        invariant
            i <= decoded@.len(),
            decoded@.len() == req.watermarks@.len(),
            req.valid(),
            bw > 0,
            bh > 0,
            steps@ == planned_steps(req.watermarks@, decoded@, bw as int, bh as int, i as nat),
        decreases decoded@.len() - i,
    {
        match decoded[i] {
            Some(info) => {
                if info.width > 0 && info.height > 0 {
                    let spec = &req.watermarks[i];
                    assert(crate::request::valid_watermark_size(req.watermarks@[i as int].size));
                    let (tw, th) = get_watermark_target_size(bw, bh, info.width, info.height, spec.size);
                    let (left, top, _right, _bottom) = get_watermark_borders(bw, bh, tw, th, &spec.position);
                    proof {
                        assert(0 < info.width * info.height <= 0x3FFF_FFFF_0000_0001) by (nonlinear_arith)
                            requires 0 < info.width <= 0x7FFF_FFFF, 0 < info.height <= 0x7FFF_FFFF;
                        assert(0 < tw * th <= 0x3FFF_FFFF_0000_0001) by (nonlinear_arith)
                            requires 0 < tw <= 0x7FFF_FFFF, 0 < th <= 0x7FFF_FFFF;
                    }
                    let downscale_first = (info.width as i64) * (info.height as i64) > (tw as i64) * (th as i64);
                    steps.push(WatermarkStep {
                        index: i,
                        scale_num: tw,
                        scale_den: info.width,
                        downscale_first,
                        add_alpha: !info.has_alpha,
                        width: tw,
                        height: th,
                        left,
                        top,
                    });
                }
            },
            None => {},
        }
        i = i + 1;
    }
    let (width, height, pad_to): (i32, i32, Option<i32>) = if req.square {
        let m = if bw >= bh { bw } else { bh };
        (m, m, Some(m))
    } else {
        (bw, bh, None)
    };
    Ok(PipelinePlan {
        resize,
        crop,
        watermarks: steps,
        pad_to,
        encode: encode_options(req.format, req.quality),
        width,
        height,
    })
}

} // verus!
