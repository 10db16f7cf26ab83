use vstd::prelude::*;
use crate::geometry::{Size, WatermarkPosition, target_size, scaled, round_div, borders, crop_applies};
use crate::pipeline::{PipelinePlan, DecodedInfo, plan_of, resized_dims, base_dims, max};
use crate::request::ProcessImageRequest;
use crate::routes::paired;

verus! {

/// A resize that names only the width yields exactly that width, and the
/// height of the source scaled by the same ratio, rounded to the nearest
/// pixel (never below one).
pub proof fn lemma_width_only_keeps_aspect(ow: int, oh: int, w: i32)
    requires
        ow > 0,
        oh > 0,
        w > 0,
    ensures
        target_size(ow, oh, Size { w: Some(w), h: None }) is Some,
        ({
            let t = target_size(ow, oh, Size { w: Some(w), h: None })->0;
            &&& t.0 == w as int
            &&& t.1 == 1 || (2 * (oh * w) - ow < 2 * t.1 * ow <= 2 * (oh * w) + ow)
        }),
{
    let a = oh * w;
    assert(a > 0) by (nonlinear_arith)
        requires oh > 0, w > 0, a == oh * w;
    let q = round_div(a, ow);
    assert(2 * a - ow < 2 * q * ow <= 2 * a + ow) by (nonlinear_arith)
        requires q == (2 * a + ow) / (2 * ow), ow > 0, a > 0;
    assert(scaled(oh, w as int, ow) == if q < 1 { 1 } else { q });
    assert(2 * (oh * w) == 2 * a);
}

/// The plan of a request whose size names only the width, with no crop and
/// no square, outputs that width and the aspect-preserving height.
pub proof fn lemma_width_only_output(
    req: ProcessImageRequest,
    ow: int,
    oh: int,
    decoded: Seq<Option<DecodedInfo>>,
    p: PipelinePlan,
    w: i32,
)
    requires
        ow > 0,
        oh > 0,
        w > 0,
        req.size == Some(Size { w: Some(w), h: None }),
        req.crop.w is None,
        !req.square,
        plan_of(req, ow, oh, decoded, p),
    ensures
        p.width == w,
        p.height as int == resized_dims(ow, oh, req.size).1,
        p.height == 1 || (2 * (oh * w) - ow < 2 * p.height * ow <= 2 * (oh * w) + ow),
{
    lemma_width_only_keeps_aspect(ow, oh, w);
}

/// Smart-crop happens exactly when both crop dimensions are given and the
/// (resized) image is at least that large; otherwise the image passes on
/// uncropped.
pub proof fn lemma_crop_iff_fits(req: ProcessImageRequest, ow: int, oh: int, decoded: Seq<Option<DecodedInfo>>, p: PipelinePlan)
    requires
        plan_of(req, ow, oh, decoded, p),
    ensures
        p.crop is Some <==> (req.crop.w is Some && req.crop.h is Some
            && resized_dims(ow, oh, req.size).0 >= req.crop.w->0
            && resized_dims(ow, oh, req.size).1 >= req.crop.h->0),
        p.crop is Some ==> p.crop == Some((req.crop.w->0, req.crop.h->0)),
        p.crop is None ==> base_dims(req, ow, oh) == resized_dims(ow, oh, req.size),
{
}

/// With `square`, the output is a square whose side is the longer side of
/// the image before padding, and the plan pads to that side.
pub proof fn lemma_square_output(req: ProcessImageRequest, ow: int, oh: int, decoded: Seq<Option<DecodedInfo>>, p: PipelinePlan)
    requires
        req.square,
        plan_of(req, ow, oh, decoded, p),
    ensures
        p.width == p.height,
        p.width as int == max(base_dims(req, ow, oh).0, base_dims(req, ow, oh).1),
        p.pad_to == Some(p.width),
{
}

/// Placement signs: a non-negative `Point` offset is the left (top) margin,
/// a negative one is the right (bottom) margin of its magnitude, and
/// `Center` with no offset leaves equal margins on both sides, up to the odd
/// pixel.
pub proof fn lemma_placement(bw: int, bh: int, ww: int, wh: int, dx: i32, dy: i32)
    requires
        bw > 0,
        bh > 0,
        ww > 0,
        wh > 0,
    ensures
        dx >= 0 ==> borders(bw, bh, ww, wh, WatermarkPosition::Point { dx, dy }).0 == dx,
        dy >= 0 ==> borders(bw, bh, ww, wh, WatermarkPosition::Point { dx, dy }).1 == dy,
        dx < 0 ==> borders(bw, bh, ww, wh, WatermarkPosition::Point { dx, dy }).2 == -dx,
        dy < 0 ==> borders(bw, bh, ww, wh, WatermarkPosition::Point { dx, dy }).3 == -dy,
        ({
            let c = borders(bw, bh, ww, wh, WatermarkPosition::Center { dx: 0, dy: 0 });
            &&& -1 <= c.0 - c.2 <= 1
            &&& -1 <= c.1 - c.3 <= 1
        }),
{
}

proof fn lemma_paired_prefix<S, E>(
    s1: Seq<S>,
    f1: Seq<Result<Vec<u8>, E>>,
    s2: Seq<S>,
    f2: Seq<Result<Vec<u8>, E>>,
    n: nat,
)
    requires
        n <= s1.len(),
        n <= f1.len(),
        n <= s2.len(),
        n <= f2.len(),
        forall|i: int| 0 <= i < n ==> s1[i] == s2[i] && f1[i] == f2[i],
    ensures
        paired(s1, f1, n) == paired(s2, f2, n),
    decreases n,
{
    if n > 0 {
        lemma_paired_prefix(s1, f1, s2, f2, (n - 1) as nat);
    }
}

/// A watermark whose fetch failed is dropped together with its spec: the
/// pairs kept are those of the same request without that watermark, so
/// every other watermark keeps its own spec and its place in the order.
pub proof fn lemma_failed_fetch_dropped<S, E>(specs: Seq<S>, fetched: Seq<Result<Vec<u8>, E>>, j: int)
    requires
        specs.len() == fetched.len(),
        0 <= j < fetched.len(),
        fetched[j] is Err,
    ensures
        paired(specs, fetched, fetched.len()) == paired(specs.remove(j), fetched.remove(j), (fetched.len() - 1) as nat),
{
    lemma_failed_fetch_dropped_upto(specs, fetched, j, fetched.len());
}

proof fn lemma_failed_fetch_dropped_upto<S, E>(specs: Seq<S>, fetched: Seq<Result<Vec<u8>, E>>, j: int, n: nat)
    requires
        specs.len() == fetched.len(),
        0 <= j < n <= fetched.len(),
        fetched[j] is Err,
    ensures
        paired(specs, fetched, n) == paired(specs.remove(j), fetched.remove(j), (n - 1) as nat),
    decreases n,
{
    let s2 = specs.remove(j);
    let f2 = fetched.remove(j);
    if n == j + 1 {
        lemma_paired_prefix(specs, fetched, s2, f2, j as nat);
    } else {
        lemma_failed_fetch_dropped_upto(specs, fetched, j, (n - 1) as nat);
        assert(s2[n - 2] == specs[n - 1]);
        assert(f2[n - 2] == fetched[n - 1]);
    }
}

} // verus!
