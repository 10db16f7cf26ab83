use vstd::prelude::*;
use vstd::string::*;
use crate::geometry::{Size, Crop, WatermarkPosition};
use crate::text::{ends_with, has_suffix};

verus! {

/// Output encodings.
#[derive(Clone, Copy, Debug, PartialEq, Eq)]
pub enum ImageFormat {
    Jpeg,
    Png,
    Webp,
    Heic,
}

/// An explicit rotation requested by the client.
#[derive(Clone, Copy, Debug, PartialEq, Eq)]
pub enum Rotation {
    R0,
    R90,
    R180,
    R270,
}

/// Lower-case name of a format, as it appears in `image/<name>`.
pub open spec fn format_name(f: ImageFormat) -> Seq<char> {
    match f {
        ImageFormat::Jpeg => seq!['j', 'p', 'e', 'g'],
        ImageFormat::Png => seq!['p', 'n', 'g'],
        ImageFormat::Webp => seq!['w', 'e', 'b', 'p'],
        ImageFormat::Heic => seq!['h', 'e', 'i', 'c'],
    }
}

pub open spec fn mime_of(f: ImageFormat) -> Seq<char> {
    seq!['i', 'm', 'a', 'g', 'e', '/'] + format_name(f)
}

impl ImageFormat {
    /// The lower-case name of the format.
    pub fn name(&self) -> (r: String)
        ensures
            r@ == format_name(*self),
    {
        match self {
            ImageFormat::Jpeg => {
                let r = String::from_str("jpeg");
                proof { reveal_strlit("jpeg"); }
                assert(r@ =~= format_name(*self));
                r
            },
            ImageFormat::Png => {
                let r = String::from_str("png");
                proof { reveal_strlit("png"); }
                assert(r@ =~= format_name(*self));
                r
            },
            ImageFormat::Webp => {
                let r = String::from_str("webp");
                proof { reveal_strlit("webp"); }
                assert(r@ =~= format_name(*self));
                r
            },
            ImageFormat::Heic => {
                let r = String::from_str("heic");
                proof { reveal_strlit("heic"); }
                assert(r@ =~= format_name(*self));
                r
            },
        }
    }

    /// The `Content-Type` of an image in this format: `image/<name>`.
    pub fn mime_type(&self) -> (r: String)
        ensures
            r@ == mime_of(*self),
    {
        let prefix = String::from_str("image/");
        proof { reveal_strlit("image/"); }
        let name = self.name();
        let r = prefix.concat(name.as_str());
        assert(r@ =~= mime_of(*self));
        r
    }
}

/// One watermark of a request: its address, its size in percent of the base
/// image, and its placement. Its opacity is a float and travels beside the
/// request, at the same index.
#[derive(Clone, Debug)]
pub struct WatermarkSpec {
    pub image_address: String,
    pub size: i32,
    pub position: WatermarkPosition,
}

/// A parsed transformation request.
#[derive(Clone, Debug)]
pub struct ProcessImageRequest {
    pub image_address: String,
    pub size: Option<Size>,
    pub crop: Crop,
    pub rotation: Option<Rotation>,
    pub format: ImageFormat,
    pub quality: i32,
    pub watermarks: Vec<WatermarkSpec>,
    pub square: bool,
}

pub open spec fn valid_size(s: Size) -> bool {
    (s.w is Some || s.h is Some)
        && (s.w is Some ==> s.w->0 > 0)
        && (s.h is Some ==> s.h->0 > 0)
}

pub open spec fn valid_crop(c: Crop) -> bool {
    (c.w is Some ==> c.w->0 > 0) && (c.h is Some ==> c.h->0 > 0)
}

pub open spec fn valid_watermark_size(pct: i32) -> bool {
    1 <= pct <= 100
}

impl ProcessImageRequest {
    /// Static validity: a requested size names at least one dimension, every
    /// dimension given for the size or the crop is positive, and each watermark size is a percentage
    /// from 1 to 100.
    pub open spec fn valid(&self) -> bool {
        (self.size is Some ==> valid_size(self.size->0))
            && valid_crop(self.crop)
            && forall|i: int| 0 <= i < self.watermarks@.len()
                ==> valid_watermark_size(#[trigger] self.watermarks@[i].size)
    }

    pub fn is_valid(&self) -> (r: bool)
        ensures
            r == self.valid(),
    {
        match self.size {
            Some(s) => {
                let ok = match (s.w, s.h) {
                    (None, None) => false,
                    (w, h) => (match w { Some(v) => v > 0, None => true }) && (match h {
                        Some(v) => v > 0,
                        None => true,
                    }),
                };
                if !ok {
                    return false;
                }
            },
            None => {},
        }
        match self.crop.w {
            Some(v) => if v <= 0 { return false; },
            None => {},
        }
        match self.crop.h {
            Some(v) => if v <= 0 { return false; },
            None => {},
        }
        let mut i: usize = 0;
        while i < self.watermarks.len()
            invariant
                i <= self.watermarks@.len(),
                forall|j: int| 0 <= j < i ==> valid_watermark_size(#[trigger] self.watermarks@[j].size),
            decreases self.watermarks@.len() - i,
        {
            let pct = self.watermarks[i].size;
            if pct < 1 || pct > 100 {
                return false;
            }
            i = i + 1;
        }
        true
    }
}

/// A business rule: addresses that end with `suffix` are encoded at `quality`.
#[derive(Clone, Debug)]
pub struct QualityRule {
    pub suffix: String,
    pub quality: i32,
}

pub open spec fn rule_matches(address: Seq<char>, rule: QualityRule) -> bool {
    has_suffix(address, rule.suffix@)
}

/// The rules in force: thumbnails named `...400X400.jpg` are encoded at quality 68.
pub fn default_quality_rules() -> (r: Vec<QualityRule>)
    ensures
        r@.len() == 1,
        r@[0].suffix@ == seq!['4', '0', '0', 'X', '4', '0', '0', '.', 'j', 'p', 'g'],
        r@[0].quality == 68,
{
    let suffix = String::from_str("400X400.jpg");
    proof { reveal_strlit("400X400.jpg"); }
    assert(suffix@ =~= seq!['4', '0', '0', 'X', '4', '0', '0', '.', 'j', 'p', 'g']);
    let mut r: Vec<QualityRule> = Vec::new();
    r.push(QualityRule { suffix, quality: 68 });
    r
}

/// The quality of the first rule that the address matches, if any.
pub fn quality_override(address: &String, rules: &Vec<QualityRule>) -> (r: Option<i32>)
    ensures
        match r {
            None => forall|i: int| 0 <= i < rules@.len() ==> !rule_matches(address@, #[trigger] rules@[i]),
            Some(q) => exists|i: int|
                0 <= i < rules@.len() && rule_matches(address@, #[trigger] rules@[i])
                    && q == rules@[i].quality
                    && forall|j: int| 0 <= j < i ==> !rule_matches(address@, #[trigger] rules@[j]),
        },
{
    let mut i: usize = 0;
    while i < rules.len()
        invariant
            i <= rules@.len(),
            forall|j: int| 0 <= j < i ==> !rule_matches(address@, #[trigger] rules@[j]),
        decreases rules@.len() - i,
    {
        if ends_with(address.as_str(), rules[i].suffix.as_str()) {
            assert(rule_matches(address@, rules@[i as int]));
            return Some(rules[i].quality);
        }
        i = i + 1;
    }
    None
}

/// The quality to encode with: that of the first matching rule, else the requested one.
pub fn effective_quality(address: &String, requested: i32, rules: &Vec<QualityRule>) -> (r: i32)
    ensures
        (forall|i: int| 0 <= i < rules@.len() ==> !rule_matches(address@, #[trigger] rules@[i]))
            ==> r == requested,
        (exists|i: int| 0 <= i < rules@.len() && rule_matches(address@, #[trigger] rules@[i]))
            ==> exists|i: int|
                0 <= i < rules@.len() && rule_matches(address@, #[trigger] rules@[i])
                    && r == rules@[i].quality
                    && forall|j: int| 0 <= j < i ==> !rule_matches(address@, #[trigger] rules@[j]),
{
    match quality_override(address, rules) {
        Some(q) => q,
        None => requested,
    }
}

} // verus!
