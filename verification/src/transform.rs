//! The transform engine's plan: which operations the image library is asked
//! for, in which order and with which numbers.
//!
//! The image library decodes, cuts, scales, filters and encodes. What it is
//! asked to do is decided here, from the parameters of the request, the size
//! of the image and the detected face.

use vstd::prelude::*;
use vstd::arithmetic::div_mod::{lemma_div_is_ordered, lemma_div_multiples_vanish};
use crate::decimal::Decimal;
use crate::format::ImgFormat;
use crate::geometry::{
    crop_height, crop_width, crop_x, crop_y, face_crop_region, BoundingBox, CropRegion, ImageSize,
    MAX_SIDE,
};
use crate::params::{flag, ImgParams};
use crate::ratio::Ratio;

verus! {

/// Radius of the blur.
pub const BLUR_RADIUS: u32 = 20;

/// Sigma of the blur.
pub const BLUR_SIGMA: u32 = 10;

/// Radius of the sharpening; zero lets the image library choose.
pub const SHARPEN_RADIUS: u32 = 0;

/// Sigma of the sharpening.
pub const SHARPEN_SIGMA: u32 = 10;

/// One request to the image library.
#[derive(Debug, Clone, Copy, PartialEq, Eq)]
pub enum ImageOp {
    /// Cut the image to a region, clamped to the image.
    Crop(CropRegion),
    /// Scale the image to a size in pixels, with the adaptive filter.
    Resize { width: u64, height: u64 },
    /// Normalize the levels.
    AutoLevel,
    /// Correct the gamma.
    AutoGamma,
    /// Blur with a Gaussian.
    Blur { radius: u32, sigma: u32 },
    /// Sharpen.
    Sharpen { radius: u32, sigma: u32 },
    /// Encode the image in a format.
    Encode(ImgFormat),
}

/// A wanted side as a fraction of pixels.
pub open spec fn wanted(side: Decimal) -> Ratio {
    Ratio::new(side.thousandths as int, 1000)
}

/// The aspect ratio of an image, width over height.
pub open spec fn aspect_of(size: ImageSize) -> Ratio {
    Ratio::whole(size.width as int).over(Ratio::whole(size.height as int))
}

/// The width that an image of a size is scaled to: the wanted one; where only
/// a height is wanted, that height times the image's aspect ratio; where
/// nothing is wanted, the width that the image has. Rounded to whole pixels.
pub open spec fn resize_width(size: ImageSize, params: ImgParams) -> int {
    match (params.w, params.h) {
        (Some(w), _) => wanted(w).round(),
        (None, Some(h)) => wanted(h).times(aspect_of(size)).round(),
        (None, None) => size.width as int,
    }
}

/// The height that an image of a size is scaled to: the wanted one; where
/// only a width is wanted, that width over the image's aspect ratio; where
/// nothing is wanted, the height that the image has. Rounded to whole pixels.
pub open spec fn resize_height(size: ImageSize, params: ImgParams) -> int {
    match (params.w, params.h) {
        (_, Some(h)) => wanted(h).round(),
        (Some(w), None) => wanted(w).over(aspect_of(size)).round(),
        (None, None) => size.height as int,
    }
}

/// The cut that comes before everything else: the face crop where a face is
/// given, nothing where none is.
pub open spec fn crop_ops_spec(size: ImageSize, params: ImgParams, face: Option<BoundingBox>) -> Seq<ImageOp> {
    match face {
        Some(b) => seq![
            ImageOp::Crop(
                CropRegion {
                    width: crop_width(size, params, b) as u64,
                    height: crop_height(size, params, b) as u64,
                    x: crop_x(size, params, b) as i64,
                    y: crop_y(size, params, b) as i64,
                },
            ),
        ],
        None => Seq::empty(),
    }
}

/// The filters that a request asks for, in the order in which they run:
/// levels and gamma, then the blur, then the sharpening.
pub open spec fn filter_ops_spec(params: ImgParams) -> Seq<ImageOp> {
    (if flag(params.enhance) {
        seq![ImageOp::AutoLevel, ImageOp::AutoGamma]
    } else {
        Seq::empty()
    }) + (if flag(params.blur) {
        seq![ImageOp::Blur { radius: BLUR_RADIUS, sigma: BLUR_SIGMA }]
    } else {
        Seq::empty()
    }) + (if flag(params.sharpen) {
        seq![ImageOp::Sharpen { radius: SHARPEN_RADIUS, sigma: SHARPEN_SIGMA }]
    } else {
        Seq::empty()
    })
}

/// What follows the cut, for an image of the size that the cut left: the
/// scaling, the filters, the encoding.
pub open spec fn finish_ops_spec(size: ImageSize, params: ImgParams) -> Seq<ImageOp> {
    seq![
        ImageOp::Resize {
            width: resize_width(size, params) as u64,
            height: resize_height(size, params) as u64,
        },
    ] + filter_ops_spec(params) + seq![ImageOp::Encode(params.output_format_spec())]
}

/// Rounds the fraction `num / den` to the nearest whole number, a half up.
fn round_fraction(num: u128, den: u128) -> (r: u64)
    requires
        1 <= den <= 0xffff_ffff_ffff,
        num <= 0xffff_ffff_ffff_ffff,
        num <= 0xffff_ffff_ffff * den,
    ensures
        r == Ratio::new(num as int, den as int).round(),
{
    let q: u128 = (2 * num + den) / (2 * den);
    proof {
        let bound: int = 0x1_0000_0000_0000;
        assert(2 * num + den <= bound * (2 * den)) by (nonlinear_arith)
            requires
                num <= 0xffff_ffff_ffff * den,
                den >= 1,
                bound == 0x1_0000_0000_0000,
        ;
        lemma_div_is_ordered(2 * num + den, bound * (2 * den), 2 * den as int);
        lemma_div_multiples_vanish(bound, 2 * den as int);
    }
    q as u64
}

/// The size that an image is scaled to.
pub fn resize_target(size: ImageSize, params: &ImgParams) -> (target: (u64, u64))
    requires
        size.wf(),
    ensures
        target.0 == resize_width(size, *params),
        target.1 == resize_height(size, *params),
{
    let w: u128 = size.width as u128;
    let h: u128 = size.height as u128;
    match (params.w, params.h) {
        (Some(tw), Some(th)) => (
            round_fraction(tw.thousandths as u128, 1000),
            round_fraction(th.thousandths as u128, 1000),
        ),
        (Some(tw), None) => {
            let t: u128 = tw.thousandths as u128;
            proof {
                assert(t * (1 * h) <= 0xffff_ffff * MAX_SIDE) by (nonlinear_arith)
                    requires
                        t <= 0xffff_ffff,
                        h <= MAX_SIDE,
                ;
                assert(t * (1 * h) <= 0xffff_ffff_ffff * (1000 * (w * 1))) by (nonlinear_arith)
                    requires
                        t <= 0xffff_ffff,
                        h <= 4_294_967,
                        w >= 1,
                ;
            }
            (round_fraction(t, 1000), round_fraction(t * (1 * h), 1000 * (w * 1)))
        },
        (None, Some(th)) => {
            let t: u128 = th.thousandths as u128;
            proof {
                assert(t * (w * 1) <= 0xffff_ffff * MAX_SIDE) by (nonlinear_arith)
                    requires
                        t <= 0xffff_ffff,
                        w <= MAX_SIDE,
                ;
                assert(t * (w * 1) <= 0xffff_ffff_ffff * (1000 * (1 * h))) by (nonlinear_arith)
                    requires
                        t <= 0xffff_ffff,
                        w <= 4_294_967,
                        h >= 1,
                ;
            }
            (round_fraction(t * (w * 1), 1000 * (1 * h)), round_fraction(t, 1000))
        },
        (None, None) => (size.width as u64, size.height as u64),
    }
}

/// The cut that comes before everything else.
pub fn crop_ops(size: ImageSize, params: &ImgParams, face: &Option<BoundingBox>) -> (ops: Vec<ImageOp>)
    requires
        size.wf(),
        params.wf(),
        face matches Some(b) ==> b.wf(),
    ensures
        ops@ == crop_ops_spec(size, *params, *face),
{
    let mut ops: Vec<ImageOp> = Vec::new();
    match face {
        Some(b) => {
            let region = face_crop_region(size, params, b);
            ops.push(ImageOp::Crop(region));
            assert(ops@ =~= crop_ops_spec(size, *params, *face));
        },
        None => {
            assert(ops@ =~= crop_ops_spec(size, *params, *face));
        },
    }
    ops
}

/// What follows the cut, for an image of the size that the cut left.
pub fn finish_ops(size: ImageSize, params: &ImgParams) -> (ops: Vec<ImageOp>)
    requires
        size.wf(),
    ensures
        ops@ == finish_ops_spec(size, *params),
{
    let mut ops: Vec<ImageOp> = Vec::new();
    let (width, height) = resize_target(size, params);
    ops.push(ImageOp::Resize { width, height });
    if params.wants_enhance() {
        ops.push(ImageOp::AutoLevel);
        ops.push(ImageOp::AutoGamma);
    }
    if params.wants_blur() {
        ops.push(ImageOp::Blur { radius: BLUR_RADIUS, sigma: BLUR_SIGMA });
    }
    if params.wants_sharpen() {
        ops.push(ImageOp::Sharpen { radius: SHARPEN_RADIUS, sigma: SHARPEN_SIGMA });
    }
    ops.push(ImageOp::Encode(params.output_format()));
    assert(ops@ =~= finish_ops_spec(size, *params));
    ops
}

/// What the image library is asked for depends on the parameters, the size
/// of the image and the face alone: the same of these give the same
/// operations with the same numbers.
pub proof fn lemma_same_request_same_ops(
    size: ImageSize,
    after_cut: ImageSize,
    params: ImgParams,
    face: Option<BoundingBox>,
    again_size: ImageSize,
    again_after_cut: ImageSize,
    again_params: ImgParams,
    again_face: Option<BoundingBox>,
)
    requires
        size == again_size,
        after_cut == again_after_cut,
        params == again_params,
        face == again_face,
    ensures
        crop_ops_spec(size, params, face) == crop_ops_spec(again_size, again_params, again_face),
        finish_ops_spec(after_cut, params) == finish_ops_spec(again_after_cut, again_params),
{
}

} // verus!
