//! The geometry of a face-aware crop: from a detected face, a padding factor
//! and the wanted aspect ratio to a region in pixels.
//!
//! The rules are stated over exact fractions. Only what is handed to the
//! image library is cut to whole pixels.

use vstd::prelude::*;
use vstd::arithmetic::div_mod::{lemma_div_is_ordered, lemma_div_multiples_vanish};
use crate::decimal::Decimal;
use crate::params::{ImgParams, MAX_FACEPAD};
use crate::ratio::{lemma_trunc_scaled, Ratio};

verus! {

/// The whole of an image side, as a fraction of a bounding box: a million.
pub const PPM: u32 = 1_000_000;

/// The longest image side that the geometry takes: the largest number of
/// pixels whose thousandths fit the range of a request's numbers. With this
/// limit and `MAX_FACEPAD` the crop geometry is exact in 128-bit arithmetic.
pub const MAX_SIDE: u32 = 4_294_967;

/// Where a face was found in an image. Each field is a fraction of the
/// image's width or height in parts per million; one that the detection left
/// out is `None`.
#[derive(Debug, Clone, Copy, PartialEq, Eq)]
pub struct BoundingBox {
    pub width: Option<u32>,
    pub height: Option<u32>,
    pub left: Option<u32>,
    pub top: Option<u32>,
}

/// Whether a fraction of a bounding box is at most one.
pub open spec fn within_whole(fraction: Option<u32>) -> bool {
    fraction matches Some(v) ==> v <= PPM
}

fn is_within_whole(fraction: Option<u32>) -> (within: bool)
    ensures
        within == within_whole(fraction),
{
    match fraction {
        Some(v) => v <= PPM,
        None => true,
    }
}

/// A fraction of a bounding box, or the default where the detection left it out.
pub open spec fn fraction_or(fraction: Option<u32>, default: u32) -> u32 {
    match fraction {
        Some(v) => v,
        None => default,
    }
}

fn fraction_or_default(fraction: Option<u32>, default: u32) -> (v: u32)
    ensures
        v == fraction_or(fraction, default),
{
    match fraction {
        Some(v) => v,
        None => default,
    }
}

impl BoundingBox {
    /// Every fraction is between zero and one.
    pub open spec fn wf(self) -> bool {
        &&& within_whole(self.width)
        &&& within_whole(self.height)
        &&& within_whole(self.left)
        &&& within_whole(self.top)
    }

    /// Tests `wf`.
    pub fn is_valid(&self) -> (valid: bool)
        ensures
            valid == self.wf(),
    {
        is_within_whole(self.width) && is_within_whole(self.height) && is_within_whole(self.left)
            && is_within_whole(self.top)
    }
}

/// The size of a decoded image in pixels.
#[derive(Debug, Clone, Copy, PartialEq, Eq)]
pub struct ImageSize {
    pub width: u32,
    pub height: u32,
}

impl ImageSize {
    /// Both sides are at least one pixel and at most `MAX_SIDE`.
    pub open spec fn wf(self) -> bool {
        &&& 1 <= self.width <= MAX_SIDE
        &&& 1 <= self.height <= MAX_SIDE
    }

    /// Tests `wf`.
    pub fn is_valid(&self) -> (valid: bool)
        ensures
            valid == self.wf(),
    {
        1 <= self.width && self.width <= MAX_SIDE && 1 <= self.height && self.height <= MAX_SIDE
    }
}

/// A region of an image in whole pixels. Its origin may lie outside the
/// image; the image library clamps the region to the image.
#[derive(Debug, Clone, Copy, PartialEq, Eq)]
pub struct CropRegion {
    pub width: u64,
    pub height: u64,
    pub x: i64,
    pub y: i64,
}

/// The side that the output is to have for the aspect ratio: the wanted one,
/// else that of the image.
pub open spec fn target_side(wanted: Option<Decimal>, side: u32) -> Ratio {
    match wanted {
        Some(d) => Ratio::new(d.thousandths as int, 1000),
        None => Ratio::whole(side as int),
    }
}

/// The wanted aspect ratio, width over height.
pub open spec fn desired_aspect(size: ImageSize, params: ImgParams) -> Ratio {
    target_side(params.w, size.width).over(target_side(params.h, size.height))
}

/// The padding factor of a request.
pub open spec fn padding(params: ImgParams) -> Ratio {
    Ratio::new(params.facepad_thousandths(), 1000)
}

/// A fraction of an image side, in pixels.
pub open spec fn share_of(fraction: u32, side: u32) -> Ratio {
    Ratio::new(fraction as int, PPM as int).times(Ratio::whole(side as int))
}

/// The width of the detected face in pixels; the whole width where the
/// detection gave none.
pub open spec fn box_width(size: ImageSize, face: BoundingBox) -> Ratio {
    share_of(fraction_or(face.width, PPM), size.width)
}

/// The height of the detected face in pixels; the whole height where the
/// detection gave none.
pub open spec fn box_height(size: ImageSize, face: BoundingBox) -> Ratio {
    share_of(fraction_or(face.height, PPM), size.height)
}

/// The width of the region of the wanted aspect ratio around the face: the
/// face's width where the face is wider than high, else its height times the
/// aspect ratio.
pub open spec fn fitted_width(size: ImageSize, params: ImgParams, face: BoundingBox) -> Ratio {
    if box_width(size, face).exceeds(box_height(size, face)) {
        box_width(size, face)
    } else {
        box_height(size, face).times(desired_aspect(size, params))
    }
}

/// The height of the region of the wanted aspect ratio around the face: the
/// face's width over the aspect ratio where the face is wider than high, else
/// its height.
pub open spec fn fitted_height(size: ImageSize, params: ImgParams, face: BoundingBox) -> Ratio {
    if box_width(size, face).exceeds(box_height(size, face)) {
        box_width(size, face).over(desired_aspect(size, params))
    } else {
        box_height(size, face)
    }
}

/// A fitted side, held to the image's side.
pub open spec fn crop_side(fitted: Ratio, side: u32) -> Ratio {
    fitted.at_most(Ratio::whole(side as int))
}

/// A side of the region that is cut: the crop side times the padding.
pub open spec fn padded_side(crop: Ratio, pad: Ratio) -> Ratio {
    crop.times(pad)
}

/// Where the region that is cut begins along one side: the face's start,
/// less half of what the padding adds to the crop side, less the part of the
/// crop side beyond the face divided by one and a half.
pub open spec fn padded_origin(start: Ratio, face_side: Ratio, crop: Ratio, pad: Ratio) -> Ratio {
    start.minus(pad.minus(Ratio::whole(1)).times(crop).over(Ratio::whole(2))).minus(
        crop.minus(face_side).over(Ratio::new(3, 2)),
    )
}

/// The width in pixels of the region that a face crop cuts.
pub open spec fn crop_width(size: ImageSize, params: ImgParams, face: BoundingBox) -> int {
    padded_side(crop_side(fitted_width(size, params, face), size.width), padding(params)).trunc()
}

/// The height in pixels of the region that a face crop cuts.
pub open spec fn crop_height(size: ImageSize, params: ImgParams, face: BoundingBox) -> int {
    padded_side(crop_side(fitted_height(size, params, face), size.height), padding(params)).trunc()
}

/// The left edge in pixels of the region that a face crop cuts.
pub open spec fn crop_x(size: ImageSize, params: ImgParams, face: BoundingBox) -> int {
    padded_origin(
        share_of(fraction_or(face.left, 0), size.width),
        box_width(size, face),
        crop_side(fitted_width(size, params, face), size.width),
        padding(params),
    ).trunc()
}

/// The upper edge in pixels of the region that a face crop cuts.
pub open spec fn crop_y(size: ImageSize, params: ImgParams, face: BoundingBox) -> int {
    padded_origin(
        share_of(fraction_or(face.top, 0), size.height),
        box_height(size, face),
        crop_side(fitted_height(size, params, face), size.height),
        padding(params),
    ).trunc()
}

/// The largest numerator of a fitted side.
const MAX_FIT_NUM: u128 = 20_000_000_000_000_000_000_000_000;

/// The largest denominator of a fitted side.
const MAX_FIT_DEN: u128 = 5_000_000_000_000_000_000;

proof fn lemma_product_bound(a: int, b: int, x: int, y: int)
    requires
        0 <= a <= x,
        0 <= b <= y,
    ensures
        0 <= a * b <= x * y,
{
    assert(0 <= a * b <= x * y) by (nonlinear_arith)
        requires
            0 <= a <= x,
            0 <= b <= y,
    ;
}

/// The numerator of an origin over the denominator `origin_den(d)`, for the
/// crop side `n / d`, a start and a face side in millionths of pixels and a
/// padding in thousandths.
spec fn origin_num(start_px: int, face_px: int, n: int, d: int, pad: int) -> int {
    6000 * (start_px * d) - 3_000_000 * ((pad - 1000) * n) - 4000 * (n * 1_000_000 - face_px * d)
}

/// The denominator on which the three terms of an origin meet: the
/// millionths of the start, the thousandths of the padding and its half, the
/// thirds of the last term, and the denominator of the crop side.
spec fn origin_den(d: int) -> int {
    6_000_000_000 * d
}

/// The origin as the rules state it and the origin over one denominator are
/// the same number: they differ by the factor `d * PPM` in both parts.
proof fn lemma_origin_reduced(side: u32, start: u32, face: u32, n: int, d: int, pad: int)
    requires
        d >= 1,
    ensures
        padded_origin(
            share_of(start, side),
            share_of(face, side),
            Ratio::new(n, d),
            Ratio::new(pad, 1000),
        ).trunc() == Ratio::new(
            origin_num(start * side, face * side, n, d, pad),
            origin_den(d),
        ).trunc(),
{
    let exact = padded_origin(
        share_of(start, side),
        share_of(face, side),
        Ratio::new(n, d),
        Ratio::new(pad, 1000),
    );
    let num = origin_num(start * side, face * side, n, d, pad);
    let den = origin_den(d);
    let k = d * PPM;
    assert(exact.den == ((PPM * 1) * (((1000 * 1) * d) * 2)) * ((d * (PPM * 1)) * 3));
    assert(exact.num == ((start * side) * (((1000 * 1) * d) * 2) - (((pad * 1 - 1 * 1000) * n) * 1) * (PPM
        * 1)) * ((d * (PPM * 1)) * 3) - ((n * (PPM * 1) - (face * side) * d) * 2) * ((PPM * 1) * (((1000
        * 1) * d) * 2)));
    assert(exact.den == k * den) by (nonlinear_arith)
        requires
            exact.den == ((PPM * 1) * (((1000 * 1) * d) * 2)) * ((d * (PPM * 1)) * 3),
            den == 6_000_000_000 * d,
            k == d * PPM,
            PPM == 1_000_000,
    ;
    assert(exact.num == k * num) by (nonlinear_arith)
        requires
            exact.num == ((start * side) * (((1000 * 1) * d) * 2) - (((pad * 1 - 1 * 1000) * n) * 1)
                * (PPM * 1)) * ((d * (PPM * 1)) * 3) - ((n * (PPM * 1) - (face * side) * d) * 2) * ((PPM
                * 1) * (((1000 * 1) * d) * 2)),
            num == 6000 * ((start * side) * d) - 3_000_000 * ((pad - 1000) * n) - 4000 * (n * 1_000_000
                - (face * side) * d),
            k == d * PPM,
            PPM == 1_000_000,
    ;
    assert(k > 0) by (nonlinear_arith)
        requires
            k == d * PPM,
            d >= 1,
            PPM == 1_000_000,
    ;
    lemma_trunc_scaled(num, den, k);
    assert(exact == Ratio::new(k * num, k * den));
}

/// An origin lies within 502 sides of the image's corner: the start within
/// one, the padding's half within 500, the last term within one.
proof fn lemma_origin_within(side: int, start_px: int, face_px: int, n: int, d: int, pad: int)
    requires
        side >= 1,
        d >= 1,
        0 <= start_px <= 1_000_000 * side,
        0 <= face_px <= 1_000_000 * side,
        0 <= pad <= 1_000_000,
        0 <= n <= side * d,
    ensures
        -((502 * side) * origin_den(d)) <= origin_num(start_px, face_px, n, d, pad) <= (502 * side)
            * origin_den(d),
{
    let num = origin_num(start_px, face_px, n, d, pad);
    let den = origin_den(d);
    let reach = 502 * side;
    assert(-(reach * den) <= num <= reach * den) by (nonlinear_arith)
        requires
            num == 6000 * (start_px * d) - 3_000_000 * ((pad - 1000) * n) - 4000 * (n * 1_000_000
                - face_px * d),
            den == 6_000_000_000 * d,
            reach == 502 * side,
            0 <= start_px <= 1_000_000 * side,
            0 <= face_px <= 1_000_000 * side,
            -1000 <= pad - 1000 <= 1_000_000,
            0 <= n <= side * d,
            d >= 1,
            side >= 1,
    ;
}

/// The length of one side of the region that is cut, in whole pixels: the
/// crop side `n / d` times the padding.
fn padded_length(side: u32, n: u128, d: u128, pad: u32) -> (length: u64)
    requires
        side <= MAX_SIDE,
        pad <= MAX_FACEPAD,
        1 <= d <= MAX_FIT_DEN,
        n <= side * d,
    ensures
        length == padded_side(Ratio::new(n as int, d as int), Ratio::new(pad as int, 1000)).trunc(),
{
    proof {
        lemma_product_bound(side as int, d as int, MAX_SIDE as int, MAX_FIT_DEN as int);
        lemma_product_bound(n as int, pad as int, MAX_SIDE * MAX_FIT_DEN, MAX_FACEPAD as int);
    }
    let num: u128 = n * (pad as u128);
    let den: u128 = d * 1000;
    let length: u128 = num / den;
    proof {
        let bound = side as int * pad as int;
        lemma_product_bound(side as int, pad as int, MAX_SIDE as int, MAX_FACEPAD as int);
        assert(num <= bound * den) by (nonlinear_arith)
            requires
                num == n * pad,
                den == d * 1000,
                n <= side * d,
                bound == side * pad,
                d >= 1,
        ;
        lemma_div_is_ordered(num as int, bound * den, den as int);
        lemma_div_multiples_vanish(bound, den as int);
    }
    length as u64
}

/// Where one side of the region that is cut begins, in whole pixels, for the
/// crop side `n / d`.
fn origin_px(side: u32, start: u32, face: u32, n: u128, d: u128, pad: u32) -> (origin: i64)
    requires
        1 <= side <= MAX_SIDE,
        start <= PPM,
        face <= PPM,
        pad <= MAX_FACEPAD,
        1 <= d <= MAX_FIT_DEN,
        n <= side * d,
    ensures
        origin == padded_origin(
            share_of(start, side),
            share_of(face, side),
            Ratio::new(n as int, d as int),
            Ratio::new(pad as int, 1000),
        ).trunc(),
{
    proof {
        lemma_product_bound(side as int, d as int, MAX_SIDE as int, MAX_FIT_DEN as int);
    }
    let e: i128 = side as i128;
    let ni: i128 = n as i128;
    let di: i128 = d as i128;
    let extra: i128 = pad as i128 - 1000;
    proof {
        lemma_product_bound(start as int, e as int, PPM as int, MAX_SIDE as int);
        lemma_product_bound(face as int, e as int, PPM as int, MAX_SIDE as int);
        lemma_product_bound(start as int, e as int, PPM as int, e as int);
        lemma_product_bound(face as int, e as int, PPM as int, e as int);
    }
    let start_px: i128 = (start as i128) * e;
    let face_px: i128 = (face as i128) * e;
    proof {
        lemma_product_bound(start_px as int, di as int, PPM * MAX_SIDE, MAX_FIT_DEN as int);
        lemma_product_bound(face_px as int, di as int, PPM * MAX_SIDE, MAX_FIT_DEN as int);
        lemma_product_bound(ni as int, PPM as int, MAX_SIDE * MAX_FIT_DEN, PPM as int);
    }
    let first: i128 = 6000 * (start_px * di);
    let grown: i128 = if extra >= 0 {
        proof {
            lemma_product_bound(extra as int, ni as int, MAX_FACEPAD as int, MAX_SIDE * MAX_FIT_DEN);
        }
        3_000_000 * (extra * ni)
    } else {
        proof {
            lemma_product_bound(-extra as int, ni as int, 1000, MAX_SIDE * MAX_FIT_DEN);
            assert((-extra) * ni == -(extra * ni)) by (nonlinear_arith);
        }
        -(3_000_000 * ((-extra) * ni))
    };
    let beyond: i128 = 4000 * (ni * 1_000_000 - face_px * di);
    let num: i128 = first - grown - beyond;
    let den: i128 = 6_000_000_000 * di;
    proof {
        assert(num == origin_num(start * side, face * side, n as int, d as int, pad as int));
        lemma_origin_reduced(side, start, face, n as int, d as int, pad as int);
        lemma_origin_within(e as int, start_px as int, face_px as int, n as int, d as int, pad as int);
        let reach = 502 * e as int;
        if num >= 0 {
            lemma_div_is_ordered(num as int, reach * den, den as int);
        } else {
            lemma_div_is_ordered(-num as int, reach * den, den as int);
        }
        lemma_div_multiples_vanish(reach, den as int);
        assert(reach * den == den * reach) by (nonlinear_arith);
    }
    if num >= 0 {
        let whole: i128 = num / den;
        assert(whole == (num as int) / (den as int));
        assert(whole <= 502 * e);
        whole as i64
    } else {
        let whole: i128 = (-num) / den;
        assert(whole == (-(num as int)) / (den as int));
        assert(0 <= whole <= 502 * e);
        -(whole as i64)
    }
}

/// One side of the region that a face crop cuts: its length and where it
/// begins, both cut to whole pixels.
fn crop_axis(side: u32, start: u32, face: u32, fit_num: u128, fit_den: u128, pad: u32) -> (r: (u64, i64))
    requires
        1 <= side <= MAX_SIDE,
        start <= PPM,
        face <= PPM,
        pad <= MAX_FACEPAD,
        1 <= fit_den <= MAX_FIT_DEN,
        fit_num <= MAX_FIT_NUM,
    ensures
        r.0 == padded_side(
            crop_side(Ratio::new(fit_num as int, fit_den as int), side),
            Ratio::new(pad as int, 1000),
        ).trunc(),
        r.1 == padded_origin(
            share_of(start, side),
            share_of(face, side),
            crop_side(Ratio::new(fit_num as int, fit_den as int), side),
            Ratio::new(pad as int, 1000),
        ).trunc(),
{
    let e: u128 = side as u128;
    proof {
        lemma_product_bound(e as int, fit_den as int, MAX_SIDE as int, MAX_FIT_DEN as int);
    }
    let (n, d): (u128, u128) = if fit_num > e * fit_den {
        (e, 1)
    } else {
        (fit_num, fit_den)
    };
    assert(crop_side(Ratio::new(fit_num as int, fit_den as int), side) == Ratio::new(n as int, d as int));
    (padded_length(side, n, d, pad), origin_px(side, start, face, n, d, pad))
}

/// A target side as a fraction: its numerator and denominator.
fn target_parts(wanted: Option<Decimal>, side: u32) -> (parts: (u128, u128))
    ensures
        target_side(wanted, side) == Ratio::new(parts.0 as int, parts.1 as int),
        parts.0 <= 0xffff_ffff,
        parts.1 == 1 || parts.1 == 1000,
{
    match wanted {
        Some(d) => (d.thousandths as u128, 1000),
        None => (side as u128, 1),
    }
}

/// The region that a face crop cuts out of an image: the face, widened to
/// the wanted aspect ratio, held to the image's sides and padded, in whole
/// pixels, each number cut towards zero.
pub fn face_crop_region(size: ImageSize, params: &ImgParams, face: &BoundingBox) -> (region: CropRegion)
    requires
        size.wf(),
        params.wf(),
        face.wf(),
    ensures
        region.width == crop_width(size, *params, *face),
        region.height == crop_height(size, *params, *face),
        region.x == crop_x(size, *params, *face),
        region.y == crop_y(size, *params, *face),
{
    let face_w: u32 = fraction_or_default(face.width, PPM);
    let face_h: u32 = fraction_or_default(face.height, PPM);
    let left: u32 = fraction_or_default(face.left, 0);
    let top: u32 = fraction_or_default(face.top, 0);
    let pad: u32 = match params.facepad {
        Some(d) => d.thousandths,
        None => 1000,
    };
    let (tw_num, tw_den) = target_parts(params.w, size.width);
    let (th_num, th_den) = target_parts(params.h, size.height);
    proof {
        lemma_product_bound(tw_num as int, th_den as int, 0xffff_ffff, 1000);
        lemma_product_bound(tw_den as int, th_num as int, 1000, 0xffff_ffff);
        lemma_product_bound(1, 1, tw_num as int, th_den as int);
        lemma_product_bound(1, 1, tw_den as int, th_num as int);
        lemma_product_bound(face_w as int, size.width as int, PPM as int, MAX_SIDE as int);
        lemma_product_bound(face_h as int, size.height as int, PPM as int, MAX_SIDE as int);
    }
    let aspect_num: u128 = tw_num * th_den;
    let aspect_den: u128 = tw_den * th_num;
    assert(desired_aspect(size, *params) == Ratio::new(aspect_num as int, aspect_den as int));
    let box_w: u128 = (face_w as u128) * (size.width as u128);
    let box_h: u128 = (face_h as u128) * (size.height as u128);
    let one_whole: u128 = 1_000_000;
    assert(box_width(size, *face) == Ratio::new(box_w as int, one_whole * 1));
    assert(box_height(size, *face) == Ratio::new(box_h as int, one_whole * 1));
    proof {
        lemma_product_bound(box_w as int, aspect_den as int, PPM * MAX_SIDE, 4_294_967_295_000int);
        lemma_product_bound(box_h as int, aspect_num as int, PPM * MAX_SIDE, 4_294_967_295_000int);
        lemma_product_bound(one_whole as int, aspect_num as int, PPM as int, 4_294_967_295_000int);
        lemma_product_bound(one_whole as int, aspect_den as int, PPM as int, 4_294_967_295_000int);
        lemma_product_bound(1, 1, one_whole as int, aspect_num as int);
        lemma_product_bound(1, 1, one_whole as int, aspect_den as int);
    }
    let wider: bool = box_w * one_whole > box_h * one_whole;
    assert(wider == box_width(size, *face).exceeds(box_height(size, *face)));
    let (fw_num, fw_den, fh_num, fh_den): (u128, u128, u128, u128) = if wider {
        (box_w, one_whole, box_w * aspect_den, one_whole * aspect_num)
    } else {
        (box_h * aspect_num, one_whole * aspect_den, box_h, one_whole)
    };
    assert(fitted_width(size, *params, *face) == Ratio::new(fw_num as int, fw_den as int));
    assert(fitted_height(size, *params, *face) == Ratio::new(fh_num as int, fh_den as int));
    let (width, x) = crop_axis(size.width, left, face_w, fw_num, fw_den, pad);
    let (height, y) = crop_axis(size.height, top, face_h, fh_num, fh_den, pad);
    CropRegion { width, height, x, y }
}

} // verus!
