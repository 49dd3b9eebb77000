//! The transform parameters of a request.

use vstd::prelude::*;
use crate::decimal::Decimal;
use crate::format::ImgFormat;

verus! {

/// The largest face padding that a request may ask for, in thousandths:
/// a thousandfold. With this limit and `MAX_SIDE` the crop geometry is exact
/// in 128-bit arithmetic.
pub const MAX_FACEPAD: u32 = 1_000_000;

/// What a request asks to be done to an image. A field that the request did
/// not name is `None`.
#[derive(Debug, Clone, Copy, PartialEq, Eq)]
pub struct ImgParams {
    /// Target width in pixels.
    pub w: Option<Decimal>,
    /// Target height in pixels.
    pub h: Option<Decimal>,
    /// Output format; JPEG if none is named.
    pub format: Option<ImgFormat>,
    pub blur: Option<bool>,
    pub sharpen: Option<bool>,
    pub enhance: Option<bool>,
    pub facecrop: Option<bool>,
    /// Factor by which a face crop is widened; 1 if none is named.
    pub facepad: Option<Decimal>,
}

/// Whether a wanted side is positive.
pub open spec fn positive(side: Option<Decimal>) -> bool {
    side matches Some(d) ==> d.thousandths > 0
}

/// A flag, which is off when the request did not name it.
pub open spec fn flag(value: Option<bool>) -> bool {
    value == Some(true)
}

fn flag_of(value: Option<bool>) -> (on: bool)
    ensures
        on == flag(value),
{
    match value {
        Some(b) => b,
        None => false,
    }
}

impl ImgParams {
    /// Target sides are positive where they are given, and the face padding
    /// is within its limit.
    pub open spec fn wf(self) -> bool {
        &&& positive(self.w)
        &&& positive(self.h)
        &&& self.facepad matches Some(d) ==> d.thousandths <= MAX_FACEPAD
    }

    /// Tests `wf`.
    pub fn is_valid(&self) -> (valid: bool)
        ensures
            valid == self.wf(),
    {
        let w_ok = match self.w {
            Some(d) => d.thousandths > 0,
            None => true,
        };
        let h_ok = match self.h {
            Some(d) => d.thousandths > 0,
            None => true,
        };
        let pad_ok = match self.facepad {
            Some(d) => d.thousandths <= MAX_FACEPAD,
            None => true,
        };
        w_ok && h_ok && pad_ok
    }

    /// The parameters of a request that names nothing.
    pub open spec fn empty() -> ImgParams {
        ImgParams {
            w: None,
            h: None,
            format: None,
            blur: None,
            sharpen: None,
            enhance: None,
            facecrop: None,
            facepad: None,
        }
    }

    /// The output format: the one named, else JPEG.
    pub open spec fn output_format_spec(self) -> ImgFormat {
        match self.format {
            Some(f) => f,
            None => ImgFormat::Jpeg,
        }
    }

    /// The face padding in thousandths: the one named, else 1.
    pub open spec fn facepad_thousandths(self) -> int {
        match self.facepad {
            Some(d) => d.thousandths as int,
            None => 1000,
        }
    }

    /// The output format: the one named, else JPEG.
    pub fn output_format(&self) -> (f: ImgFormat)
        ensures
            f == self.output_format_spec(),
    {
        match self.format {
            Some(f) => f,
            None => ImgFormat::Jpeg,
        }
    }

    /// Whether a face crop is wanted.
    pub fn wants_facecrop(&self) -> (on: bool)
        ensures
            on == flag(self.facecrop),
    {
        flag_of(self.facecrop)
    }

    /// Whether the image is to be enhanced.
    pub fn wants_enhance(&self) -> (on: bool)
        ensures
            on == flag(self.enhance),
    {
        flag_of(self.enhance)
    }

    /// Whether the image is to be blurred.
    pub fn wants_blur(&self) -> (on: bool)
        ensures
            on == flag(self.blur),
    {
        flag_of(self.blur)
    }

    /// Whether the image is to be sharpened.
    pub fn wants_sharpen(&self) -> (on: bool)
        ensures
            on == flag(self.sharpen),
    {
        flag_of(self.sharpen)
    }
}

} // verus!
