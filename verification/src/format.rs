//! Output formats of a transformed image.

use vstd::prelude::*;
use vstd::string::*;

verus! {

/// The encoding of a transformed image.
#[derive(Debug, Clone, Copy, PartialEq, Eq, Structural)]
pub enum ImgFormat {
    Png,
    Jpeg,
}

impl ImgFormat {
    /// The lower-case name of the format, as it stands in a content type.
    pub open spec fn name_spec(self) -> Seq<char> {
        match self {
            ImgFormat::Png => "png"@,
            ImgFormat::Jpeg => "jpeg"@,
        }
    }

    /// The lower-case name of the format.
    pub fn name(&self) -> (s: &'static str)
        ensures
            s@ == self.name_spec(),
    {
        match self {
            ImgFormat::Png => "png",
            ImgFormat::Jpeg => "jpeg",
        }
    }

    /// The content type of an image in this format.
    pub open spec fn content_type_spec(self) -> Seq<char> {
        "image/"@ + self.name_spec()
    }

    /// The content type of an image in this format.
    pub fn content_type(&self) -> (s: String)
        ensures
            s@ == self.content_type_spec(),
    {
        let mut s = String::from_str("image/");
        s.append(self.name());
        s
    }
}

impl Default for ImgFormat {
    /// JPEG, the format of a request that names none.
    fn default() -> (f: ImgFormat)
        ensures
            f == ImgFormat::Jpeg,
    {
        ImgFormat::Jpeg
    }
}

/// A transformed image: its encoded bytes and the format they are in.
#[derive(Debug, Clone, PartialEq, Eq)]
pub struct ImgResult {
    pub img_bytes: Vec<u8>,
    pub format: ImgFormat,
}

} // verus!
