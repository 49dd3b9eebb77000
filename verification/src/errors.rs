//! What can go wrong while an image is served.

use vstd::prelude::*;
use vstd::string::*;

verus! {

/// A failure of the pipeline. Where a collaborator failed, the error carries
/// the collaborator's message.
#[derive(Debug, Clone, PartialEq, Eq)]
pub enum ImageError {
    /// The storage could not hand out an object.
    StorageReadError(String),
    /// The storage could not take an object.
    StorageWriteError(String),
    /// The bytes of an object could not be read to their end.
    StreamDecodeError(String),
    /// The image library could not decode, cut, scale or encode the image.
    TransformFailed(String),
    /// The signature of the request is not the one that its salt, key and
    /// query give.
    SignatureInvalid,
    /// The request was made at or after the time to which it was valid.
    Expired,
}

impl ImageError {
    /// What an error is called, before the collaborator's message.
    pub open spec fn label_spec(self) -> Seq<char> {
        match self {
            ImageError::StorageReadError(_) => "img read error: "@,
            ImageError::StorageWriteError(_) => "img write error: "@,
            ImageError::StreamDecodeError(_) => "stream error: "@,
            ImageError::TransformFailed(_) => "magickwand error: "@,
            ImageError::SignatureInvalid => "signature invalid"@,
            ImageError::Expired => "url expired"@,
        }
    }

    /// The collaborator's message; empty where the error carries none.
    pub open spec fn detail_spec(self) -> Seq<char> {
        match self {
            ImageError::StorageReadError(m) => m@,
            ImageError::StorageWriteError(m) => m@,
            ImageError::StreamDecodeError(m) => m@,
            ImageError::TransformFailed(m) => m@,
            ImageError::SignatureInvalid => Seq::empty(),
            ImageError::Expired => Seq::empty(),
        }
    }

    /// The text of the error: its label, then the collaborator's message.
    pub open spec fn message_spec(self) -> Seq<char> {
        self.label_spec() + self.detail_spec()
    }

    /// The status of the response to a request that failed: 500, whatever
    /// the failure.
    pub fn status_code(&self) -> (status: u16)
        ensures
            status == 500,
    {
        500
    }

    /// The text of the error.
    pub fn message(&self) -> (text: String)
        ensures
            text@ == self.message_spec(),
    {
        let mut text = String::new();
        match self {
            ImageError::StorageReadError(m) => {
                text.append("img read error: ");
                text.append(m.as_str());
            },
            ImageError::StorageWriteError(m) => {
                text.append("img write error: ");
                text.append(m.as_str());
            },
            ImageError::StreamDecodeError(m) => {
                text.append("stream error: ");
                text.append(m.as_str());
            },
            ImageError::TransformFailed(m) => {
                text.append("magickwand error: ");
                text.append(m.as_str());
            },
            ImageError::SignatureInvalid => {
                text.append("signature invalid");
            },
            ImageError::Expired => {
                text.append("url expired");
            },
        }
        assert(text@ =~= self.message_spec());
        text
    }
}

} // verus!
