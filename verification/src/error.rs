//! The ways in which the arguments or a stage of the pipeline can fail.

use vstd::prelude::*;
use vstd::string::*;

verus! {

/// Why an argument was turned down before any work began.
#[derive(Clone, Copy, Debug, PartialEq, Eq, Structural)]
pub enum ValidationError {
    /// The text is not an absolute URL with a scheme and an authority.
    InvalidUrl,
    /// The output path has no supported extension, or it is rooted and its
    /// parent directory does not exist.
    InvalidOutputPath,
}

impl ValidationError {
    /// The text shown to the user for this error.
    pub open spec fn spec_message(self) -> Seq<char> {
        match self {
            ValidationError::InvalidUrl => "错误的 url"@,
            ValidationError::InvalidOutputPath => "输入错误的 output 值"@,
        }
    }

    /// Returns the text shown to the user for this error.
    pub fn message(&self) -> (text: String)
        ensures
            text@ == self.spec_message(),
    {
        match self {
            ValidationError::InvalidUrl => String::from_str("错误的 url"),
            ValidationError::InvalidOutputPath => String::from_str("输入错误的 output 值"),
        }
    }
}

/// The stage of the pipeline that failed.
#[derive(Clone, Copy, Debug, PartialEq, Eq, Structural)]
pub enum PipelineError {
    /// The captured bytes do not decode into a picture with at least one pixel.
    Capture,
    /// The address cannot be encoded as a QR symbol.
    Encode,
    /// The QR symbol is wider or taller than the screenshot.
    CompositorPrecondition,
    /// The composed picture cannot be encoded in the chosen file format.
    Write,
}

impl PipelineError {
    /// The text shown to the user for this error.
    pub open spec fn spec_message(self) -> Seq<char> {
        match self {
            PipelineError::Capture => "capture failed: the screenshot could not be decoded"@,
            PipelineError::Encode => "encode failed: the URL does not fit into a QR code"@,
            PipelineError::CompositorPrecondition =>
                "overlay failed: the QR code is larger than the screenshot"@,
            PipelineError::Write => "write failed: the image could not be encoded"@,
        }
    }

    /// Returns the text shown to the user for this error; it names the stage.
    pub fn message(&self) -> (text: String)
        ensures
            text@ == self.spec_message(),
    {
        match self {
            PipelineError::Capture => String::from_str(
                "capture failed: the screenshot could not be decoded",
            ),
            PipelineError::Encode => String::from_str(
                "encode failed: the URL does not fit into a QR code",
            ),
            PipelineError::CompositorPrecondition => String::from_str(
                "overlay failed: the QR code is larger than the screenshot",
            ),
            PipelineError::Write => String::from_str(
                "write failed: the image could not be encoded",
            ),
        }
    }
}

} // verus!
