use vstd::prelude::*;

verus! {

/// Failures of the generation backend.
#[derive(Debug, Clone, Copy, PartialEq, Eq, Structural)]
pub enum GenerationError {
    /// The backend could not be reached, or the connection failed.
    Unreachable,
    /// The backend's reply did not have the expected shape.
    InvalidResponse,
    /// The backend answered with an empty list of images.
    NoImageProduced,
}

/// Failures while turning the backend's image payload into attachment bytes.
#[derive(Debug, Clone, Copy, PartialEq, Eq, Structural)]
pub enum CodecError {
    /// The payload is not valid base64.
    BadEncoding,
    /// The decoded bytes could not be read in the source format, or not
    /// written in the target format.
    TranscodeFailed,
}

/// Every way in which one command invocation can fail.
#[derive(Debug, Clone, Copy, PartialEq, Eq, Structural)]
pub enum PipelineError {
    /// The required `prompt` option is absent or not text.
    MissingOrInvalidPrompt,
    /// An optional option is present with the wrong kind of value.
    InvalidOptionType,
    Generation(GenerationError),
    Codec(CodecError),
}

/// The user-visible text of each failure.
pub open spec fn error_text(e: PipelineError) -> Seq<char> {
    match e {
        PipelineError::MissingOrInvalidPrompt => "Prompt was missing or not a string"@,
        PipelineError::InvalidOptionType => "An option had the wrong type"@,
        PipelineError::Generation(GenerationError::Unreachable) => "Could not connect to txt2img API"@,
        PipelineError::Generation(GenerationError::InvalidResponse) => "Could not parse txt2img JSON"@,
        PipelineError::Generation(GenerationError::NoImageProduced) => "txt2img did not produce an image"@,
        PipelineError::Codec(CodecError::BadEncoding) => "Unable to decode txt2img base64 response"@,
        PipelineError::Codec(CodecError::TranscodeFailed) => "Unable to transcode txt2img image"@,
    }
}

impl PipelineError {
    /// The message shown to the user for this failure.
    pub fn message(&self) -> (r: String)
        ensures
            r@ == error_text(*self),
    {
        match self {
            PipelineError::MissingOrInvalidPrompt => String::from_str("Prompt was missing or not a string"),
            PipelineError::InvalidOptionType => String::from_str("An option had the wrong type"),
            PipelineError::Generation(GenerationError::Unreachable) => String::from_str("Could not connect to txt2img API"),
            PipelineError::Generation(GenerationError::InvalidResponse) => String::from_str("Could not parse txt2img JSON"),
            PipelineError::Generation(GenerationError::NoImageProduced) => String::from_str("txt2img did not produce an image"),
            PipelineError::Codec(CodecError::BadEncoding) => String::from_str("Unable to decode txt2img base64 response"),
            PipelineError::Codec(CodecError::TranscodeFailed) => String::from_str("Unable to transcode txt2img image"),
        }
    }
}

} // verus!
