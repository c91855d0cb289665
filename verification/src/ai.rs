use vstd::prelude::*;

verus! {

/// An error from the AI.
///
/// Every failure of a pick operation is one of these four kinds; the payload
/// is a human-readable description of the underlying cause, kept only for
/// diagnostics and never part of the matching contract.
#[derive(Debug)]
pub enum AiImageChatError {
    /// The image path was invalid: the local image could not be read or
    /// encoded.
    BadImagePath(String),
    /// The request to the AI failed at the transport level, or came back
    /// with a client-error or server-error status.
    RequestFailed(String),
    /// The response from the AI could not be parsed, or did not hold exactly
    /// one choice.
    UnableToParseResponse(String),
    /// The prompt could not be generated.
    FailedToGeneratePrompt(String),
}

/// A path to an image: where the bytes of the image come from.
#[derive(Debug, Clone)]
pub enum ImagePath {
    /// A URL to an image.
    Url(String),
    /// A path to a local image file.
    File(String),
}

/// A trait for AI backends that can answer questions about images.
///
/// This is the one capability the rest of the library is written against:
/// given a question and an image, produce a text answer or fail with an
/// `AiImageChatError`. Nothing is promised of the answer itself — a backend
/// is free to reply with any text.
pub trait AiImageChat {
    /// Ask the AI about the image. The question must be non-empty.
    fn ask_about_image(&self, question: &str, image_path: &ImagePath) -> Result<
        String,
        AiImageChatError,
    >
        requires
            question@.len() > 0,
    ;
}

} // verus!
