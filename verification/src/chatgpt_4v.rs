use vstd::prelude::*;

use base64::Engine;

use crate::ai::AiImageChatError;
use crate::json::{append_json_escaped, json_escaped_spec};

verus! {

/// The message from the API call.
#[derive(Clone, Debug)]
pub struct Message {
    /// The content of the message.
    pub content: String,
    /// The role of the message.
    pub role: String,
}

/// One choice from the API call.
#[derive(Clone, Debug)]
pub struct Choice {
    /// The finish reason of the message.
    pub finish_reason: String,
    /// The index of the message.
    pub index: u32,
    /// The message of this choice.
    pub message: Message,
}

/// Usage statistics for the API call.
#[derive(Clone, Debug)]
pub struct Usage {
    /// The prompt tokens of the API call.
    pub prompt_tokens: u32,
    /// The completion tokens of the API call.
    pub completion_tokens: u32,
    /// The total tokens of the API call.
    pub total_tokens: u32,
}

/// The response from the API call, as plain values: whatever decodes the
/// provider's JSON hands the result over in this shape.
#[derive(Clone, Debug)]
pub struct ApiResponse {
    /// The ID of the API call.
    pub id: String,
    /// The object of the API call.
    pub object: String,
    /// The created time of the API call.
    pub created: u64,
    /// The model of the API call.
    pub model: String,
    /// The usage statistics of the API call.
    pub usage: Usage,
    /// The choices of the API call.
    pub choices: Vec<Choice>,
}

/// The name of what the standard, padded base64 encoder returns for a byte
/// sequence: a function of the input bytes alone.
pub uninterp spec fn base64_of(bytes: Seq<u8>) -> Seq<char>;

/// A character of the standard base64 alphabet, or the `=` padding.
pub open spec fn base64_char(c: char) -> bool {
    ('A' <= c && c <= 'Z') || ('a' <= c && c <= 'z') || ('0' <= c && c <= '9') || c == '+' || c
        == '/' || c == '='
}

/// The length of the standard padded base64 encoding of `n` bytes: four
/// output characters for every started group of three input bytes.
pub open spec fn base64_len(n: nat) -> nat {
    4 * ((n + 2) / 3)
}

/// Relies on base64's `Engine::encode` with the `STANDARD` engine (the
/// standard alphabet, with padding): the output depends on the input bytes
/// alone, has four characters for every started group of three bytes, and
/// holds only alphabet and padding characters. The encoder panics when the
/// encoded length overflows `usize`, so inputs that large are excluded.
#[verifier::external_body]
fn base64_encode(bytes: &Vec<u8>) -> (r: String)
    requires
        bytes@.len() + 2 <= 3 * (usize::MAX as int / 4),
    ensures
        r@ == base64_of(bytes@),
        r@.len() == base64_len(bytes@.len()),
        forall|i: int| 0 <= i < r@.len() ==> base64_char(#[trigger] r@[i]),
{
    base64::engine::general_purpose::STANDARD.encode(bytes)
}

/// The image URL embedded for a local image: a `data:` URI holding the
/// base64-encoded image bytes.
pub open spec fn data_uri_spec(bytes: Seq<u8>) -> Seq<char> {
    "data:image/jpeg;base64,"@ + base64_of(bytes)
}

/// The JSON body of a chat-completions request: one user message holding a
/// text part with the question and an image part with the image URL, the
/// fixed model identifier, and the fixed response-length cap.
pub open spec fn request_body_spec(question: Seq<char>, image_url: Seq<char>) -> Seq<char> {
    "{\"model\":\"gpt-4-vision-preview\",\"messages\":[{\"role\":\"user\",\"content\":[{\"type\":\"text\",\"text\":\""@
        + json_escaped_spec(question)
        + "\"},{\"type\":\"image_url\",\"image_url\":{\"url\":\""@ + json_escaped_spec(image_url)
        + "\"}}]}],\"max_tokens\":300}"@
}

/// Build the payload for the chat-completions API call: the exact JSON text
/// of `request_body_spec`. Building the payload never fails.
pub fn make_payload(text: &str, image_url: &str) -> (r: String)
    ensures
        r@ == request_body_spec(text@, image_url@),
{
    let mut p = String::new();
    p.append(
        "{\"model\":\"gpt-4-vision-preview\",\"messages\":[{\"role\":\"user\",\"content\":[{\"type\":\"text\",\"text\":\"",
    );
    append_json_escaped(&mut p, text);
    p.append("\"},{\"type\":\"image_url\",\"image_url\":{\"url\":\"");
    append_json_escaped(&mut p, image_url);
    p.append("\"}}]}],\"max_tokens\":300}");
    proof {
        assert(p@ =~= request_body_spec(text@, image_url@));
    }
    p
}

/// Turn the outcome of reading a local image file into the image URL for the
/// request: on bytes, a `data:` URI holding their base64 encoding — with the
/// standard padded length, and alphabet and padding characters only after
/// the prefix; on a read failure, `BadImagePath` carrying the failure's
/// description.
pub fn resolve_local_image(read_result: Result<Vec<u8>, String>) -> (r: Result<
    String,
    AiImageChatError,
>)
    requires
        read_result matches Ok(bytes) ==> bytes@.len() + 2 <= 3 * (usize::MAX as int / 4),
    ensures
        read_result matches Ok(bytes) ==> (r matches Ok(u) && u@ == data_uri_spec(bytes@)
            && u@.len() == "data:image/jpeg;base64,"@.len() + base64_len(bytes@.len())
            && forall|i: int|
            "data:image/jpeg;base64,"@.len() <= i < u@.len() ==> base64_char(#[trigger] u@[i])),
        read_result matches Err(m) ==> (r matches Err(e) && e matches
            AiImageChatError::BadImagePath(d) && d@ == m@),
{
    match read_result {
        Ok(bytes) => {
            let mut u = String::from_str("data:image/jpeg;base64,");
            let encoded = base64_encode(&bytes);
            u.append(encoded.as_str());
            proof {
                assert forall|i: int|
                    "data:image/jpeg;base64,"@.len() <= i < u@.len() implies base64_char(
                    u@[i],
                ) by {
                    assert(u@[i] == encoded@[i - "data:image/jpeg;base64,"@.len()]);
                }
            }
            Ok(u)
        },
        Err(m) => Err(AiImageChatError::BadImagePath(m)),
    }
}

/// Decide from the HTTP status whether the exchange failed: every
/// client-error (4xx) and server-error (5xx) status yields `RequestFailed`,
/// and no other status does; on a failure status the body is never to be
/// looked at.
pub fn check_status(status: u16) -> (r: Result<(), AiImageChatError>)
    ensures
        400 <= status <= 599 ==> (r matches Err(e) && e matches AiImageChatError::RequestFailed(_)),
        !(400 <= status <= 599) ==> r is Ok,
{
    if 400 <= status && status <= 599 {
        Err(AiImageChatError::RequestFailed(String::from_str("Request failed")))
    } else {
        Ok(())
    }
}

/// Validate the decoded response: exactly one choice is accepted, and its
/// message content is returned unmodified; zero or several choices are a
/// protocol violation and yield `UnableToParseResponse`.
pub fn extract_answer(response: &ApiResponse) -> (r: Result<String, AiImageChatError>)
    ensures
        response.choices@.len() == 1 ==> (r matches Ok(answer) && answer@
            == response.choices@[0].message.content@),
        response.choices@.len() != 1 ==> (r matches Err(e) && e matches
            AiImageChatError::UnableToParseResponse(_)),
{
    if response.choices.len() == 1 {
        Ok(response.choices[0].message.content.clone())
    } else {
        Err(AiImageChatError::UnableToParseResponse(String::from_str("Expected one choice")))
    }
}

/// ChatGpt4v describes the GPT-4 Vision backend of the `AiImageChat`
/// capability: the fixed chat-completions endpoint and model, authorized by
/// an API key.
///
/// The verified methods here fix everything the exchange sends — endpoint,
/// headers and body — and everything the exchange's outcome means — status
/// classification and response validation. The network transport itself
/// stands outside the library and composes these methods.
pub struct ChatGpt4v {
    /// The API key used as the bearer token.
    pub api_key: String,
}

impl ChatGpt4v {
    /// The chat-completions endpoint every request is posted to.
    pub fn endpoint(&self) -> (r: String)
        ensures
            r@ == "https://api.openai.com/v1/chat/completions"@,
    {
        String::from_str("https://api.openai.com/v1/chat/completions")
    }

    /// The value of the `Authorization` header: a bearer token holding the
    /// API key.
    pub fn auth_header_value(&self) -> (r: String)
        ensures
            r@ == "Bearer "@ + self.api_key@,
    {
        let mut h = String::from_str("Bearer ");
        h.append(self.api_key.as_str());
        h
    }

    /// The value of the `Content-Type` header.
    pub fn content_type(&self) -> (r: String)
        ensures
            r@ == "application/json"@,
    {
        String::from_str("application/json")
    }

    /// The request body for a question about an image at `image_url`.
    pub fn request_body(&self, question: &str, image_url: &str) -> (r: String)
        ensures
            r@ == request_body_spec(question@, image_url@),
    {
        make_payload(question, image_url)
    }
}

} // verus!
