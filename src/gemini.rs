//! The Gemini `generateContent` exchange: the request that carries one image
//! and one prompt, and how a reply becomes text or an error.
use base64::Engine;
use vstd::prelude::*;
use vstd::string::StringExecFns;

verus! {

/// The padded, standard-alphabet base64 text of a byte sequence.
pub uninterp spec fn base64_standard_of(b: Seq<u8>) -> Seq<char>;

/// Whether the base64 text of `n` bytes has a length that fits in `usize`.
pub open spec fn base64_encodable(n: nat) -> bool {
    (n + 2) / 3 * 4 <= usize::MAX
}

/// Relies on base64's `BASE64_STANDARD.encode`: the padded standard encoding,
/// four characters for each started group of three bytes. It panics only when
/// that length overflows `usize`.
#[verifier::external_body]
fn encode_base64(b: &Vec<u8>) -> (r: String)
    requires
        base64_encodable(b@.len()),
    ensures
        r@ == base64_standard_of(b@),
        r@.len() == (b@.len() + 2) / 3 * 4,
{
    base64::prelude::BASE64_STANDARD.encode(b)
}

pub open spec fn png_mime_type() -> Seq<char> {
    "image/png"@
}

/// The base64 image payload of a request part.
pub struct InlineData {
    pub mime_type: String,
    pub data: String,
}

/// One part of a request: an image or a piece of text.
pub enum Part {
    Text { text: String },
    InlineData { inline_data: InlineData },
}

pub struct Content {
    pub parts: Vec<Part>,
}

/// The body of a `generateContent` request.
pub struct AnalysisRequest {
    pub contents: Vec<Content>,
}

/// What a request part holds, as text.
pub enum PartView {
    Text(Seq<char>),
    InlineData { mime_type: Seq<char>, data: Seq<char> },
}

impl View for Part {
    type V = PartView;

    open spec fn view(&self) -> PartView {
        match self {
            Part::Text { text } => PartView::Text(text@),
            Part::InlineData { inline_data } => PartView::InlineData {
                mime_type: inline_data.mime_type@,
                data: inline_data.data@,
            },
        }
    }
}

impl View for Content {
    type V = Seq<PartView>;

    open spec fn view(&self) -> Seq<PartView> {
        self.parts@.map_values(|p: Part| p@)
    }
}

impl View for AnalysisRequest {
    type V = Seq<Seq<PartView>>;

    open spec fn view(&self) -> Seq<Seq<PartView>> {
        self.contents@.map_values(|c: Content| c@)
    }
}

/// The request for one image and one prompt: a single content whose image
/// part comes first and whose text part comes second.
pub open spec fn request_spec(image: Seq<u8>, prompt: Seq<char>) -> Seq<Seq<PartView>> {
    seq![
        seq![
            PartView::InlineData { mime_type: png_mime_type(), data: base64_standard_of(image) },
            PartView::Text(prompt),
        ],
    ]
}

/// Builds the request that sends `image_data` as a PNG together with `prompt`.
pub fn build_request(image_data: &Vec<u8>, prompt: String) -> (r: AnalysisRequest)
    requires
        base64_encodable(image_data@.len()),
    ensures
        r@ == request_spec(image_data@, prompt@),
{
    let data = encode_base64(image_data);
    let image_part = Part::InlineData {
        inline_data: InlineData { mime_type: String::from_str("image/png"), data },
    };
    let text_part = Part::Text { text: prompt };
    let content = Content { parts: vec![image_part, text_part] };
    let r = AnalysisRequest { contents: vec![content] };
    proof {
        assert(r.contents@[0]@ =~= request_spec(image_data@, prompt@)[0]);
        assert(r@ =~= request_spec(image_data@, prompt@));
    }
    r
}

/// The text of one part of a reply.
pub struct ResponsePart {
    pub text: String,
}

pub struct ResponseContent {
    pub parts: Vec<ResponsePart>,
}

pub struct Candidate {
    pub content: ResponseContent,
}

/// The body of a successful `generateContent` reply.
pub struct AnalysisResponse {
    pub candidates: Vec<Candidate>,
}

/// The text of the first part of the first candidate, if the reply has one.
pub open spec fn first_text(r: AnalysisResponse) -> Option<Seq<char>> {
    if r.candidates@.len() > 0 && r.candidates@[0].content.parts@.len() > 0 {
        Some(r.candidates@[0].content.parts@[0].text@)
    } else {
        None
    }
}

/// The text that stands for a reply without a usable answer.
pub open spec fn no_response_text() -> Seq<char> {
    "[No response from Gemini]"@
}

/// The text placed in an API error when the error body could not be read.
pub open spec fn unknown_error_text() -> Seq<char> {
    "Unknown error"@
}

/// The answer a well-formed reply gives: its first text, or the fallback text.
pub open spec fn answer_spec(r: AnalysisResponse) -> Seq<char> {
    match first_text(r) {
        Some(t) => t,
        None => no_response_text(),
    }
}

/// Reads the answer out of a well-formed reply.
pub fn extract_answer(r: &AnalysisResponse) -> (t: String)
    ensures
        t@ == answer_spec(*r),
{
    if r.candidates.len() > 0 && r.candidates[0].content.parts.len() > 0 {
        r.candidates[0].content.parts[0].text.clone()
    } else {
        String::from_str("[No response from Gemini]")
    }
}

/// Whether an HTTP status code reports success (the 2xx range).
pub fn is_success_status(status: u16) -> (r: bool)
    ensures
        r == (200 <= status && status < 300),
{
    200 <= status && status < 300
}

/// How the exchange with the API ended, as seen by the HTTP client.
pub enum GeminiReply {
    /// The request could not be sent; the client's message.
    SendFailed(String),
    /// A status outside 2xx; the body text, or `None` if it could not be read.
    Rejected(Option<String>),
    /// A 2xx status; the parsed body, or the parser's message.
    Answered(Result<AnalysisResponse, String>),
}

/// Why an analysis failed.
pub enum AnalysisError {
    SendFailed(String),
    ApiError(String),
    ParseError(String),
}

/// An analysis failure, as text.
pub enum AnalysisFailure {
    SendFailed(Seq<char>),
    ApiError(Seq<char>),
    ParseError(Seq<char>),
}

impl View for AnalysisError {
    type V = AnalysisFailure;

    open spec fn view(&self) -> AnalysisFailure {
        match self {
            AnalysisError::SendFailed(e) => AnalysisFailure::SendFailed(e@),
            AnalysisError::ApiError(e) => AnalysisFailure::ApiError(e@),
            AnalysisError::ParseError(e) => AnalysisFailure::ParseError(e@),
        }
    }
}

/// The message that reports an analysis failure.
pub open spec fn analysis_message(f: AnalysisFailure) -> Seq<char> {
    match f {
        AnalysisFailure::SendFailed(e) => "Failed to send request to Gemini: "@ + e,
        AnalysisFailure::ApiError(e) => "Gemini API error: "@ + e,
        AnalysisFailure::ParseError(e) => "Failed to parse Gemini response: "@ + e,
    }
}

impl AnalysisError {
    /// The message that reports this failure.
    pub fn message(&self) -> (r: String)
        ensures
            r@ == analysis_message(self@),
    {
        match self {
            AnalysisError::SendFailed(e) => String::from_str("Failed to send request to Gemini: ").concat(e.as_str()),
            AnalysisError::ApiError(e) => String::from_str("Gemini API error: ").concat(e.as_str()),
            AnalysisError::ParseError(e) => String::from_str("Failed to parse Gemini response: ").concat(e.as_str()),
        }
    }
}

/// What an analysis yields: the answer text, or the failure.
pub open spec fn reply_outcome(reply: GeminiReply) -> Result<Seq<char>, AnalysisFailure> {
    match reply {
        GeminiReply::SendFailed(e) => Err(AnalysisFailure::SendFailed(e@)),
        GeminiReply::Rejected(Some(body)) => Err(AnalysisFailure::ApiError(body@)),
        GeminiReply::Rejected(None) => Err(AnalysisFailure::ApiError(unknown_error_text())),
        GeminiReply::Answered(Err(e)) => Err(AnalysisFailure::ParseError(e@)),
        GeminiReply::Answered(Ok(r)) => Ok(answer_spec(r)),
    }
}

/// An analysis result, as text.
pub open spec fn outcome_view(r: Result<String, AnalysisError>) -> Result<Seq<char>, AnalysisFailure> {
    match r {
        Ok(t) => Ok(t@),
        Err(e) => Err(e@),
    }
}

} // verus!
