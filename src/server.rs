//! The two tools, transcribe and describe, as steps: the clipboard's result
//! decides whether the API is called, and the API's result decides the
//! report that goes back to the caller.
use crate::clipboard::{
    clipboard_message, clipboard_view, read_spec, ClipboardError, ClipboardFailure, CommandOutput,
};
use crate::gemini::{
    analysis_message, base64_encodable, build_request, extract_answer, outcome_view,
    request_spec, reply_outcome, AnalysisError, AnalysisFailure, AnalysisRequest, GeminiReply,
    PartView,
};
use vstd::prelude::*;
use vstd::string::StringExecFns;

verus! {

/// The parameters of the describe tool.
pub struct DescribeImageRequest {
    /// An aspect of the image to focus on; absent or empty means none.
    pub focus: Option<String>,
}

/// The server's configuration: the API key sent with every request.
pub struct ClipboardServer {
    gemini_api_key: String,
}

/// An HTTP POST to the API, with the key in a header.
pub struct GeminiCall {
    pub url: String,
    pub api_key_header: String,
    pub api_key: String,
    pub body: AnalysisRequest,
}

pub struct CallView {
    pub url: Seq<char>,
    pub api_key_header: Seq<char>,
    pub api_key: Seq<char>,
    pub body: Seq<Seq<PartView>>,
}

impl View for GeminiCall {
    type V = CallView;

    open spec fn view(&self) -> CallView {
        CallView {
            url: self.url@,
            api_key_header: self.api_key_header@,
            api_key: self.api_key@,
            body: self.body@,
        }
    }
}

pub open spec fn gemini_url() -> Seq<char> {
    "https://generativelanguage.googleapis.com/v1beta/models/gemini-3-flash-preview:generateContent"@
}

pub open spec fn api_key_header() -> Seq<char> {
    "x-goog-api-key"@
}

/// The call that sends `image` and `prompt` with the key `key`.
pub open spec fn call_spec(key: Seq<char>, image: Seq<u8>, prompt: Seq<char>) -> CallView {
    CallView {
        url: gemini_url(),
        api_key_header: api_key_header(),
        api_key: key,
        body: request_spec(image, prompt),
    }
}

/// What a tool reports to its caller: a text, marked as an error or not.
pub struct ToolResult {
    pub is_error: bool,
    pub text: String,
}

pub struct ToolReport {
    pub is_error: bool,
    pub text: Seq<char>,
}

impl View for ToolResult {
    type V = ToolReport;

    open spec fn view(&self) -> ToolReport {
        ToolReport { is_error: self.is_error, text: self.text@ }
    }
}

/// What a tool does once the clipboard has been read: call the API, or
/// report at once.
pub enum ToolStep {
    Call(GeminiCall),
    Done(ToolResult),
}

pub enum StepView {
    Call(CallView),
    Done(ToolReport),
}

impl View for ToolStep {
    type V = StepView;

    open spec fn view(&self) -> StepView {
        match self {
            ToolStep::Call(c) => StepView::Call(c@),
            ToolStep::Done(t) => StepView::Done(t@),
        }
    }
}

pub open spec fn clipboard_context() -> Seq<char> {
    "Error reading clipboard: "@
}

pub open spec fn transcribe_context() -> Seq<char> {
    "Error transcribing with Gemini: "@
}

pub open spec fn describe_context() -> Seq<char> {
    "Error describing with Gemini: "@
}

/// A tool's step: with an image, the call that sends it with `prompt`;
/// without one, an error report that names the clipboard failure.
pub open spec fn tool_step_spec(
    key: Seq<char>,
    clip: Result<Seq<u8>, ClipboardFailure>,
    prompt: Seq<char>,
) -> StepView {
    match clip {
        Ok(image) => StepView::Call(call_spec(key, image, prompt)),
        Err(f) => StepView::Done(
            ToolReport { is_error: true, text: clipboard_context() + clipboard_message(f) },
        ),
    }
}

/// A tool's report on the analysis: the answer, or an error report that
/// names the failure after `context`.
pub open spec fn tool_report_spec(
    outcome: Result<Seq<char>, AnalysisFailure>,
    context: Seq<char>,
) -> ToolReport {
    match outcome {
        Ok(text) => ToolReport { is_error: false, text },
        Err(f) => ToolReport { is_error: true, text: context + analysis_message(f) },
    }
}

pub open spec fn transcribe_prompt_text() -> Seq<char> {
    "Transcribe all text from this image exactly as it appears. If there are multiple lines, preserve the line breaks. If there is no text, respond with '[No text found]'."@
}

pub open spec fn general_describe_prompt_text() -> Seq<char> {
    "Describe this image in detail. Include what you see, the layout, colors, key elements, and any notable features. If there is text, mention it but don't transcribe it fully unless it's critical to understanding the image."@
}

/// The prompt that asks for a description focused on `focus`.
pub open spec fn focused_prompt_text(focus: Seq<char>) -> Seq<char> {
    "Describe this image, focusing specifically on: "@ + focus
        + "\n\nProvide a clear, detailed response."@
}

/// The describe prompt for an optional focus: focused when the focus is
/// present and not empty, general otherwise.
pub open spec fn describe_prompt_spec(focus: Option<Seq<char>>) -> Seq<char> {
    match focus {
        Some(q) => if q.len() > 0 {
            focused_prompt_text(q)
        } else {
            general_describe_prompt_text()
        },
        None => general_describe_prompt_text(),
    }
}

pub open spec fn focus_view(focus: Option<String>) -> Option<Seq<char>> {
    match focus {
        Some(q) => Some(q@),
        None => None,
    }
}

/// The prompt of the transcribe tool.
pub fn transcribe_prompt() -> (r: String)
    ensures
        r@ == transcribe_prompt_text(),
{
    String::from_str(
        "Transcribe all text from this image exactly as it appears. If there are multiple lines, preserve the line breaks. If there is no text, respond with '[No text found]'.",
    )
}

/// The prompt of the describe tool for an optional focus.
pub fn describe_prompt(focus: &Option<String>) -> (r: String)
    ensures
        r@ == describe_prompt_spec(focus_view(*focus)),
        focus.is_none() ==> r@ == general_describe_prompt_text(),
        focus.is_some() && focus->Some_0@.len() == 0 ==> r@ == general_describe_prompt_text(),
        focus.is_some() && focus->Some_0@.len() > 0 ==> r@ == focused_prompt_text(focus->Some_0@),
{
    match focus {
        Some(q) if !q.as_str().is_empty() => String::from_str(
            "Describe this image, focusing specifically on: ",
        ).concat(q.as_str()).concat("\n\nProvide a clear, detailed response."),
        _ => String::from_str(
            "Describe this image in detail. Include what you see, the layout, colors, key elements, and any notable features. If there is text, mention it but don't transcribe it fully unless it's critical to understanding the image.",
        ),
    }
}

impl ClipboardServer {
    /// The API key this server sends.
    pub closed spec fn api_key(&self) -> Seq<char> {
        self.gemini_api_key@
    }

    pub fn new(gemini_api_key: String) -> (r: Self)
        ensures
            r.api_key() == gemini_api_key@,
    {
        ClipboardServer { gemini_api_key }
    }

    /// Turns a run of the clipboard utility into the image bytes or the
    /// failure: `Err` stands for a run that could not be started, a failure
    /// status for an empty clipboard, and success gives standard output as is.
    pub fn read_clipboard_image(run: Result<CommandOutput, String>) -> (r: Result<Vec<u8>, ClipboardError>)
        ensures
            clipboard_view(r) == read_spec(run),
    {
        match run {
            Err(cause) => Err(ClipboardError::ExecutionFailed(cause)),
            Ok(out) => if out.success {
                Ok(out.stdout)
            } else {
                Err(ClipboardError::NoImageInClipboard)
            },
        }
    }

    /// The call that sends `image_data` as a PNG with `prompt`.
    pub fn gemini_call(&self, image_data: &Vec<u8>, prompt: String) -> (r: GeminiCall)
        requires
            base64_encodable(image_data@.len()),
        ensures
            r@ == call_spec(self.api_key(), image_data@, prompt@),
    {
        GeminiCall {
            url: String::from_str(
                "https://generativelanguage.googleapis.com/v1beta/models/gemini-3-flash-preview:generateContent",
            ),
            api_key_header: String::from_str("x-goog-api-key"),
            api_key: self.gemini_api_key.clone(),
            body: build_request(image_data, prompt),
        }
    }

    /// Turns the API's reply into the answer text or the failure; a
    /// well-formed reply without an answer gives the fallback text.
    pub fn analyze_with_gemini(reply: GeminiReply) -> (r: Result<String, AnalysisError>)
        ensures
            outcome_view(r) == reply_outcome(reply),
    {
        match reply {
            GeminiReply::SendFailed(e) => Err(AnalysisError::SendFailed(e)),
            GeminiReply::Rejected(Some(body)) => Err(AnalysisError::ApiError(body)),
            GeminiReply::Rejected(None) => Err(AnalysisError::ApiError(String::from_str("Unknown error"))),
            GeminiReply::Answered(Err(e)) => Err(AnalysisError::ParseError(e)),
            GeminiReply::Answered(Ok(resp)) => Ok(extract_answer(&resp)),
        }
    }

    fn tool_step(&self, clipboard: Result<Vec<u8>, ClipboardError>, prompt: String) -> (r: ToolStep)
        requires
            clipboard is Ok ==> base64_encodable(clipboard->Ok_0@.len()),
        ensures
            r@ == tool_step_spec(self.api_key(), clipboard_view(clipboard), prompt@),
    {
        match clipboard {
            Ok(image) => ToolStep::Call(self.gemini_call(&image, prompt)),
            Err(e) => ToolStep::Done(
                ToolResult {
                    is_error: true,
                    text: String::from_str("Error reading clipboard: ").concat(e.message().as_str()),
                },
            ),
        }
    }

    /// The transcribe tool's first step, once the clipboard has been read.
    pub fn transcribe_clipboard_image(&self, clipboard: Result<Vec<u8>, ClipboardError>) -> (r: ToolStep)
        requires
            clipboard is Ok ==> base64_encodable(clipboard->Ok_0@.len()),
        ensures
            r@ == tool_step_spec(self.api_key(), clipboard_view(clipboard), transcribe_prompt_text()),
    {
        self.tool_step(clipboard, transcribe_prompt())
    }

    /// The describe tool's first step, once the clipboard has been read.
    pub fn describe_clipboard_image(
        &self,
        params: &DescribeImageRequest,
        clipboard: Result<Vec<u8>, ClipboardError>,
    ) -> (r: ToolStep)
        requires
            clipboard is Ok ==> base64_encodable(clipboard->Ok_0@.len()),
        ensures
            r@ == tool_step_spec(
                self.api_key(),
                clipboard_view(clipboard),
                describe_prompt_spec(focus_view(params.focus)),
            ),
    {
        self.tool_step(clipboard, describe_prompt(&params.focus))
    }

    /// The transcribe tool's report on the analysis.
    pub fn transcribe_result(outcome: Result<String, AnalysisError>) -> (r: ToolResult)
        ensures
            r@ == tool_report_spec(outcome_view(outcome), transcribe_context()),
    {
        tool_result(outcome, String::from_str("Error transcribing with Gemini: "))
    }

    /// The describe tool's report on the analysis.
    pub fn describe_result(outcome: Result<String, AnalysisError>) -> (r: ToolResult)
        ensures
            r@ == tool_report_spec(outcome_view(outcome), describe_context()),
    {
        tool_result(outcome, String::from_str("Error describing with Gemini: "))
    }

    /// The instructions the server gives to its clients.
    pub fn instructions() -> (r: String)
        ensures
            r@ == server_instructions_text(),
    {
        String::from_str(
            "Clipboard image analysis server. Use transcribe_clipboard_image to extract text, or describe_clipboard_image to get visual descriptions of images in your clipboard.",
        )
    }
}

pub open spec fn server_instructions_text() -> Seq<char> {
    "Clipboard image analysis server. Use transcribe_clipboard_image to extract text, or describe_clipboard_image to get visual descriptions of images in your clipboard."@
}

fn tool_result(outcome: Result<String, AnalysisError>, context: String) -> (r: ToolResult)
    ensures
        r@ == tool_report_spec(outcome_view(outcome), context@),
{
    match outcome {
        Ok(text) => ToolResult { is_error: false, text },
        Err(e) => ToolResult { is_error: true, text: context.concat(e.message().as_str()) },
    }
}

} // verus!
