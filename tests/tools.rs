use base64::Engine;
use clipboard_vision::clipboard::{clipboard_command, ClipboardError, CommandOutput};
use clipboard_vision::gemini::{
    build_request, extract_answer, is_success_status, AnalysisError, AnalysisResponse, Candidate,
    GeminiReply, Part, ResponseContent, ResponsePart,
};
use clipboard_vision::server::{
    describe_prompt, transcribe_prompt, ClipboardServer, DescribeImageRequest, ToolStep,
};

const NO_IMAGE: &str = "Failed to read image from clipboard. Is there an image in the clipboard?";
const GENERAL: &str = "Describe this image in detail. Include what you see, the layout, colors, key elements, and any notable features. If there is text, mention it but don't transcribe it fully unless it's critical to understanding the image.";

fn png_stub() -> Vec<u8> {
    vec![0x89, b'P', b'N', b'G', 0x0d, 0x0a, 0x1a, 0x0a, 0x00, 0x01]
}

fn response_with(texts: Vec<Vec<&str>>) -> AnalysisResponse {
    AnalysisResponse {
        candidates: texts
            .into_iter()
            .map(|parts| Candidate {
                content: ResponseContent {
                    parts: parts.into_iter().map(|t| ResponsePart { text: t.to_string() }).collect(),
                },
            })
            .collect(),
    }
}

fn image_data(step: &ToolStep) -> String {
    match step {
        ToolStep::Call(call) => match &call.body.contents[0].parts[0] {
            Part::InlineData { inline_data } => inline_data.data.clone(),
            Part::Text { .. } => panic!("the image part must come first"),
        },
        ToolStep::Done(_) => panic!("expected a call"),
    }
}

fn done_text(step: &ToolStep) -> (bool, String) {
    match step {
        ToolStep::Done(r) => (r.is_error, r.text.clone()),
        ToolStep::Call(_) => panic!("expected a report, not a call"),
    }
}

#[test]
fn base64_payload_round_trips() {
    let server = ClipboardServer::new("key".to_string());
    for bytes in [png_stub(), vec![0u8], vec![1, 2], vec![255, 254, 253], (0..=255u8).collect()] {
        let step = server.transcribe_clipboard_image(Ok(bytes.clone()));
        let data = image_data(&step);
        let decoded = base64::prelude::BASE64_STANDARD.decode(data.as_bytes()).unwrap();
        assert_eq!(decoded, bytes);
    }
}

#[test]
fn request_holds_encoded_image_then_prompt() {
    let req = build_request(&b"hello".to_vec(), "what is this".to_string());
    assert_eq!(req.contents.len(), 1);
    let parts = &req.contents[0].parts;
    assert_eq!(parts.len(), 2);
    match &parts[0] {
        Part::InlineData { inline_data } => {
            assert_eq!(inline_data.mime_type, "image/png");
            assert_eq!(inline_data.data, "aGVsbG8=");
        }
        Part::Text { .. } => panic!("image part expected first"),
    }
    match &parts[1] {
        Part::Text { text } => assert_eq!(text, "what is this"),
        Part::InlineData { .. } => panic!("text part expected second"),
    }
}

#[test]
fn call_targets_endpoint_with_key_header() {
    let server = ClipboardServer::new("secret-key".to_string());
    let call = server.gemini_call(&png_stub(), "p".to_string());
    assert_eq!(
        call.url,
        "https://generativelanguage.googleapis.com/v1beta/models/gemini-3-flash-preview:generateContent"
    );
    assert_eq!(call.api_key_header, "x-goog-api-key");
    assert_eq!(call.api_key, "secret-key");
}

#[test]
fn failed_clipboard_run_skips_api() {
    let server = ClipboardServer::new("key".to_string());
    let run = || Ok(CommandOutput { success: false, stdout: b"partial".to_vec() });
    let clip = ClipboardServer::read_clipboard_image(run());
    assert!(matches!(clip, Err(ClipboardError::NoImageInClipboard)));

    let (err, text) = done_text(&server.transcribe_clipboard_image(ClipboardServer::read_clipboard_image(run())));
    assert!(err);
    assert_eq!(text, format!("Error reading clipboard: {}", NO_IMAGE));

    let params = DescribeImageRequest { focus: Some("colors".to_string()) };
    let (err, text) = done_text(&server.describe_clipboard_image(&params, ClipboardServer::read_clipboard_image(run())));
    assert!(err);
    assert!(text.contains("Is there an image in the clipboard?"));
}

#[test]
fn clipboard_launch_failure_carries_cause() {
    let clip = ClipboardServer::read_clipboard_image(Err("No such file or directory".to_string()));
    match clip {
        Err(e) => {
            assert!(matches!(e, ClipboardError::ExecutionFailed(_)));
            assert_eq!(e.message(), "Failed to execute xclip: No such file or directory");
        }
        Ok(_) => panic!("expected an error"),
    }
}

#[test]
fn successful_clipboard_run_returns_stdout_verbatim() {
    let clip = ClipboardServer::read_clipboard_image(Ok(CommandOutput { success: true, stdout: png_stub() }));
    assert_eq!(clip.ok().unwrap(), png_stub());
}

#[test]
fn clipboard_command_asks_for_png() {
    let cmd = clipboard_command();
    assert_eq!(cmd.program, "xclip");
    assert_eq!(cmd.args, vec!["-selection", "clipboard", "-t", "image/png", "-o"]);
}

#[test]
fn describe_prompt_depends_on_focus() {
    assert_eq!(describe_prompt(&None), GENERAL);
    assert_eq!(describe_prompt(&Some(String::new())), GENERAL);
    assert_eq!(
        describe_prompt(&Some("the error message".to_string())),
        "Describe this image, focusing specifically on: the error message\n\nProvide a clear, detailed response."
    );
}

#[test]
fn transcribe_prompt_is_fixed() {
    assert_eq!(
        transcribe_prompt(),
        "Transcribe all text from this image exactly as it appears. If there are multiple lines, preserve the line breaks. If there is no text, respond with '[No text found]'."
    );
}

#[test]
fn describe_step_sends_focused_prompt() {
    let server = ClipboardServer::new("key".to_string());
    let params = DescribeImageRequest { focus: Some("colors".to_string()) };
    match server.describe_clipboard_image(&params, Ok(png_stub())) {
        ToolStep::Call(call) => match &call.body.contents[0].parts[1] {
            Part::Text { text } => assert!(text.contains("focusing specifically on: colors")),
            Part::InlineData { .. } => panic!("text part expected second"),
        },
        ToolStep::Done(_) => panic!("expected a call"),
    }
}

#[test]
fn empty_reply_falls_back_to_success() {
    for resp in [response_with(vec![]), response_with(vec![vec![]])] {
        let outcome = ClipboardServer::analyze_with_gemini(GeminiReply::Answered(Ok(resp)));
        let report = ClipboardServer::transcribe_result(outcome);
        assert!(!report.is_error);
        assert_eq!(report.text, "[No response from Gemini]");
    }
}

#[test]
fn only_first_candidate_part_is_read() {
    let resp = response_with(vec![vec!["first", "second"], vec!["other"]]);
    assert_eq!(extract_answer(&resp), "first");
}

#[test]
fn rejected_reply_reports_body() {
    let body = "{\"error\":{\"code\":429,\"message\":\"quota exceeded\"}}";
    let outcome = ClipboardServer::analyze_with_gemini(GeminiReply::Rejected(Some(body.to_string())));
    assert!(matches!(outcome, Err(AnalysisError::ApiError(_))));
    let report = ClipboardServer::describe_result(outcome);
    assert!(report.is_error);
    assert!(report.text.contains(body));
    assert_eq!(report.text, format!("Error describing with Gemini: Gemini API error: {}", body));
}

#[test]
fn unreadable_error_body_reports_placeholder() {
    let outcome = ClipboardServer::analyze_with_gemini(GeminiReply::Rejected(None));
    let report = ClipboardServer::transcribe_result(outcome);
    assert!(report.is_error);
    assert_eq!(report.text, "Error transcribing with Gemini: Gemini API error: Unknown error");
}

#[test]
fn send_failure_is_reported() {
    let outcome = ClipboardServer::analyze_with_gemini(GeminiReply::SendFailed("connection refused".to_string()));
    assert!(matches!(outcome, Err(AnalysisError::SendFailed(_))));
    let report = ClipboardServer::transcribe_result(outcome);
    assert_eq!(report.text, "Error transcribing with Gemini: Failed to send request to Gemini: connection refused");
}

#[test]
fn malformed_reply_is_parse_error() {
    let outcome = ClipboardServer::analyze_with_gemini(GeminiReply::Answered(Err("expected value".to_string())));
    match outcome {
        Err(e) => {
            assert!(matches!(e, AnalysisError::ParseError(_)));
            assert_eq!(e.message(), "Failed to parse Gemini response: expected value");
        }
        Ok(_) => panic!("expected an error"),
    }
}

#[test]
fn success_status_is_2xx() {
    assert!(!is_success_status(199));
    assert!(is_success_status(200));
    assert!(is_success_status(299));
    assert!(!is_success_status(300));
    assert!(!is_success_status(404));
}

#[test]
fn transcribe_end_to_end() {
    let server = ClipboardServer::new("key".to_string());
    let stub = png_stub();
    assert_eq!(stub.len(), 10);
    let clip = ClipboardServer::read_clipboard_image(Ok(CommandOutput { success: true, stdout: stub }));
    let step = server.transcribe_clipboard_image(clip);
    assert!(matches!(step, ToolStep::Call(_)));
    let reply = GeminiReply::Answered(Ok(response_with(vec![vec!["HELLO"]])));
    let report = ClipboardServer::transcribe_result(ClipboardServer::analyze_with_gemini(reply));
    assert!(!report.is_error);
    assert_eq!(report.text, "HELLO");
}

#[test]
fn instructions_name_both_tools() {
    let text = ClipboardServer::instructions();
    assert!(text.contains("transcribe_clipboard_image"));
    assert!(text.contains("describe_clipboard_image"));
}
