//! Properties that hold across the clipboard step, the analysis and the
//! tool reports.
use crate::clipboard::{clipboard_message, no_image_text, read_spec, ClipboardFailure, CommandOutput};
use crate::gemini::{first_text, AnalysisFailure, no_response_text, reply_outcome, AnalysisResponse, GeminiReply};
use crate::server::{
    describe_context, describe_prompt_spec, tool_report_spec, tool_step_spec, transcribe_context,
    transcribe_prompt_text, StepView, ToolReport,
};
use vstd::prelude::*;

verus! {

/// Whether `needle` occurs in `hay` as a contiguous run.
pub open spec fn contains(hay: Seq<char>, needle: Seq<char>) -> bool {
    exists|i: int|
        0 <= i && i + needle.len() <= hay.len() && #[trigger] hay.subrange(i, i + needle.len()) == needle
}

proof fn lemma_ends_with(prefix: Seq<char>, needle: Seq<char>)
    ensures
        contains(prefix + needle, needle),
{
    let hay = prefix + needle;
    let i = prefix.len() as int;
    assert(hay.subrange(i, i + needle.len()) =~= needle);
}

/// When the clipboard utility exits with a failure status, both tools report
/// an error that says no image is in the clipboard, and neither calls the API.
pub proof fn lemma_no_image_never_calls_api(key: Seq<char>, out: CommandOutput, focus: Option<Seq<char>>)
    requires
        !out.success,
    ensures
        read_spec(Ok(out)) == Err::<Seq<u8>, ClipboardFailure>(ClipboardFailure::NoImageInClipboard),
        tool_step_spec(key, read_spec(Ok(out)), transcribe_prompt_text()) matches StepView::Done(rep)
            && rep.is_error && contains(rep.text, no_image_text()),
        tool_step_spec(key, read_spec(Ok(out)), describe_prompt_spec(focus)) matches StepView::Done(rep)
            && rep.is_error && contains(rep.text, no_image_text()),
{
    lemma_ends_with("Error reading clipboard: "@, no_image_text());
}

/// A well-formed reply with no first candidate, or whose first candidate has
/// no part, is reported by both tools as a success with the fallback text.
pub proof fn lemma_empty_reply_is_success(resp: AnalysisResponse)
    requires
        first_text(resp) is None,
    ensures
        reply_outcome(GeminiReply::Answered(Ok(resp))) == Ok::<Seq<char>, AnalysisFailure>(no_response_text()),
        tool_report_spec(reply_outcome(GeminiReply::Answered(Ok(resp))), transcribe_context())
            == (ToolReport { is_error: false, text: no_response_text() }),
        tool_report_spec(reply_outcome(GeminiReply::Answered(Ok(resp))), describe_context())
            == (ToolReport { is_error: false, text: no_response_text() }),
{
}

/// A reply with a failure status is reported by both tools as an error whose
/// text holds the reply's body as it came.
pub proof fn lemma_rejection_reports_body(body: String)
    ensures
        tool_report_spec(reply_outcome(GeminiReply::Rejected(Some(body))), transcribe_context()) matches ToolReport { is_error, text }
            && is_error && contains(text, body@),
        tool_report_spec(reply_outcome(GeminiReply::Rejected(Some(body))), describe_context()) matches ToolReport { is_error, text }
            && is_error && contains(text, body@),
{
    lemma_ends_with(transcribe_context() + "Gemini API error: "@, body@);
    lemma_ends_with(describe_context() + "Gemini API error: "@, body@);
    assert(transcribe_context() + ("Gemini API error: "@ + body@) =~= transcribe_context() + "Gemini API error: "@ + body@);
    assert(describe_context() + ("Gemini API error: "@ + body@) =~= describe_context() + "Gemini API error: "@ + body@);
}

} // verus!
