//! Reading a PNG image from the X11 clipboard through the `xclip` utility.
use vstd::prelude::*;
use vstd::string::StringExecFns;

verus! {

/// A program to run and its arguments.
pub struct ClipboardCommand {
    pub program: String,
    pub args: Vec<String>,
}

/// What a finished run of the clipboard utility gave back.
pub struct CommandOutput {
    /// Whether it exited with status zero.
    pub success: bool,
    pub stdout: Vec<u8>,
}

/// Why no image could be read from the clipboard.
pub enum ClipboardError {
    /// The utility could not be started; the cause.
    ExecutionFailed(String),
    /// The utility ran but exited with a failure status.
    NoImageInClipboard,
}

/// A clipboard failure, as text.
pub enum ClipboardFailure {
    ExecutionFailed(Seq<char>),
    NoImageInClipboard,
}

impl View for ClipboardError {
    type V = ClipboardFailure;

    open spec fn view(&self) -> ClipboardFailure {
        match self {
            ClipboardError::ExecutionFailed(c) => ClipboardFailure::ExecutionFailed(c@),
            ClipboardError::NoImageInClipboard => ClipboardFailure::NoImageInClipboard,
        }
    }
}

/// The message given when the clipboard holds no PNG image.
pub open spec fn no_image_text() -> Seq<char> {
    "Failed to read image from clipboard. Is there an image in the clipboard?"@
}

/// The message that reports a clipboard failure.
pub open spec fn clipboard_message(f: ClipboardFailure) -> Seq<char> {
    match f {
        ClipboardFailure::ExecutionFailed(c) => "Failed to execute xclip: "@ + c,
        ClipboardFailure::NoImageInClipboard => no_image_text(),
    }
}

impl ClipboardError {
    /// The message that reports this failure.
    pub fn message(&self) -> (r: String)
        ensures
            r@ == clipboard_message(self@),
    {
        match self {
            ClipboardError::ExecutionFailed(c) => String::from_str("Failed to execute xclip: ").concat(c.as_str()),
            ClipboardError::NoImageInClipboard => String::from_str(
                "Failed to read image from clipboard. Is there an image in the clipboard?",
            ),
        }
    }
}

/// The arguments that ask `xclip` to print the clipboard's PNG image.
pub open spec fn clipboard_args() -> Seq<Seq<char>> {
    seq!["-selection"@, "clipboard"@, "-t"@, "image/png"@, "-o"@]
}

/// The command that prints the clipboard's PNG image on standard output.
pub fn clipboard_command() -> (r: ClipboardCommand)
    ensures
        r.program@ == "xclip"@,
        r.args@.map_values(|a: String| a@) == clipboard_args(),
{
    let args = vec![
        String::from_str("-selection"),
        String::from_str("clipboard"),
        String::from_str("-t"),
        String::from_str("image/png"),
        String::from_str("-o"),
    ];
    let r = ClipboardCommand { program: String::from_str("xclip"), args };
    assert(r.args@.map_values(|a: String| a@) =~= clipboard_args());
    r
}

/// What a run of the clipboard utility yields: the image bytes, or the
/// failure. `Err` stands for a run that could not be started.
pub open spec fn read_spec(run: Result<CommandOutput, String>) -> Result<Seq<u8>, ClipboardFailure> {
    match run {
        Err(c) => Err(ClipboardFailure::ExecutionFailed(c@)),
        Ok(out) => if out.success {
            Ok(out.stdout@)
        } else {
            Err(ClipboardFailure::NoImageInClipboard)
        },
    }
}

/// The clipboard step's result, as bytes and text.
pub open spec fn clipboard_view(r: Result<Vec<u8>, ClipboardError>) -> Result<Seq<u8>, ClipboardFailure> {
    match r {
        Ok(b) => Ok(b@),
        Err(e) => Err(e@),
    }
}

} // verus!
