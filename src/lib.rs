//! Clipboard image analysis: the decisions behind a small tool server that
//! reads a PNG image from the X11 clipboard and asks a Gemini vision model to
//! transcribe or describe it. Running the clipboard utility, the HTTP call and
//! the tool protocol are left to the caller; every step between them is here.
pub mod gemini;
pub mod clipboard;
pub mod server;
pub mod laws;
