//! Errors of the media-tool pipeline process.
use vstd::prelude::*;
use crate::text::{push_i64, push_str, signed_decimal};

verus! {

/// Errors that can occur during pipeline operations.
#[derive(Debug)]
pub enum PipelineError {
    /// The media tool's executable was not found
    FfmpegNotFound,
    /// Failed to spawn the media tool, with the error's message
    SpawnFailed(String),
    /// The media tool exited with a non-zero status
    ProcessFailed { exit_code: Option<i32>, stderr: String },
    /// Pipeline was interrupted (e.g., by SIGINT)
    Interrupted,
    /// I/O error during pipeline operation, with the error's message
    IoError(String),
}

/// `{:?}` of an optional exit code: `Some(code)` or `None`.
pub open spec fn exit_code_text(code: Option<i32>) -> Seq<char> {
    match code {
        Some(c) => "Some("@ + signed_decimal(c as int) + ")"@,
        None => "None"@,
    }
}

pub open spec fn pipeline_message(e: PipelineError) -> Seq<char> {
    match e {
        PipelineError::FfmpegNotFound => "FFmpeg not found. Please install it with:\n\n    brew install ffmpeg\n"@,
        PipelineError::SpawnFailed(m) => "Failed to spawn FFmpeg: "@ + m@,
        PipelineError::ProcessFailed { exit_code, stderr } => "FFmpeg exited with code "@ + exit_code_text(
            exit_code,
        ) + "\n"@ + stderr@,
        PipelineError::Interrupted => "Pipeline interrupted"@,
        PipelineError::IoError(m) => "I/O error: "@ + m@,
    }
}

impl PipelineError {
    /// The user-facing message of this error.
    pub fn to_string(&self) -> (r: String)
        ensures
            r@ == pipeline_message(*self),
    {
        let mut s = String::new();
        match self {
            PipelineError::FfmpegNotFound => push_str(
                &mut s,
                "FFmpeg not found. Please install it with:\n\n    brew install ffmpeg\n",
            ),
            PipelineError::SpawnFailed(m) => {
                push_str(&mut s, "Failed to spawn FFmpeg: ");
                push_str(&mut s, m.as_str());
            },
            PipelineError::ProcessFailed { exit_code, stderr } => {
                push_str(&mut s, "FFmpeg exited with code ");
                match exit_code {
                    Some(c) => {
                        push_str(&mut s, "Some(");
                        push_i64(&mut s, *c as i64);
                        push_str(&mut s, ")");
                    },
                    None => push_str(&mut s, "None"),
                }
                push_str(&mut s, "\n");
                push_str(&mut s, stderr.as_str());
            },
            PipelineError::Interrupted => push_str(&mut s, "Pipeline interrupted"),
            PipelineError::IoError(m) => {
                push_str(&mut s, "I/O error: ");
                push_str(&mut s, m.as_str());
            },
        }
        s
    }
}

/// The error of an I/O failure around the media tool: the tool is missing
/// when the failure is of the "not found" kind; otherwise an I/O error with
/// the failure's message.
pub fn from_io_failure(not_found: bool, message: &str) -> (e: PipelineError)
    ensures
        not_found ==> e is FfmpegNotFound,
        !not_found ==> (e matches PipelineError::IoError(m) && m@ == message@),
{
    if not_found {
        PipelineError::FfmpegNotFound
    } else {
        PipelineError::IoError(String::from_str(message))
    }
}

/// The error of a failure to launch the media tool: the tool is missing
/// when the failure is of the "not found" kind; otherwise a launch failure
/// with its message.
pub fn spawn_failure(not_found: bool, message: &str) -> (e: PipelineError)
    ensures
        not_found ==> e is FfmpegNotFound,
        !not_found ==> (e matches PipelineError::SpawnFailed(m) && m@ == message@),
{
    if not_found {
        PipelineError::FfmpegNotFound
    } else {
        PipelineError::SpawnFailed(String::from_str(message))
    }
}

} // verus!
