//! What a running FFmpeg process reports.
use vstd::prelude::*;

verus! {

/// Events emitted by a running FFmpeg process.
#[derive(Debug, Clone)]
pub enum FfmpegEvent {
    /// A line of stderr output (FFmpeg writes progress to stderr).
    StderrLine(String),
    /// The process exited with a code.
    Exited(i32),
    /// The process was killed or crashed.
    Failed(String),
}

} // verus!
