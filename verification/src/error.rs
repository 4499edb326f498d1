//! The application's error type, its rendered messages, and the error
//! shape handed to the user interface.
use vstd::prelude::*;

use crate::text::push_chars;
use crate::text::chars_of;

verus! {

/// Unified error type for the entire application domain. Each variant is a
/// category of failure; the `String` payload carries human-readable context.
#[derive(Debug, Clone)]
pub enum AppError {
    FfmpegNotFound(String),
    FfmpegExecution(String),
    CodecUnavailable(String),
    Settings(String),
    Platform(String),
    Io(String),
    Capture(String),
    Encoding(String),
}

pub type AppResult<T> = Result<T, AppError>;

impl AppError {
    /// The context carried by the error.
    pub open spec fn spec_payload(&self) -> Seq<char> {
        match self {
            AppError::FfmpegNotFound(m) => m@,
            AppError::FfmpegExecution(m) => m@,
            AppError::CodecUnavailable(m) => m@,
            AppError::Settings(m) => m@,
            AppError::Platform(m) => m@,
            AppError::Io(m) => m@,
            AppError::Capture(m) => m@,
            AppError::Encoding(m) => m@,
        }
    }

    /// The text that introduces the context in the rendered message.
    pub open spec fn spec_prefix(&self) -> Seq<char> {
        match self {
            AppError::FfmpegNotFound(_) => "FFmpeg not found: "@,
            AppError::FfmpegExecution(_) => "FFmpeg execution failed: "@,
            AppError::CodecUnavailable(_) => "Codec not available: "@,
            AppError::Settings(_) => "Settings error: "@,
            AppError::Platform(_) => "Platform error: "@,
            AppError::Io(_) => "I/O error: "@,
            AppError::Capture(_) => "Capture error: "@,
            AppError::Encoding(_) => "Encoding error: "@,
        }
    }

    /// The rendered message of the error.
    pub open spec fn spec_message(&self) -> Seq<char> {
        self.spec_prefix() + self.spec_payload()
    }

    /// The category's name in the user interface's vocabulary.
    pub open spec fn spec_kind(&self) -> Seq<char> {
        match self {
            AppError::FfmpegNotFound(_) => "ffmpeg_not_found"@,
            AppError::FfmpegExecution(_) => "ffmpeg_execution"@,
            AppError::CodecUnavailable(_) => "codec_unavailable"@,
            AppError::Settings(_) => "settings"@,
            AppError::Platform(_) => "platform"@,
            AppError::Io(_) => "io"@,
            AppError::Capture(_) => "capture"@,
            AppError::Encoding(_) => "encoding"@,
        }
    }

    /// The variant's own name, as the C interface reports it.
    pub open spec fn spec_variant_name(&self) -> Seq<char> {
        match self {
            AppError::FfmpegNotFound(_) => "FfmpegNotFound"@,
            AppError::FfmpegExecution(_) => "FfmpegExecution"@,
            AppError::CodecUnavailable(_) => "CodecUnavailable"@,
            AppError::Settings(_) => "Settings"@,
            AppError::Platform(_) => "Platform"@,
            AppError::Io(_) => "Io"@,
            AppError::Capture(_) => "Capture"@,
            AppError::Encoding(_) => "Encoding"@,
        }
    }

    /// The context carried by the error.
    pub fn payload(&self) -> (r: &str)
        ensures
            r@ == self.spec_payload(),
    {
        match self {
            AppError::FfmpegNotFound(m) => m.as_str(),
            AppError::FfmpegExecution(m) => m.as_str(),
            AppError::CodecUnavailable(m) => m.as_str(),
            AppError::Settings(m) => m.as_str(),
            AppError::Platform(m) => m.as_str(),
            AppError::Io(m) => m.as_str(),
            AppError::Capture(m) => m.as_str(),
            AppError::Encoding(m) => m.as_str(),
        }
    }

    fn prefix(&self) -> (r: &'static str)
        ensures
            r@ == self.spec_prefix(),
    {
        match self {
            AppError::FfmpegNotFound(_) => "FFmpeg not found: ",
            AppError::FfmpegExecution(_) => "FFmpeg execution failed: ",
            AppError::CodecUnavailable(_) => "Codec not available: ",
            AppError::Settings(_) => "Settings error: ",
            AppError::Platform(_) => "Platform error: ",
            AppError::Io(_) => "I/O error: ",
            AppError::Capture(_) => "Capture error: ",
            AppError::Encoding(_) => "Encoding error: ",
        }
    }

    /// The rendered message, e.g. `Capture error: <context>`.
    pub fn message(&self) -> (r: String)
        ensures
            r@ == self.spec_message(),
    {
        let mut s = String::from_str(self.prefix());
        let p = chars_of(self.payload());
        push_chars(&mut s, p.as_slice());
        s
    }

    /// The category's name in the user interface's vocabulary.
    pub fn kind(&self) -> (r: &'static str)
        ensures
            r@ == self.spec_kind(),
    {
        match self {
            AppError::FfmpegNotFound(_) => "ffmpeg_not_found",
            AppError::FfmpegExecution(_) => "ffmpeg_execution",
            AppError::CodecUnavailable(_) => "codec_unavailable",
            AppError::Settings(_) => "settings",
            AppError::Platform(_) => "platform",
            AppError::Io(_) => "io",
            AppError::Capture(_) => "capture",
            AppError::Encoding(_) => "encoding",
        }
    }

    /// The variant's own name, as the C interface reports it.
    pub fn variant_name(&self) -> (r: &'static str)
        ensures
            r@ == self.spec_variant_name(),
    {
        match self {
            AppError::FfmpegNotFound(_) => "FfmpegNotFound",
            AppError::FfmpegExecution(_) => "FfmpegExecution",
            AppError::CodecUnavailable(_) => "CodecUnavailable",
            AppError::Settings(_) => "Settings",
            AppError::Platform(_) => "Platform",
            AppError::Io(_) => "Io",
            AppError::Capture(_) => "Capture",
            AppError::Encoding(_) => "Encoding",
        }
    }
}

/// The error shape returned to the user interface: a category and the
/// rendered message.
#[derive(Debug)]
pub struct CommandError {
    pub kind: String,
    pub message: String,
}

impl CommandError {
    /// The interface's view of an application error (`From<AppError>`).
    pub fn from_app_error(err: AppError) -> (r: Self)
        ensures
            r.kind@ == err.spec_kind(),
            r.message@ == err.spec_message(),
    {
        CommandError { kind: String::from_str(err.kind()), message: err.message() }
    }
}

} // verus!
