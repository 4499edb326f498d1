//! Screen capture and recording: the FFmpeg command line, capture sources,
//! settings, frame conversion and the parsing of helper output.
pub mod ffmpeg;
pub mod text;
pub mod error;
pub mod platform;
pub mod capture;
pub mod paths;
pub mod settings;
pub mod drm;
pub mod pixels;
pub mod kwin;
pub mod recording;
pub mod portal;
pub mod spectacle;
pub mod screenshot;
pub mod audio;
pub mod state;
pub mod waits;
