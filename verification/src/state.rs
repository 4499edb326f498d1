//! The services that the application's entry points share.
use vstd::prelude::*;

use std::sync::Arc;

use crate::ffmpeg::resolver::FfmpegProvider;
use crate::platform::PlatformInfo;
use crate::screenshot::XcapCaptureBackend;
use crate::settings::SettingsRepository;

verus! {

/// Everything the C interface's functions share for the lifetime of the
/// library.
pub struct CoreState {
    pub ffmpeg: Arc<dyn FfmpegProvider>,
    pub settings: Arc<dyn SettingsRepository>,
    pub capture: Arc<XcapCaptureBackend>,
    pub platform: PlatformInfo,
}

/// Central application state of the desktop application: its services.
pub struct AppState {
    pub ffmpeg: Arc<dyn FfmpegProvider>,
    pub settings: Arc<dyn SettingsRepository>,
    pub platform: PlatformInfo,
}

} // verus!
