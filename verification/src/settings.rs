//! Application settings, their defaults, and the cached settings store
//! that sits in front of the settings file.
use vstd::prelude::*;

use crate::error::{AppError, AppResult};
use crate::ffmpeg::codec::{AudioCodec, ContainerFormat, VideoCodec};
use crate::paths::{path_join, path_join_spec};
use crate::text::{chars_of, push_chars, push_str};

verus! {

pub struct AppSettings {
    pub recording: RecordingSettings,
    pub screenshot: ScreenshotSettings,
    pub export: ExportSettings,
    pub shortcuts: ShortcutSettings,
    pub ffmpeg: FfmpegSettings,
    pub general: GeneralSettings,
}

pub struct RecordingSettings {
    pub fps: u32,
    pub video_codec: VideoCodec,
    pub audio_codec: AudioCodec,
    pub container: ContainerFormat,
    pub crf: u8,
    pub preset: String,
    pub capture_cursor: bool,
    pub capture_audio: bool,
    pub capture_microphone: bool,
}

pub struct ScreenshotSettings {
    pub format: ScreenshotFormat,
    pub quality: u8,
    pub copy_to_clipboard: bool,
    pub save_to_disk: bool,
}

#[derive(Debug, Clone, Copy, PartialEq, Eq, Structural)]
pub enum ScreenshotFormat {
    Png,
    Jpeg,
    Webp,
}

pub struct ExportSettings {
    /// Empty means the user's pictures directory, decided at run time.
    pub output_directory: String,
}

pub struct ShortcutSettings {
    pub start_stop_recording: String,
    pub pause_resume_recording: String,
    pub take_screenshot: String,
}

pub struct FfmpegSettings {
    /// "bundled", "system", or an absolute path
    pub source: String,
    pub custom_path: Option<String>,
}

pub struct GeneralSettings {
    pub minimize_to_tray: bool,
    pub start_minimized: bool,
    pub show_notifications: bool,
}

/// `s` holds the default settings.
pub open spec fn is_default_settings(s: AppSettings) -> bool {
    &&& s.recording.fps == 30
    &&& s.recording.video_codec == VideoCodec::H264
    &&& s.recording.audio_codec == AudioCodec::Aac
    &&& s.recording.container == ContainerFormat::Mp4
    &&& s.recording.crf == 23
    &&& s.recording.preset@ == "fast"@
    &&& s.recording.capture_cursor
    &&& s.recording.capture_audio
    &&& !s.recording.capture_microphone
    &&& s.screenshot.format == ScreenshotFormat::Png
    &&& s.screenshot.quality == 100
    &&& s.screenshot.copy_to_clipboard
    &&& s.screenshot.save_to_disk
    &&& s.export.output_directory@ == Seq::<char>::empty()
    &&& s.shortcuts.start_stop_recording@ == "CommandOrControl+Shift+R"@
    &&& s.shortcuts.pause_resume_recording@ == "CommandOrControl+Shift+P"@
    &&& s.shortcuts.take_screenshot@ == "CommandOrControl+Shift+S"@
    &&& s.ffmpeg.source@ == "bundled"@
    &&& s.ffmpeg.custom_path is None
    &&& s.general.minimize_to_tray
    &&& !s.general.start_minimized
    &&& s.general.show_notifications
}

impl Default for AppSettings {
    fn default() -> (r: Self)
        ensures
            is_default_settings(r),
    {
        AppSettings {
            recording: RecordingSettings {
                fps: 30,
                video_codec: VideoCodec::H264,
                audio_codec: AudioCodec::Aac,
                container: ContainerFormat::Mp4,
                crf: 23,
                preset: String::from_str("fast"),
                capture_cursor: true,
                capture_audio: true,
                capture_microphone: false,
            },
            screenshot: ScreenshotSettings {
                format: ScreenshotFormat::Png,
                quality: 100,
                copy_to_clipboard: true,
                save_to_disk: true,
            },
            export: ExportSettings { output_directory: String::new() },
            shortcuts: ShortcutSettings {
                start_stop_recording: String::from_str("CommandOrControl+Shift+R"),
                pause_resume_recording: String::from_str("CommandOrControl+Shift+P"),
                take_screenshot: String::from_str("CommandOrControl+Shift+S"),
            },
            ffmpeg: FfmpegSettings { source: String::from_str("bundled"), custom_path: None },
            general: GeneralSettings {
                minimize_to_tray: true,
                start_minimized: false,
                show_notifications: true,
            },
        }
    }
}

fn clone_string(s: &String) -> (r: String)
    ensures
        r == *s,
{
    s.clone()
}

impl Clone for RecordingSettings {
    fn clone(&self) -> (r: Self)
        ensures
            r == *self,
    {
        RecordingSettings {
            fps: self.fps,
            video_codec: self.video_codec,
            audio_codec: self.audio_codec,
            container: self.container,
            crf: self.crf,
            preset: clone_string(&self.preset),
            capture_cursor: self.capture_cursor,
            capture_audio: self.capture_audio,
            capture_microphone: self.capture_microphone,
        }
    }
}

impl Clone for ScreenshotSettings {
    fn clone(&self) -> (r: Self)
        ensures
            r == *self,
    {
        ScreenshotSettings {
            format: self.format,
            quality: self.quality,
            copy_to_clipboard: self.copy_to_clipboard,
            save_to_disk: self.save_to_disk,
        }
    }
}

impl Clone for ExportSettings {
    fn clone(&self) -> (r: Self)
        ensures
            r == *self,
    {
        ExportSettings { output_directory: clone_string(&self.output_directory) }
    }
}

impl Clone for ShortcutSettings {
    fn clone(&self) -> (r: Self)
        ensures
            r == *self,
    {
        ShortcutSettings {
            start_stop_recording: clone_string(&self.start_stop_recording),
            pause_resume_recording: clone_string(&self.pause_resume_recording),
            take_screenshot: clone_string(&self.take_screenshot),
        }
    }
}

impl Clone for FfmpegSettings {
    fn clone(&self) -> (r: Self)
        ensures
            r == *self,
    {
        let custom_path = match &self.custom_path {
            Some(p) => Some(clone_string(p)),
            None => None,
        };
        FfmpegSettings { source: clone_string(&self.source), custom_path }
    }
}

impl Clone for GeneralSettings {
    fn clone(&self) -> (r: Self)
        ensures
            r == *self,
    {
        GeneralSettings {
            minimize_to_tray: self.minimize_to_tray,
            start_minimized: self.start_minimized,
            show_notifications: self.show_notifications,
        }
    }
}

impl Clone for AppSettings {
    fn clone(&self) -> (r: Self)
        ensures
            r == *self,
    {
        AppSettings {
            recording: self.recording.clone(),
            screenshot: self.screenshot.clone(),
            export: self.export.clone(),
            shortcuts: self.shortcuts.clone(),
            ffmpeg: self.ffmpeg.clone(),
            general: self.general.clone(),
        }
    }
}

/// Persistence of application settings. Implementations store them where
/// they like (a JSON file, a database, ...).
pub trait SettingsRepository: Send + Sync {
    /// Load settings from storage. Returns defaults if not yet saved.
    fn load(&self) -> AppResult<AppSettings>;

    /// Save settings to storage.
    fn save(&self, settings: &AppSettings) -> AppResult<()>;

    /// Reset to defaults and save.
    fn reset(&self) -> (r: AppResult<AppSettings>)
        ensures
            r matches Ok(s) ==> is_default_settings(s),
    {
        let defaults = AppSettings::default();
        let saved = self.save(&defaults);
        reset_result(saved, defaults)
    }
}

/// What a reset returns once the defaults `defaults` were handed to `save`
/// and it answered `saved`: the defaults when they were saved, else the
/// error of the save.
pub fn reset_result(saved: AppResult<()>, defaults: AppSettings) -> (r: AppResult<AppSettings>)
    ensures
        match saved {
            Ok(()) => r == Ok::<AppSettings, AppError>(defaults),
            Err(e) => r == Err::<AppSettings, AppError>(e),
        },
{
    match saved {
        Ok(()) => Ok(defaults),
        Err(e) => Err(e),
    }
}

/// What reading the settings file came to.
pub enum SettingsFile {
    /// There is no settings file.
    Missing,
    /// The file could not be read; the text says why.
    Unreadable(String),
    /// The file was read but does not hold valid settings.
    Corrupt,
    /// The file holds these settings.
    Parsed(AppSettings),
}

/// Settings kept in `<config dir>/settings.json`, with the last settings
/// read or written held in memory.
pub struct JsonSettingsRepository {
    path: String,
    cache: Option<AppSettings>,
}

/// The message for a settings file that could not be read.
pub open spec fn read_failed_message(path: Seq<char>, why: Seq<char>) -> Seq<char> {
    "Failed to read "@ + path + ": "@ + why
}

impl JsonSettingsRepository {
    pub closed spec fn spec_path(&self) -> Seq<char> {
        self.path@
    }

    /// The settings held in memory, if any.
    pub closed spec fn spec_cache(&self) -> Option<AppSettings> {
        self.cache
    }

    /// A store for `<config_dir>/settings.json`, with nothing held in memory.
    pub fn new(config_dir: &str) -> (r: Self)
        ensures
            r.spec_path() == path_join_spec(config_dir@, "settings.json"@),
            r.spec_cache() is None,
    {
        JsonSettingsRepository { path: path_join(config_dir, "settings.json"), cache: None }
    }

    /// The settings file's path.
    pub fn path(&self) -> (r: &str)
        ensures
            r@ == self.spec_path(),
    {
        self.path.as_str()
    }

    /// The settings held in memory; `load` returns them without reading
    /// the file when there are any.
    pub fn cached(&self) -> (r: Option<AppSettings>)
        ensures
            r == self.spec_cache(),
    {
        match &self.cache {
            Some(s) => Some(s.clone()),
            None => None,
        }
    }

    /// The settings that `load` returns once the file has been read: its
    /// settings, or the defaults when the file is missing or corrupt. These
    /// are then held in memory. A file that could not be read is an error
    /// and leaves memory as it was.
    pub fn settings_from_file(&mut self, file: SettingsFile) -> (r: AppResult<AppSettings>)
        ensures
            final(self).spec_path() == old(self).spec_path(),
            match file {
                SettingsFile::Parsed(s) => r == Ok::<AppSettings, AppError>(s)
                    && final(self).spec_cache() == Some(s),
                SettingsFile::Missing | SettingsFile::Corrupt => (r matches Ok(s)
                    && is_default_settings(s) && final(self).spec_cache() == Some(s)),
                SettingsFile::Unreadable(why) => (r matches Err(AppError::Settings(m)) && m@
                    == read_failed_message(old(self).spec_path(), why@))
                    && final(self).spec_cache() == old(self).spec_cache(),
            },
    {
        let settings = match file {
            SettingsFile::Parsed(s) => s,
            SettingsFile::Missing => AppSettings::default(),
            SettingsFile::Corrupt => AppSettings::default(),
            SettingsFile::Unreadable(why) => {
                let mut m = String::from_str("Failed to read ");
                let p = chars_of(self.path.as_str());
                push_chars(&mut m, p.as_slice());
                push_str(&mut m, ": ");
                push_str(&mut m, why.as_str());
                return Err(AppError::Settings(m));
            },
        };
        self.cache = Some(settings.clone());
        Ok(settings)
    }

    /// Records that `settings` were written to the file; `load` returns
    /// them from now on.
    pub fn record_saved(&mut self, settings: &AppSettings)
        ensures
            final(self).spec_path() == old(self).spec_path(),
            final(self).spec_cache() == Some(*settings),
    {
        self.cache = Some(settings.clone());
    }

    /// Forgets the settings held in memory; the next `load` reads the file.
    pub fn clear_cache(&mut self)
        ensures
            final(self).spec_path() == old(self).spec_path(),
            final(self).spec_cache() is None,
    {
        self.cache = None;
    }
}

} // verus!
