use screen_dream::error::AppError;
use screen_dream::ffmpeg::codec::{AudioCodec, ContainerFormat, VideoCodec};
use screen_dream::settings::{reset_result, AppSettings, JsonSettingsRepository, ScreenshotFormat, SettingsFile, SettingsRepository};

#[test]
fn defaults() {
    let s = AppSettings::default();
    assert_eq!(s.recording.fps, 30);
    assert_eq!(s.recording.video_codec, VideoCodec::H264);
    assert_eq!(s.recording.audio_codec, AudioCodec::Aac);
    assert_eq!(s.recording.container, ContainerFormat::Mp4);
    assert_eq!(s.recording.crf, 23);
    assert_eq!(s.recording.preset, "fast");
    assert_eq!(s.screenshot.format, ScreenshotFormat::Png);
    assert_eq!(s.screenshot.quality, 100);
    assert_eq!(s.shortcuts.take_screenshot, "CommandOrControl+Shift+S");
    assert_eq!(s.ffmpeg.source, "bundled");
    assert!(s.ffmpeg.custom_path.is_none());
    assert!(!s.general.start_minimized);
}

#[test]
fn load_returns_defaults_when_no_file() {
    let mut repo = JsonSettingsRepository::new("/tmp/screen-dream-test");
    assert_eq!(repo.path(), "/tmp/screen-dream-test/settings.json");
    let s = repo.settings_from_file(SettingsFile::Missing).unwrap();
    assert_eq!(s.recording.fps, 30);
}

#[test]
fn save_then_load_roundtrips() {
    let mut repo = JsonSettingsRepository::new("/config");
    let mut settings = AppSettings::default();
    settings.recording.fps = 60;
    repo.record_saved(&settings);
    let loaded = repo.cached().unwrap();
    assert_eq!(loaded.recording.fps, 60);
    assert!(repo.path().ends_with("settings.json"));
    // With the cache cleared, a load reads the file again: what the file
    // parses to is what is loaded, and it is cached once more.
    repo.clear_cache();
    assert!(repo.cached().is_none());
    let reread = repo.settings_from_file(SettingsFile::Parsed(settings.clone())).unwrap();
    assert_eq!(reread.recording.fps, 60);
    assert_eq!(repo.cached().unwrap().recording.fps, 60);
}

#[test]
fn load_handles_corrupt_file_gracefully() {
    let mut repo = JsonSettingsRepository::new("/config");
    let s = repo.settings_from_file(SettingsFile::Corrupt).unwrap();
    assert_eq!(s.recording.fps, 30);
    assert_eq!(repo.cached().unwrap().recording.fps, 30);
}

#[test]
fn unreadable_file_is_an_error_and_keeps_memory() {
    let mut repo = JsonSettingsRepository::new("/config");
    match repo.settings_from_file(SettingsFile::Unreadable("permission denied".into())) {
        Err(AppError::Settings(m)) => assert_eq!(m, "Failed to read /config/settings.json: permission denied"),
        _ => panic!("expected a settings error"),
    }
    assert!(repo.cached().is_none());
    let mut parsed = AppSettings::default();
    parsed.recording.crf = 18;
    let s = repo.settings_from_file(SettingsFile::Parsed(parsed)).unwrap();
    assert_eq!(s.recording.crf, 18);
    repo.clear_cache();
    assert!(repo.cached().is_none());
}

struct InMemorySettings {
    saved: std::sync::Mutex<Option<AppSettings>>,
}

impl SettingsRepository for InMemorySettings {
    fn load(&self) -> screen_dream::error::AppResult<AppSettings> {
        Ok(self.saved.lock().unwrap().clone().unwrap_or_default())
    }

    fn save(&self, settings: &AppSettings) -> screen_dream::error::AppResult<()> {
        *self.saved.lock().unwrap() = Some(settings.clone());
        Ok(())
    }
}

#[test]
fn reset_saves_and_returns_defaults() {
    let mut custom = AppSettings::default();
    custom.recording.fps = 60;
    custom.general.start_minimized = true;
    let repo = InMemorySettings { saved: std::sync::Mutex::new(Some(custom)) };
    assert_eq!(repo.load().unwrap().recording.fps, 60);
    let reset = repo.reset().unwrap();
    assert_eq!(reset.recording.fps, 30);
    assert!(!reset.general.start_minimized);
    let reloaded = repo.load().unwrap();
    assert_eq!(reloaded.recording.fps, 30);
    assert!(!reloaded.general.start_minimized);
}

#[test]
fn reset_result_follows_the_save() {
    let ok = reset_result(Ok(()), AppSettings::default()).unwrap();
    assert_eq!(ok.recording.fps, 30);
    match reset_result(Err(AppError::Settings("disk full".into())), AppSettings::default()) {
        Err(AppError::Settings(m)) => assert_eq!(m, "disk full"),
        _ => panic!("expected the save's error"),
    }
}
