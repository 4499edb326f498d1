use screen_dream::ffmpeg::codec::{AudioCodec, ContainerFormat, FfmpegCapabilities, VideoCodec};
use screen_dream::ffmpeg::command::FfmpegCommand;
use screen_dream::ffmpeg::probe::{
    detect_audio_encoders, detect_video_encoders, parse_version, query_capabilities,
};
use screen_dream::ffmpeg::resolver::{
    audio_encoders_json, ffmpeg_binary_name, ffmpeg_status, ffprobe_binary_name,
    source_description, video_encoders_json, FfmpegResolver, ResolveProbes,
};
use screen_dream::error::AppError;

#[test]
fn builds_simple_transcode_command() {
    let args = FfmpegCommand::new()
        .overwrite()
        .input("input.webm")
        .video_codec(&VideoCodec::H264)
        .audio_codec(&AudioCodec::Aac)
        .crf(23)
        .preset("fast")
        .output("output.mp4")
        .build();

    assert_eq!(
        args,
        vec![
            "-hide_banner",
            "-y",
            "-i",
            "input.webm",
            "-c:v",
            "libx264",
            "-c:a",
            "aac",
            "-crf",
            "23",
            "-preset",
            "fast",
            "output.mp4",
        ]
    );
}

#[test]
fn builds_pipe_input_command() {
    let args = FfmpegCommand::new()
        .overwrite()
        .arg("-f")
        .arg("rawvideo")
        .pixel_format("bgra")
        .resolution(1920, 1080)
        .framerate(30)
        .input_pipe()
        .video_codec(&VideoCodec::H264)
        .crf(18)
        .preset("ultrafast")
        .output("recording.mp4")
        .build();

    assert!(args.contains(&"pipe:0".to_string()));
    assert!(args.contains(&"1920x1080".to_string()));
    assert!(args.contains(&"30".to_string()));
}

#[test]
fn builds_video_filter_command() {
    let args = FfmpegCommand::new()
        .input("input.mp4")
        .video_filter("crop=1280:720:0:0")
        .output("cropped.mp4")
        .build();

    assert!(args.contains(&"-vf".to_string()));
    assert!(args.contains(&"crop=1280:720:0:0".to_string()));
}

#[test]
fn builder_appends_each_option_in_order() {
    let args = FfmpegCommand::default()
        .format(&ContainerFormat::Mkv)
        .audio_filter("volume=2")
        .filter_complex("[0][1]overlay")
        .output_pipe()
        .build();
    assert_eq!(
        args,
        vec![
            "-hide_banner",
            "-f",
            "matroska",
            "-af",
            "volume=2",
            "-filter_complex",
            "[0][1]overlay",
            "pipe:1",
        ]
    );
}

#[test]
fn codec_names() {
    assert_eq!(VideoCodec::H265.encoder_name(), "libx265");
    assert_eq!(VideoCodec::H265.probe_name(), "hevc");
    assert_eq!(VideoCodec::Av1.encoder_name(), "libaom-av1");
    assert_eq!(AudioCodec::Mp3.encoder_name(), "libmp3lame");
    assert_eq!(ContainerFormat::Webm.extension(), "webm");
    assert_eq!(ContainerFormat::Mkv.ffmpeg_format(), "matroska");
}

const ENCODERS: &str = "Encoders:\n V..... = Video\n ------\n V....D libx264              libx264 H.264 / AVC\n V....D libvpx-vp9           libvpx VP9\n A....D aac                  AAC (Advanced Audio Coding)\n A....D libopus              libopus Opus\n";

#[test]
fn parses_version_line() {
    assert_eq!(parse_version("ffmpeg version 6.1.1 Copyright (c) 2000-2023\nbuilt with gcc"), "6.1.1");
    assert_eq!(parse_version("ffmpeg version n7.0-2-gdeadbeef Copyright"), "n7.0-2-gdeadbeef");
    assert_eq!(parse_version("custom build 5.0"), "custom");
    assert_eq!(parse_version(""), "unknown");
    assert_eq!(parse_version("\nsecond"), "unknown");
}

#[test]
fn detects_encoders() {
    assert_eq!(detect_video_encoders(ENCODERS), vec![VideoCodec::H264, VideoCodec::Vp9]);
    assert_eq!(detect_audio_encoders(ENCODERS), vec![AudioCodec::Aac, AudioCodec::Opus]);
    // The built-in AAC encoder is recognised even when no line lists it as
    // the second word.
    assert_eq!(detect_audio_encoders("xx aac yy"), vec![AudioCodec::Aac]);
    // A name inside another name is not an encoder.
    assert_eq!(detect_audio_encoders(" A.... libfdk_aac_x"), Vec::<AudioCodec>::new());
    let caps = query_capabilities("ffmpeg version 6.0 x", ENCODERS, ENCODERS);
    assert_eq!(caps.version, "6.0");
    assert_eq!(caps.video_encoders.len(), 2);
    assert_eq!(caps.audio_encoders.len(), 2);
}

#[test]
fn binary_names() {
    assert_eq!(ffmpeg_binary_name("/opt/sidecars", false), "/opt/sidecars/ffmpeg");
    assert_eq!(ffprobe_binary_name("/opt/sidecars/", false), "/opt/sidecars/ffprobe");
    assert_eq!(ffmpeg_binary_name("C:/app", true), "C:/app/ffmpeg.exe");
    assert_eq!(ffprobe_binary_name("C:/app", true), "C:/app/ffprobe.exe");
}

fn probes(sidecar: bool, custom: bool, system: Option<&str>, probe: Option<&str>) -> ResolveProbes {
    ResolveProbes {
        sidecar_is_file: sidecar,
        custom_is_file: custom,
        system_ffmpeg: system.map(String::from),
        system_ffprobe: probe.map(String::from),
    }
}

#[test]
fn resolves_system_ffmpeg() {
    // No sidecar dir, no custom path — should find system FFmpeg
    let mut resolver = FfmpegResolver::new(None, None);
    let system = which::which("ffmpeg").ok().and_then(|p| p.to_str().map(String::from));
    let system_probe = which::which("ffprobe").ok().and_then(|p| p.to_str().map(String::from));
    let found = ResolveProbes {
        sidecar_is_file: false,
        custom_is_file: false,
        system_ffmpeg: system,
        system_ffprobe: system_probe,
    };

    // This will skip if FFmpeg is not installed
    match resolver.resolve(false, &found) {
        Ok(r) => {
            assert!(
                std::path::Path::new(&r.ffmpeg).is_file(),
                "Resolved path should be a file: {}",
                r.ffmpeg
            );
            println!("Found FFmpeg at: {}", r.ffmpeg);
            assert_eq!(r.source, "system PATH");
        }
        Err(e) => {
            println!("Skipping test — FFmpeg not installed: {}", e.message());
        }
    }
}

#[test]
fn returns_error_for_nonexistent_custom_path() {
    let mut resolver = FfmpegResolver::new(None, Some("/nonexistent/path/ffmpeg".into()));
    let custom_exists = std::path::Path::new("/nonexistent/path/ffmpeg").is_file();
    let system = which::which("ffmpeg").ok().and_then(|p| p.to_str().map(String::from));
    let system_probe = which::which("ffprobe").ok().and_then(|p| p.to_str().map(String::from));
    let found = ResolveProbes {
        sidecar_is_file: false,
        custom_is_file: custom_exists,
        system_ffmpeg: system.clone(),
        system_ffprobe: system_probe,
    };

    // Custom path doesn't exist, no sidecar, might fall back to system
    // The key behavior: it doesn't panic, and returns a usable result or clear error
    let result = resolver.resolve(false, &found);
    println!("Result with bad custom path: {result:?}");
    match (system, result) {
        (Some(s), Ok(r)) => {
            assert_eq!(r.ffmpeg, s);
            assert_eq!(r.source, "system PATH");
        }
        (None, Err(AppError::FfmpegNotFound(m))) => {
            assert_eq!(m, "FFmpeg not found. Install it or configure a custom path in settings.")
        }
        (s, other) => panic!("unexpected {other:?} with system ffmpeg {s:?}"),
    }
    // Without any FFmpeg on the system, the error is a clear one.
    let mut bare = FfmpegResolver::new(None, Some("/nonexistent/path/ffmpeg".into()));
    match bare.resolve(false, &probes(false, false, None, None)) {
        Err(AppError::FfmpegNotFound(m)) => {
            assert_eq!(m, "FFmpeg not found. Install it or configure a custom path in settings.")
        }
        other => panic!("unexpected {other:?}"),
    }
}

#[test]
fn resolution_order_and_cache() {
    let mut r = FfmpegResolver::new(Some("/app/sidecars".into()), Some("/usr/local/bin/ffmpeg".into()));
    let got = r.resolve(false, &probes(true, true, Some("/usr/bin/ffmpeg"), None)).unwrap();
    assert_eq!(got.ffmpeg, "/app/sidecars/ffmpeg");
    assert_eq!(got.ffprobe, "/app/sidecars/ffprobe");
    assert_eq!(got.source, "bundled sidecar");
    // The first place found is kept whatever the file system says later.
    let again = r.resolve(false, &probes(false, false, None, None)).unwrap();
    assert_eq!(again.ffmpeg, "/app/sidecars/ffmpeg");

    let mut c = FfmpegResolver::new(Some("/app/sidecars".into()), Some("/usr/local/bin/ffmpeg".into()));
    let got = c.resolve(false, &probes(false, true, Some("/usr/bin/ffmpeg"), None)).unwrap();
    assert_eq!(got.ffmpeg, "/usr/local/bin/ffmpeg");
    assert_eq!(got.ffprobe, "/usr/local/bin/ffprobe");
    assert_eq!(got.source, "custom path: /usr/local/bin/ffmpeg");

    let mut s = FfmpegResolver::new(None, None);
    let got = s.resolve(false, &probes(false, false, Some("/usr/bin/ffmpeg"), None)).unwrap();
    assert_eq!(got.ffprobe, "/usr/bin/ffprobe");
    let mut t = FfmpegResolver::new(None, None);
    let got = t.resolve(false, &probes(false, false, Some("/usr/bin/ffmpeg"), Some("/opt/ffprobe"))).unwrap();
    assert_eq!(got.ffprobe, "/opt/ffprobe");
    assert_eq!(source_description(&Ok(got)), "system PATH");
    let err = FfmpegResolver::new(None, None).resolve(false, &probes(false, false, None, None));
    assert_eq!(
        source_description(&err),
        "not found: FFmpeg not found: FFmpeg not found. Install it or configure a custom path in settings."
    );
}

#[test]
fn status_and_encoder_json() {
    let caps = FfmpegCapabilities {
        version: "6.1".into(),
        video_encoders: vec![VideoCodec::H264, VideoCodec::Av1],
        audio_encoders: vec![AudioCodec::Opus],
    };
    assert_eq!(video_encoders_json(&caps.video_encoders), "[\"libx264\",\"libaom-av1\"]");
    assert_eq!(audio_encoders_json(&caps.audio_encoders), "[\"libopus\"]");
    assert_eq!(audio_encoders_json(&vec![]), "[]");
    let ok = ffmpeg_status("system PATH".into(), Ok(caps));
    assert!(ok.available);
    assert!(ok.error.is_none());
    let bad = ffmpeg_status("none".into(), Err(AppError::FfmpegExecution("boom".into())));
    assert!(!bad.available);
    assert_eq!(bad.error.as_deref(), Some("FFmpeg execution failed: boom"));
}
