use screen_dream::capture::{CaptureSource, RecordingConfig, RegionSource, SDCaptureSource, ScreenSource};
use screen_dream::error::AppError;
use screen_dream::paths::{audio_output_path, muxed_output_path};
use screen_dream::recording::{
    audio_path_for, capture_loop_args, check_stream_buffer, final_mux_args, final_output_path,
    mux_args, mux_failure, pack_frame, portal_capture_args, receive_recording_buffer,
    receive_stream_buffer, recording_config_from_c, region_crop_filter, ActiveRecording,
    CaptureLoop, LoopAction, LoopEvent,
};

fn config(source: CaptureSource) -> RecordingConfig {
    RecordingConfig {
        source,
        fps: 30,
        video_codec: "libx264".into(),
        crf: 23,
        preset: "fast".into(),
        output_path: "/tmp/out.mp4".into(),
        capture_microphone: false,
        microphone_device: None,
    }
}

#[test]
fn capture_pipeline_args() {
    let args = capture_loop_args(&config(CaptureSource::Screen(ScreenSource { monitor_id: 1 })), 1920, 1080);
    assert_eq!(
        args,
        vec![
            "-hide_banner", "-y", "-f", "rawvideo", "-pix_fmt", "rgba", "-s", "1920x1080", "-r", "30",
            "-i", "pipe:0", "-c:v", "libx264", "-pix_fmt", "yuv420p", "-crf", "23", "-preset", "fast",
            "/tmp/out.mp4",
        ]
    );
}

#[test]
fn portal_pipeline_args_crop_regions() {
    let region = RegionSource { monitor_id: 0, x: -5, y: 40, width: 801, height: 601 };
    assert_eq!(region_crop_filter(&region), "crop=800:600:0:40");
    let args = portal_capture_args(&config(CaptureSource::Region(region)), 2560, 1440);
    assert_eq!(&args[5], "bgra");
    assert_eq!(&args[12], "-vf");
    assert_eq!(&args[13], "crop=800:600:0:40");
    assert_eq!(args.len(), 23);
    let screen = portal_capture_args(&config(CaptureSource::Screen(ScreenSource { monitor_id: 0 })), 10, 10);
    assert_eq!(screen.len(), 21);
    assert!(!screen.contains(&"-vf".to_string()));
}

#[test]
fn mux_commands() {
    assert_eq!(
        mux_args("/v.mp4", "/a.wav", "/v_final.mp4"),
        vec!["-y", "-i", "/v.mp4", "-i", "/a.wav", "-c", "copy", "/v_final.mp4"]
    );
    assert_eq!(
        final_mux_args("v.mp4", "v.wav", "v_final.mp4"),
        vec![
            "-hide_banner", "-y", "-i", "v.mp4", "-i", "v.wav", "-c:v", "copy", "-c:a", "aac", "-b:a",
            "192k", "-shortest", "v_final.mp4",
        ]
    );
    match mux_failure("line 1\nConversion failed!\n") {
        AppError::FfmpegExecution(m) => assert_eq!(m, "Audio/video mux failed: Conversion failed!"),
        other => panic!("unexpected {other:?}"),
    }
    match mux_failure("") {
        AppError::FfmpegExecution(m) => assert_eq!(m, "Audio/video mux failed: unknown"),
        other => panic!("unexpected {other:?}"),
    }
}

#[test]
fn sibling_paths() {
    assert_eq!(audio_output_path("/home/u/Videos/rec.mp4"), "/home/u/Videos/rec_audio.wav");
    assert_eq!(muxed_output_path("/home/u/Videos/rec.mkv"), "/home/u/Videos/rec_final.mkv");
    assert_eq!(muxed_output_path("/home/u/Videos/rec"), "/home/u/Videos/rec_final.mp4");
    assert_eq!(audio_output_path("rec.mp4"), "rec_audio.wav");
    assert_eq!(audio_path_for("/tmp/out.mp4"), "/tmp/out.wav");
    assert_eq!(final_output_path("/tmp/out.mp4"), "/tmp/out_final.mp4");
}

#[test]
fn packs_padded_and_unpadded_buffers() {
    let buf: Vec<u8> = (0..24).collect();
    // Unpadded: stride equals w * 4.
    assert_eq!(pack_frame(&buf, 2, 2, 8), (0..16).collect::<Vec<u8>>());
    assert_eq!(pack_frame(&buf, 2, 2, 0), (0..16).collect::<Vec<u8>>());
    // Padded: 12-byte rows, 8 bytes each kept.
    assert_eq!(pack_frame(&buf, 2, 2, 12), vec![0, 1, 2, 3, 4, 5, 6, 7, 12, 13, 14, 15, 16, 17, 18, 19]);
    // A row past the buffer is left out.
    assert_eq!(pack_frame(&buf, 2, 3, 12), vec![0, 1, 2, 3, 4, 5, 6, 7, 12, 13, 14, 15, 16, 17, 18, 19]);
    // A short unpadded buffer is taken whole.
    assert_eq!(pack_frame(&buf[..6], 2, 2, 8), vec![0, 1, 2, 3, 4, 5]);
}

#[test]
fn stream_buffers() {
    let buf: Vec<u8> = vec![1, 2, 3, 0, 4, 5, 6, 9];
    // Size unknown: derived from stride and byte count.
    assert!(check_stream_buffer(None, None, 8, 8));
    let u = receive_stream_buffer(None, None, 8, 8, Some(&buf));
    assert_eq!((u.width, u.height), (Some(2), Some(1)));
    let f = u.frame.unwrap();
    assert_eq!(f.data, vec![3, 2, 1, 255, 6, 5, 4, 9]);
    // Empty chunk: nothing changes.
    let u = receive_stream_buffer(Some(2), Some(1), 0, 8, Some(&buf));
    assert_eq!((u.width, u.height), (Some(2), Some(1)));
    assert!(u.frame.is_none());
    // Unknown size and no stride: no frame.
    let u = receive_stream_buffer(None, None, 8, 0, Some(&buf));
    assert!(u.frame.is_none());
    assert_eq!(u.width, None);
    // Recording stream: BGRA kept as it is.
    let r = receive_recording_buffer(Some(2), Some(1), 8, 8, Some(&buf)).unwrap();
    assert_eq!(r.data, buf);
    assert!(receive_recording_buffer(None, Some(1), 8, 8, Some(&buf)).is_none());
    assert!(receive_recording_buffer(Some(2), Some(1), 8, 8, None).is_none());
}

#[test]
fn capture_loop_counts_written_frames() {
    let mut l = CaptureLoop::new();
    assert_eq!(l.step(LoopEvent::FirstFrame(true)), LoopAction::Continue);
    assert_eq!(l.step(LoopEvent::Paused), LoopAction::WaitPaused);
    assert_eq!(l.step(LoopEvent::CaptureFailed), LoopAction::WaitFrame);
    assert_eq!(l.step(LoopEvent::Frame(true)), LoopAction::Pace);
    assert_eq!(l.step(LoopEvent::NoFrame), LoopAction::Pace);
    assert_eq!(l.frames_captured(), 2);
    assert!(!l.is_stopped());
    assert_eq!(l.step(LoopEvent::Frame(false)), LoopAction::Stop);
    assert!(l.is_stopped());
    assert_eq!(l.frames_captured(), 2);
    let mut first_fails = CaptureLoop::new();
    assert_eq!(first_fails.step(LoopEvent::FirstFrame(false)), LoopAction::Stop);
    assert_eq!(first_fails.frames_captured(), 0);
}

#[test]
fn config_from_c_interface() {
    let src = SDCaptureSource {
        source_type: 0,
        monitor_id: 3,
        window_id: 0,
        region_x: 0,
        region_y: 0,
        region_width: 0,
        region_height: 0,
    };
    let c = recording_config_from_c(&src, 60, 18, "/o.mp4".into(), "".into(), "".into(), true, "".into()).unwrap();
    assert_eq!(c.video_codec, "libx264");
    assert_eq!(c.preset, "fast");
    assert!(c.microphone_device.is_none());
    assert_eq!((c.fps, c.crf), (60, 18));
    let c = recording_config_from_c(&src, 30, 23, "/o.mp4".into(), "libx265".into(), "slow".into(), true, "mic".into()).unwrap();
    assert_eq!(c.video_codec, "libx265");
    assert_eq!(c.microphone_device.as_deref(), Some("mic"));
    match recording_config_from_c(&src, 30, 23, "".into(), "".into(), "".into(), false, "".into()) {
        Err(AppError::Capture(m)) => assert_eq!(m, "output_path is empty"),
        other => panic!("unexpected {other:?}"),
    }
    let bad = SDCaptureSource { source_type: 9, ..src };
    match recording_config_from_c(&bad, 30, 23, "".into(), "".into(), "".into(), false, "".into()) {
        Err(AppError::Capture(m)) => assert!(m.starts_with("Invalid source_type: 9")),
        other => panic!("unexpected {other:?}"),
    }
}

#[test]
fn one_recording_at_a_time() {
    let mut slot: ActiveRecording<u32> = ActiveRecording::new();
    assert!(slot.check_idle().is_ok());
    match slot.take() {
        Err(AppError::Capture(m)) => assert_eq!(m, "No recording in progress"),
        other => panic!("unexpected {other:?}"),
    }
    slot.store(7);
    match slot.check_idle() {
        Err(AppError::Capture(m)) => assert_eq!(m, "A recording is already in progress. Stop it first."),
        other => panic!("unexpected {other:?}"),
    }
    assert_eq!(*slot.current().unwrap(), 7);
    assert_eq!(slot.take().unwrap(), 7);
    assert!(slot.current().is_err());
}
