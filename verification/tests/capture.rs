use screen_dream::capture::{
    bgra_to_rgba, crop_frame, pipeline_state, recording_state_code, CaptureSource, CapturedFrame,
    RecordingState, SDCaptureSource,
};
use screen_dream::error::{AppError, CommandError};

fn sd(t: u32) -> SDCaptureSource {
    SDCaptureSource {
        source_type: t,
        monitor_id: 1,
        window_id: 2,
        region_x: -3,
        region_y: 4,
        region_width: 5,
        region_height: 6,
    }
}

#[test]
fn c_sources_to_domain() {
    match sd(0).to_domain().unwrap() {
        CaptureSource::Screen(s) => assert_eq!(s.monitor_id, 1),
        other => panic!("unexpected {other:?}"),
    }
    match sd(1).to_domain().unwrap() {
        CaptureSource::Window(w) => {
            assert_eq!(w.window_id, 2);
            assert!(w.uuid.is_none());
        }
        other => panic!("unexpected {other:?}"),
    }
    match sd(2).to_domain().unwrap() {
        CaptureSource::Region(r) => assert_eq!((r.monitor_id, r.x, r.y, r.width, r.height), (1, -3, 4, 5, 6)),
        other => panic!("unexpected {other:?}"),
    }
    match sd(7).to_domain() {
        Err(AppError::Capture(m)) => {
            assert_eq!(m, "Invalid source_type: 7 (expected 0=Screen, 1=Window, 2=Region)")
        }
        other => panic!("unexpected {other:?}"),
    }
}

#[test]
fn bgra_swaps_and_makes_opaque() {
    assert_eq!(bgra_to_rgba(&[1, 2, 3, 0, 4, 5, 6, 7, 8]), vec![3, 2, 1, 255, 6, 5, 4, 7, 8]);
    assert_eq!(bgra_to_rgba(&[]), Vec::<u8>::new());
}

fn frame(w: u32, h: u32) -> CapturedFrame {
    CapturedFrame { data: (0..(w * h * 4)).map(|b| b as u8).collect(), width: w, height: h }
}

#[test]
fn crops_frames() {
    let f = frame(3, 2);
    let c = crop_frame(&f, 1, 1, 5, 5).unwrap();
    assert_eq!((c.width, c.height), (2, 1));
    assert_eq!(c.data, vec![16, 17, 18, 19, 20, 21, 22, 23]);
    let c = crop_frame(&f, -4, -4, 1, 2).unwrap();
    assert_eq!(c.data, vec![0, 1, 2, 3, 12, 13, 14, 15]);
    match crop_frame(&f, 3, 0, 1, 1) {
        Err(AppError::Capture(m)) => assert_eq!(m, "Crop origin (3, 0) outside frame bounds (3x2)"),
        other => panic!("unexpected {other:?}"),
    }
    match crop_frame(&f, 0, 0, 0, 1) {
        Err(AppError::Capture(m)) => assert_eq!(m, "Crop region empty after clamping: 0x1 at (0,0) in 3x2"),
        other => panic!("unexpected {other:?}"),
    }
}

#[test]
fn recording_state_reports() {
    assert_eq!(recording_state_code(false, false, true, false), 0);
    assert_eq!(recording_state_code(true, true, true, false), 5);
    assert_eq!(recording_state_code(true, false, false, true), 5);
    assert_eq!(recording_state_code(true, false, true, true), 3);
    assert_eq!(recording_state_code(true, false, true, false), 2);
    assert_eq!(pipeline_state(false, true, true), RecordingState::Idle);
    assert_eq!(pipeline_state(true, true, true), RecordingState::Paused);
    assert_eq!(pipeline_state(true, true, false), RecordingState::Recording);
    assert_eq!(pipeline_state(true, false, false), RecordingState::Stopping);
}

#[test]
fn error_messages_and_kinds() {
    let e = AppError::Settings("bad".into());
    assert_eq!(e.message(), "Settings error: bad");
    assert_eq!(e.kind(), "settings");
    assert_eq!(e.variant_name(), "Settings");
    assert_eq!(e.payload(), "bad");
    let c = CommandError::from_app_error(AppError::FfmpegNotFound("x".into()));
    assert_eq!(c.kind, "ffmpeg_not_found");
    assert_eq!(c.message, "FFmpeg not found: x");
    assert_eq!(AppError::Io("d".into()).message(), "I/O error: d");
    assert_eq!(AppError::Encoding("e".into()).kind(), "encoding");
    assert_eq!(AppError::CodecUnavailable("v".into()).message(), "Codec not available: v");
    assert_eq!(AppError::Platform("p".into()).kind(), "platform");
}
