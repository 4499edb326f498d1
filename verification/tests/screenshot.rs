use base64::Engine;
use screen_dream::capture::{CapturedFrame, RegionSource};
use screen_dream::error::AppError;
use screen_dream::platform::{DisplayServer, Os, PlatformInfo};
use screen_dream::screenshot::{
    check_image_fits, crop_image, crop_region, frame_to_base64_png, is_listed_window, load_png_and_crop,
    load_png_as_frame, screenshot_file_bytes,
    window_enumeration_failure, ScreenshotFormat, XcapCaptureBackend,
};

#[test]
fn format_from_extension() {
    assert_eq!(ScreenshotFormat::from_extension("/tmp/a.PNG").unwrap(), ScreenshotFormat::Png);
    assert_eq!(ScreenshotFormat::from_extension("a.jpg").unwrap(), ScreenshotFormat::Jpeg);
    assert_eq!(ScreenshotFormat::from_extension("a.Jpeg").unwrap(), ScreenshotFormat::Jpeg);
    assert_eq!(ScreenshotFormat::from_extension("a.webp").unwrap(), ScreenshotFormat::WebP);
    for bad in ["a.gif", "noext", ".png"] {
        match ScreenshotFormat::from_extension(bad) {
            Err(AppError::Capture(m)) => assert_eq!(m, "Unsupported screenshot format. Use .png, .jpg, or .webp"),
            other => panic!("unexpected {other:?}"),
        }
    }
}

fn frame(w: u32, h: u32) -> CapturedFrame {
    CapturedFrame { data: (0..(w * h * 4)).map(|b| b as u8).collect(), width: w, height: h }
}

#[test]
fn base64_png() {
    let s = frame_to_base64_png(frame(1, 1)).unwrap();
    // A PNG file starts with \x89PNG, "iVBORw0KGgo" in base64.
    assert!(s.starts_with("iVBORw0KGgo"));
    assert_eq!(s.len() % 4, 0);
    match frame_to_base64_png(CapturedFrame { data: vec![0; 3], width: 1, height: 1 }) {
        Err(AppError::Capture(m)) => assert_eq!(m, "Failed to create image from captured frame data"),
        other => panic!("unexpected {other:?}"),
    }
    assert!(check_image_fits(2, 2, 16));
    assert!(!check_image_fits(2, 2, 15));
}

#[test]
fn region_crops() {
    let f = frame(3, 2);
    let c = crop_region(f, &RegionSource { monitor_id: 0, x: 1, y: -1, width: 9, height: 1 }).unwrap();
    assert_eq!((c.width, c.height), (2, 1));
    assert_eq!(c.data, vec![4, 5, 6, 7, 8, 9, 10, 11]);
    match crop_region(frame(3, 2), &RegionSource { monitor_id: 0, x: 5, y: 0, width: 9, height: 1 }) {
        Err(AppError::Capture(m)) => assert_eq!(m, "Region selection has zero width or height after clamping"),
        other => panic!("unexpected {other:?}"),
    }
    match crop_region(CapturedFrame { data: vec![], width: 1, height: 1 }, &RegionSource { monitor_id: 0, x: 0, y: 0, width: 1, height: 1 }) {
        Err(AppError::Capture(m)) => assert_eq!(m, "Failed to reconstruct image from raw data"),
        other => panic!("unexpected {other:?}"),
    }
    let c = crop_image(frame(3, 2), 0, 1, 1, 1).unwrap();
    assert_eq!(c.data, vec![12, 13, 14, 15]);
    match crop_image(frame(3, 2), 0, 2, 1, 1) {
        Err(AppError::Capture(m)) => assert_eq!(m, "Crop origin (0, 2) is outside image bounds (3x2)"),
        other => panic!("unexpected {other:?}"),
    }
    match crop_image(frame(3, 2), 0, 0, 0, 1) {
        Err(AppError::Capture(m)) => assert_eq!(m, "Crop region is empty after clamping: 0x1 at (0, 0) in 3x2 image"),
        other => panic!("unexpected {other:?}"),
    }
}

#[test]
fn xcap_backend_decisions() {
    let wayland = XcapCaptureBackend::new(PlatformInfo { os: Os::Linux, display_server: DisplayServer::Wayland, arch: "x86_64".into() });
    assert!(wayland.can_enumerate_windows(true));
    assert!(!wayland.can_enumerate_windows(false));
    assert!(wayland.windows_unavailable_reason().starts_with("Window enumeration is not available on Wayland."));
    let unknown = XcapCaptureBackend::new(PlatformInfo { os: Os::Linux, display_server: DisplayServer::Unknown, arch: "x86_64".into() });
    assert!(!unknown.can_enumerate_windows(true));
    assert_eq!(unknown.windows_unavailable_reason(), "Window enumeration is not supported on this display server.");
    let x11 = XcapCaptureBackend::new(PlatformInfo { os: Os::Linux, display_server: DisplayServer::X11, arch: "x86_64".into() });
    assert!(x11.can_enumerate_windows(false));
    assert_eq!(window_enumeration_failure(&AppError::Capture("x".into())), "Window enumeration failed: Capture error: x");
    assert!(is_listed_window(false, 10, 10));
    assert!(!is_listed_window(true, 10, 10));
    assert!(!is_listed_window(false, 0, 10));
}

#[test]
fn can_create_backend() {
    let platform = PlatformInfo::from_environment(Os::Linux, Some("x11"), false, true, "x86_64");
    let backend = XcapCaptureBackend::new(platform);
    assert!(backend.can_enumerate_windows(true) || !backend.can_enumerate_windows(true));
    assert!(backend.can_enumerate_windows(false));
}

const ALPHABET: &[u8] = b"ABCDEFGHIJKLMNOPQRSTUVWXYZabcdefghijklmnopqrstuvwxyz0123456789+/";

fn rfc4648_base64(d: &[u8]) -> String {
    let digit = |v: u8| ALPHABET[v as usize] as char;
    let mut out = String::new();
    for chunk in d.chunks(3) {
        match chunk.len() {
            1 => {
                out.push(digit(chunk[0] / 4));
                out.push(digit((chunk[0] % 4) * 16));
                out.push_str("==");
            }
            2 => {
                out.push(digit(chunk[0] / 4));
                out.push(digit((chunk[0] % 4) * 16 + chunk[1] / 16));
                out.push(digit((chunk[1] % 16) * 4));
                out.push('=');
            }
            _ => {
                out.push(digit(chunk[0] / 4));
                out.push(digit((chunk[0] % 4) * 16 + chunk[1] / 16));
                out.push(digit((chunk[1] % 16) * 4 + chunk[2] / 64));
                out.push(digit(chunk[2] % 64));
            }
        }
    }
    out
}

#[test]
fn base64_png_is_standard_padded_base64() {
    for (w, h) in [(1, 1), (2, 3), (5, 1)] {
        let s = frame_to_base64_png(frame(w, h)).unwrap();
        let png = base64::engine::general_purpose::STANDARD.decode(&s).unwrap();
        assert_eq!(&png[..8], b"\x89PNG\r\n\x1a\n");
        assert_eq!(rfc4648_base64(&png), s);
    }
}

fn png_bytes(f: CapturedFrame) -> Vec<u8> {
    let s = frame_to_base64_png(f).unwrap();
    base64::engine::general_purpose::STANDARD.decode(&s).unwrap()
}

#[test]
fn loads_and_crops_png_bytes() {
    let original = frame(3, 2);
    let bytes = png_bytes(frame(3, 2));
    let loaded = load_png_as_frame("/tmp/shot.png", &bytes).unwrap();
    assert_eq!((loaded.width, loaded.height), (3, 2));
    assert_eq!(loaded.data, original.data);

    let c = load_png_and_crop("/tmp/shot.png", &bytes, 1, -5, 5, 1).unwrap();
    assert_eq!((c.width, c.height), (2, 1));
    assert_eq!(c.data, original.data[4..12].to_vec());
    match load_png_and_crop("/tmp/shot.png", &bytes, 3, 0, 1, 1) {
        Err(AppError::Capture(m)) => assert_eq!(m, "Crop origin (3, 0) is outside image bounds (3x2)"),
        other => panic!("unexpected {other:?}"),
    }
    match load_png_as_frame("/tmp/broken.png", b"not a png") {
        Err(AppError::Capture(m)) => assert!(m.starts_with("Failed to open screenshot PNG '/tmp/broken.png': ")),
        other => panic!("unexpected {other:?}"),
    }
}

#[test]
fn screenshot_file_bytes_encode_the_frame() {
    let bytes = screenshot_file_bytes(frame(2, 2), ScreenshotFormat::Png, "/tmp/out.png").unwrap();
    assert_eq!(&bytes[..8], b"\x89PNG\r\n\x1a\n");
    assert_eq!(load_png_as_frame("/tmp/out.png", &bytes).unwrap().data, frame(2, 2).data);
    let short = CapturedFrame { data: vec![0; 5], width: 2, height: 2 };
    match screenshot_file_bytes(short, ScreenshotFormat::Png, "/tmp/out.png") {
        Err(AppError::Capture(m)) => assert_eq!(m, "Failed to create image from captured frame data"),
        other => panic!("unexpected {other:?}"),
    }
}
