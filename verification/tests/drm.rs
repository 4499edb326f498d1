use screen_dream::drm::{
    convert_drm_to_rgba, fourcc_str_to_format, CrtcMonitor, DrmCaptureBackend, HelperOutput,
    DRM_FORMAT_ABGR8888, DRM_FORMAT_ARGB8888, DRM_FORMAT_XBGR8888, DRM_FORMAT_XRGB8888,
};
use screen_dream::error::AppError;

#[test]
fn test_convert_xrgb8888() {
    // XRGB8888 LE: [B, G, R, X]
    let data = vec![0x10, 0x20, 0x30, 0x00]; // B=16, G=32, R=48, X=0
    let rgba = convert_drm_to_rgba(&data, 1, 1, 4, DRM_FORMAT_XRGB8888);
    assert_eq!(rgba, vec![0x30, 0x20, 0x10, 0xFF]); // R=48, G=32, B=16, A=255
}

#[test]
fn test_convert_argb8888() {
    // ARGB8888 LE: [B, G, R, A]
    let data = vec![0x00, 0x80, 0xFF, 0xCC];
    let rgba = convert_drm_to_rgba(&data, 1, 1, 4, DRM_FORMAT_ARGB8888);
    assert_eq!(rgba, vec![0xFF, 0x80, 0x00, 0xCC]);
}

#[test]
fn test_convert_xbgr8888() {
    // XBGR8888 LE: [R, G, B, X]
    let data = vec![0xFF, 0x80, 0x00, 0x00];
    let rgba = convert_drm_to_rgba(&data, 1, 1, 4, DRM_FORMAT_XBGR8888);
    assert_eq!(rgba, vec![0xFF, 0x80, 0x00, 0xFF]);
}

#[test]
fn test_convert_with_pitch() {
    // 2 pixels wide, pitch=12 (extra 4 bytes padding per row)
    let data = vec![
        0x10, 0x20, 0x30, 0x00, // pixel (0,0): B=16, G=32, R=48
        0x40, 0x50, 0x60, 0x00, // pixel (1,0): B=64, G=80, R=96
        0x00, 0x00, 0x00, 0x00, // padding
    ];
    let rgba = convert_drm_to_rgba(&data, 2, 1, 12, DRM_FORMAT_XRGB8888);
    assert_eq!(
        rgba,
        vec![
            0x30, 0x20, 0x10, 0xFF, // pixel (0,0)
            0x60, 0x50, 0x40, 0xFF, // pixel (1,0)
        ]
    );
}

#[test]
fn convert_pads_missing_pixels_opaque_black() {
    let data = vec![0x01, 0x02, 0x03, 0x04];
    let rgba = convert_drm_to_rgba(&data, 2, 1, 8, DRM_FORMAT_ABGR8888);
    assert_eq!(rgba, vec![0x01, 0x02, 0x03, 0x04, 0, 0, 0, 0xFF]);
    assert_eq!(convert_drm_to_rgba(&data, 1, 2, 4, DRM_FORMAT_ABGR8888).len(), 8);
}

#[test]
fn test_parse_list_line() {
    let line = "PLANE:51:CRTC:62:FB:153:SIZE:3840x2160:POS:0,0:FMT:AB4H";
    let cm = DrmCaptureBackend::parse_list_line(line).unwrap();
    assert_eq!(cm.plane_id, 51);
    assert_eq!(cm.crtc_id, 62);
    assert_eq!(cm.fb_id, 153);
    assert_eq!(cm.width, 3840);
    assert_eq!(cm.height, 2160);
    assert_eq!(cm.crtc_x, 0);
    assert_eq!(cm.crtc_y, 0);
    assert_eq!(cm.fmt_code, "AB4H");
}

#[test]
fn test_parse_list_line_with_position() {
    let line = "PLANE:70:CRTC:81:FB:162:SIZE:1920x1080:POS:3840,0:FMT:XR24";
    let cm = DrmCaptureBackend::parse_list_line(line).unwrap();
    assert_eq!(cm.plane_id, 70);
    assert_eq!(cm.crtc_id, 81);
    assert_eq!(cm.fb_id, 162);
    assert_eq!(cm.width, 1920);
    assert_eq!(cm.height, 1080);
    assert_eq!(cm.crtc_x, 3840);
    assert_eq!(cm.crtc_y, 0);
    assert_eq!(cm.fmt_code, "XR24");
}

fn capture_msg(r: Result<CrtcMonitor, AppError>) -> String {
    match r {
        Err(AppError::Capture(m)) => m,
        other => panic!("unexpected {other:?}"),
    }
}

#[test]
fn parse_list_line_errors() {
    assert_eq!(
        capture_msg(DrmCaptureBackend::parse_list_line("PLANE:1")),
        "DRM: malformed list line (expected 12+ fields): \"PLANE:1\""
    );
    assert_eq!(
        capture_msg(DrmCaptureBackend::parse_list_line("PLANE:x:CRTC:1:FB:1:SIZE:1x1:POS:0,0:FMT:XR24")),
        "DRM: missing PLANE in \"PLANE:x:CRTC:1:FB:1:SIZE:1x1:POS:0,0:FMT:XR24\""
    );
    assert_eq!(
        capture_msg(DrmCaptureBackend::parse_list_line("PLANE:1:CRTC:1:FB:1:SIZE:1:POS:0,0:FMT:XR24")),
        "DRM: bad SIZE height in \"PLANE:1:CRTC:1:FB:1:SIZE:1:POS:0,0:FMT:XR24\""
    );
    // A position that does not parse counts as 0; a missing FMT is XR24.
    let cm = DrmCaptureBackend::parse_list_line("PLANE:1:CRTC:2:FB:3:SIZE:4x5:POS:a,7:X:Y").unwrap();
    assert_eq!((cm.crtc_x, cm.crtc_y), (0, 7));
    assert_eq!(cm.fmt_code, "XR24");
}

#[test]
fn test_fourcc_str_to_format() {
    assert_eq!(fourcc_str_to_format("XR24"), DRM_FORMAT_XRGB8888);
    assert_eq!(fourcc_str_to_format("AR24"), DRM_FORMAT_ARGB8888);
    assert_eq!(fourcc_str_to_format("XB24"), DRM_FORMAT_XBGR8888);
    assert_eq!(fourcc_str_to_format("AB24"), DRM_FORMAT_ABGR8888);
    // Unknown formats fall back to XRGB8888
    assert_eq!(fourcc_str_to_format("AB30"), DRM_FORMAT_XRGB8888);
}

fn monitor(crtc: u32, plane: u32, name: &str) -> CrtcMonitor {
    CrtcMonitor {
        crtc_id: crtc,
        plane_id: plane,
        fb_id: 1,
        width: 2,
        height: 1,
        connector_name: name.to_string(),
        crtc_x: 0,
        crtc_y: 0,
        fmt_code: "XR24".to_string(),
    }
}

#[test]
fn listing_and_card_choice() {
    let out = "PLANE:1:CRTC:10:FB:5:SIZE:2x1:POS:0,0:FMT:XR24\nnoise\nPLANE:2:CRTC:11:FB:6:SIZE:2x1:POS:2,0:FMT:AR24\n";
    let ms = DrmCaptureBackend::parse_list_output(true, "0", "", out).unwrap();
    assert_eq!(ms.len(), 2);
    assert_eq!(ms[1].crtc_id, 11);
    match DrmCaptureBackend::parse_list_output(false, "exit status: 1", "  denied \n", out) {
        Err(AppError::Capture(m)) => assert_eq!(m, "DRM: helper --list failed (status=exit status: 1): denied"),
        other => panic!("unexpected {other:?}"),
    }

    let cards = vec![
        ("/dev/dri/card0".to_string(), Ok(vec![monitor(10, 1, "eDP-1")])),
        ("/dev/dri/card1".to_string(), Err(AppError::Capture("x".into()))),
        ("/dev/dri/card2".to_string(), Ok(vec![monitor(20, 2, "DP-1"), monitor(21, 3, "HDMI-A-1")])),
        ("/dev/dri/card3".to_string(), Ok(vec![monitor(30, 4, "DP-2"), monitor(31, 5, "DP-3")])),
    ];
    let b = DrmCaptureBackend::new("/usr/lib/helper".into(), cards).unwrap();
    // The card with most planes wins; the first of equals.
    assert_eq!(b.card_path(), "/dev/dri/card2");
    assert_eq!(b.helper_path(), "/usr/lib/helper");
    assert_eq!(b.crtc_monitors().len(), 2);
    match DrmCaptureBackend::new("h".into(), vec![("c".into(), Ok(vec![]))]) {
        Err(AppError::Capture(_)) => {}
        _ => panic!("a card without planes cannot be used"),
    }
}

#[test]
fn finds_monitor_by_name_or_index() {
    let cards = vec![("card".to_string(), Ok(vec![monitor(20, 2, "DP-1"), monitor(21, 3, "HDMI-A-1")]))];
    let b = DrmCaptureBackend::new("h".into(), cards).unwrap();
    assert_eq!(b.find_crtc_for_monitor("HDMI-A-1", 0).unwrap().crtc_id, 21);
    assert_eq!(b.find_crtc_for_monitor("HDMI", 0).unwrap().crtc_id, 21);
    assert_eq!(b.find_crtc_for_monitor("unknown", 1).unwrap().crtc_id, 21);
    assert!(b.find_crtc_for_monitor("unknown", 5).is_none());
}

fn helper_output(w: u32, h: u32, pitch: u32, pixels: &[u8]) -> HelperOutput {
    let mut stdout = Vec::new();
    stdout.extend_from_slice(&w.to_le_bytes());
    stdout.extend_from_slice(&h.to_le_bytes());
    stdout.extend_from_slice(&pitch.to_le_bytes());
    stdout.extend_from_slice(pixels);
    HelperOutput { success: true, status: "exit status: 0".into(), stdout, stderr: String::new() }
}

#[test]
fn captures_crtc_from_helper_output() {
    let cards = vec![("card".to_string(), Ok(vec![monitor(20, 2, "DP-1"), monitor(21, 3, "HDMI-A-1")]))];
    let mut b = DrmCaptureBackend::new("h".into(), cards).unwrap();
    let out = helper_output(2, 1, 8, &[1, 2, 3, 0, 4, 5, 6, 0]);
    assert!(screen_dream::drm::capture_output_fits(&out));
    let f = b.capture_crtc(21, &out).unwrap();
    assert_eq!((f.width, f.height), (2, 1));
    assert_eq!(f.data, vec![3, 2, 1, 255, 6, 5, 4, 255]);
    match b.capture_crtc(99, &out) {
        Err(AppError::Capture(m)) => assert_eq!(m, "CRTC 99 not found in active monitors"),
        other => panic!("unexpected {other:?}"),
    }
    let short = helper_output(2, 2, 8, &[0; 8]);
    match b.capture_crtc(20, &short) {
        Err(AppError::Capture(m)) => {
            assert_eq!(m, "DRM: helper output has 8 pixel bytes, expected 16 (2x2 pitch=8)")
        }
        other => panic!("unexpected {other:?}"),
    }
    let all = b.capture_all_screens(&vec![helper_output(1, 1, 4, &[9, 9, 9, 9]), out]).unwrap();
    assert_eq!(all.len(), 2);
    assert_eq!(all[0].0, 20);
    assert_eq!(all[1].0, 21);
    b.refresh(true, "", "", "PLANE:7:CRTC:70:FB:1:SIZE:1x1:POS:0,0:FMT:XR24").unwrap();
    assert_eq!(b.crtc_monitors().len(), 1);
    assert_eq!(b.crtc_monitors()[0].crtc_id, 70);
}

#[test]
fn empty_monitor_name_finds_the_first_listed_monitor() {
    let out = "PLANE:1:CRTC:10:FB:5:SIZE:2x1:POS:0,0:FMT:XR24\nPLANE:2:CRTC:11:FB:6:SIZE:2x1:POS:2,0:FMT:AR24\n";
    let ms = DrmCaptureBackend::parse_list_output(true, "0", "", out).unwrap();
    assert_eq!(ms[0].connector_name, "CRTC-10");
    let b = DrmCaptureBackend::new("h".into(), vec![("card".to_string(), Ok(ms))]).unwrap();
    assert_eq!(b.find_crtc_for_monitor("", 1).unwrap().crtc_id, 10);
    assert_eq!(b.find_crtc_for_monitor("CRTC-11", 0).unwrap().crtc_id, 11);
}
