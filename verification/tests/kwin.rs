use screen_dream::capture::{CaptureSource, RegionSource, ScreenSource, WindowSource};
use screen_dream::error::AppError;
use screen_dream::kwin::{
    compositor_from_bus, compositor_from_desktop, convert_to_rgba, enumeration_failure_reason,
    extract_u32, read_screenshot, Compositor, KwinCapture, KwinWindowTable, ReplyValue,
};

#[test]
fn test_parse_kwin_output() {
    let mut table = KwinWindowTable::new();

    let output = r#"
some random log line
SD_WIN|{abc-123}|Firefox|firefox|org.mozilla.firefox|100,200,1920,1080|0|1
SD_WIN|{def-456}|Terminal|org.kde.konsole|org.kde.konsole|0,0,800,600|1|0
another random line
"#;

    let windows = table.parse_kwin_window_output(output);
    assert_eq!(windows.len(), 2);

    assert_eq!(windows[0].title, "Firefox");
    assert_eq!(windows[0].app_name, "firefox");
    assert_eq!(windows[0].width, 1920);
    assert_eq!(windows[0].height, 1080);
    assert!(!windows[0].is_minimized);
    assert!(windows[0].is_focused);
    assert_eq!(windows[0].uuid.as_deref(), Some("{abc-123}"));

    assert_eq!(windows[1].title, "Terminal");
    assert!(windows[1].is_minimized);
    assert!(!windows[1].is_focused);
}

#[test]
fn test_convert_to_rgba() {
    // ARGB8888 little-endian: [B, G, R, A]
    let data = vec![
        0x00, 0x80, 0xFF, 0xCC, // pixel: B=0, G=128, R=255, A=204
    ];
    let rgba = convert_to_rgba(&data, 1, 1, 4, 0);
    assert_eq!(rgba, vec![0xFF, 0x80, 0x00, 0xCC]); // R=255, G=128, B=0, A=204
}

#[test]
fn test_convert_xrgb_to_rgba() {
    // XRGB8888 (format=1): alpha should be forced to 255.
    let data = vec![0x10, 0x20, 0x30, 0x00]; // B=16, G=32, R=48, X=0
    let rgba = convert_to_rgba(&data, 1, 1, 4, 1);
    assert_eq!(rgba, vec![0x30, 0x20, 0x10, 0xFF]); // R=48, G=32, B=16, A=255
}

#[test]
fn convert_pads_short_data_transparent() {
    let rgba = convert_to_rgba(&[1, 2, 3, 4], 2, 1, 8, 1);
    assert_eq!(rgba, vec![3, 2, 1, 255, 0, 0, 0, 0]);
}

#[test]
fn compositor_detection() {
    assert_eq!(compositor_from_desktop("KDE"), Some(Compositor::KWin));
    assert_eq!(compositor_from_desktop("ubuntu:GNOME"), Some(Compositor::GnomeMutter));
    assert_eq!(compositor_from_desktop("sway"), None);
    assert_eq!(compositor_from_bus(true, true), Compositor::KWin);
    assert_eq!(compositor_from_bus(false, true), Compositor::GnomeMutter);
    assert_eq!(compositor_from_bus(false, false), Compositor::Unknown);
}

#[test]
fn window_table_drives_captures() {
    let mut table = KwinWindowTable::new();
    let ws = table.parse_kwin_window_output(
        "  SD_WIN|{u1}|A|a|a.desktop|-10,20,300,200|0|0  \nSD_WIN|{u2}|B|b|b.desktop|5,6,0,0|1|0\nSD_WIN|bad|line\nSD_WIN|{u3}|C|c|c|1,2,3|0|0\n",
    );
    assert_eq!(ws.len(), 2);
    assert!(ws[0].id < 0x8000_0000);
    assert_eq!(ws[0].pid, 0);
    assert_eq!(table.geometry_of(ws[0].id), Some((-10, 20, 300, 200)));
    assert_eq!(table.uuid_of(ws[0].id).unwrap(), "{u1}");

    let shot = table
        .plan_capture(&CaptureSource::Window(WindowSource { window_id: ws[0].id, uuid: None }))
        .unwrap();
    assert_eq!(shot, KwinCapture::Cropped { x: -10, y: 20, width: 300, height: 200 });
    match table.plan_capture(&CaptureSource::Window(WindowSource { window_id: ws[1].id, uuid: None })) {
        Err(AppError::Capture(m)) => assert_eq!(
            m,
            format!(
                "Window {} has zero-size geometry (5,6 0x0). The window may be minimized or not yet enumerated.",
                ws[1].id
            )
        ),
        other => panic!("unexpected {other:?}"),
    }
    let missing = if ws[0].id == 7 { 8 } else { 7 };
    match table.plan_capture(&CaptureSource::Window(WindowSource { window_id: missing, uuid: None })) {
        Err(AppError::Capture(m)) => assert_eq!(
            m,
            format!("Window ID {missing} not found in geometry map. Try refreshing sources first.")
        ),
        other => panic!("unexpected {other:?}"),
    }
    assert_eq!(
        table.plan_capture(&CaptureSource::Screen(ScreenSource { monitor_id: 1 })).unwrap(),
        KwinCapture::Full
    );
    assert_eq!(
        table
            .plan_capture(&CaptureSource::Region(RegionSource { monitor_id: 1, x: 1, y: 2, width: 3, height: 4 }))
            .unwrap(),
        KwinCapture::Cropped { x: 1, y: 2, width: 3, height: 4 }
    );

    assert_eq!(table.window_uuid(&WindowSource { window_id: ws[1].id, uuid: None }).unwrap(), "{u2}");
    assert_eq!(
        table.window_uuid(&WindowSource { window_id: 1, uuid: Some("{given}".into()) }).unwrap(),
        "{given}"
    );
    match table.window_uuid(&WindowSource { window_id: missing, uuid: None }) {
        Err(AppError::Capture(m)) => assert_eq!(
            m,
            format!("No KWin UUID found for window ID {missing}. Call enumerate_sources first.")
        ),
        other => panic!("unexpected {other:?}"),
    }
}

#[test]
fn same_uuid_same_id() {
    let mut t1 = KwinWindowTable::new();
    let mut t2 = KwinWindowTable::new();
    let a = t1.parse_kwin_window_output("SD_WIN|{same}|x|y|z|0,0,1,1|0|0");
    let b = t2.parse_kwin_window_output("SD_WIN|{other}|x|y|z|0,0,1,1|0|0\nSD_WIN|{same}|q|r|s|0,0,2,2|0|1");
    assert_eq!(a[0].id, b[1].id);
}

#[test]
fn screenshot_reply() {
    assert_eq!(extract_u32(Some(&ReplyValue::I32(-1)), "width").unwrap(), u32::MAX);
    assert_eq!(extract_u32(Some(&ReplyValue::U64(0x1_0000_0005)), "width").unwrap(), 5);
    match extract_u32(None, "stride") {
        Err(AppError::Capture(m)) => assert_eq!(m, "Missing 'stride' in ScreenShot2 response"),
        other => panic!("unexpected {other:?}"),
    }
    match extract_u32(Some(&ReplyValue::Other("Str(\"x\")".into())), "height") {
        Err(AppError::Capture(m)) => assert_eq!(m, "Cannot convert 'height' value to u32: Str(\"x\")"),
        other => panic!("unexpected {other:?}"),
    }
    let w = ReplyValue::U32(1);
    let h = ReplyValue::U32(2);
    let s = ReplyValue::U32(4);
    let f = read_screenshot(Some(&w), Some(&h), Some(&s), None, &[1, 2, 3, 4, 5, 6, 7, 8]).unwrap();
    assert_eq!(f.data, vec![3, 2, 1, 4, 7, 6, 5, 8]);
    match read_screenshot(Some(&w), Some(&h), Some(&s), None, &[1, 2, 3]) {
        Err(AppError::Capture(m)) => assert_eq!(m, "Incomplete screenshot data: got 3 bytes, expected 8"),
        other => panic!("unexpected {other:?}"),
    }
    assert_eq!(
        enumeration_failure_reason(&AppError::Capture("no bus".into())),
        "KWin window enumeration failed: Capture error: no bus"
    );
}
