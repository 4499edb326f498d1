use screen_dream::error::AppError;
use screen_dream::portal::{
    percent_decode, request_path, restore_token_from_text, screenshot_request_token,
    screenshot_response_path, token_path, uri_to_path,
};
use screen_dream::spectacle::{
    activate_window_script, spectacle_outcome, spectacle_start_poll, SpectacleEvent,
};

#[test]
fn decodes_percent_escapes() {
    assert_eq!(percent_decode("/home/u/My%20Pictures/a%23b.png"), "/home/u/My Pictures/a#b.png");
    assert_eq!(percent_decode("%41%4a%4A"), "AJJ");
    assert_eq!(percent_decode("%+f"), "\u{f}");
    assert_eq!(percent_decode("%zz!"), "%zz!");
    assert_eq!(percent_decode("50%"), "50%");
    assert_eq!(percent_decode("end%4"), "end%4");
    assert_eq!(percent_decode("a%2"), "a%2");
    assert_eq!(percent_decode("%"), "%");
    assert_eq!(percent_decode("%C3%A9"), "é");
    assert_eq!(percent_decode("caf%C3%A9"), "café");
    assert_eq!(percent_decode("café"), "café");
    assert_eq!(percent_decode("/tmp/%E6%97%A5%20b.png"), "/tmp/日 b.png");
    assert_eq!(percent_decode("bad%FF"), "bad\u{fffd}");
    assert_eq!(percent_decode("plain"), "plain");
}

#[test]
fn file_uris() {
    assert_eq!(uri_to_path("file:///tmp/Screenshot%201.png").unwrap(), "/tmp/Screenshot 1.png");
    assert_eq!(uri_to_path("file:///home/u/Bilder/caf%C3%A9.png").unwrap(), "/home/u/Bilder/café.png");
    match uri_to_path("https://x/y.png") {
        Err(AppError::Capture(m)) => assert_eq!(m, "Unexpected URI scheme (expected file://): https://x/y.png"),
        other => panic!("unexpected {other:?}"),
    }
}

#[test]
fn screenshot_requests() {
    assert_eq!(screenshot_request_token(4242), "sd_screenshot_4242");
    assert_eq!(
        request_path(":1.234", "sd_screenshot_7"),
        "/org/freedesktop/portal/desktop/request/1_234/sd_screenshot_7"
    );
    assert_eq!(screenshot_response_path(0, Some(Ok("file:///a/b.png".into()))).unwrap(), "/a/b.png");
    match screenshot_response_path(1, Some(Ok("file:///a".into()))) {
        Err(AppError::Capture(m)) => assert_eq!(
            m,
            "Portal Screenshot failed with response code 1 (0=success, 1=cancelled, 2=other)"
        ),
        other => panic!("unexpected {other:?}"),
    }
    match screenshot_response_path(0, None) {
        Err(AppError::Capture(m)) => assert_eq!(m, "No 'uri' field in portal Screenshot response"),
        other => panic!("unexpected {other:?}"),
    }
    match screenshot_response_path(0, Some(Err("not a string".into()))) {
        Err(AppError::Capture(m)) => assert_eq!(m, "Failed to extract URI string: not a string"),
        other => panic!("unexpected {other:?}"),
    }
}

#[test]
fn restore_tokens() {
    assert_eq!(token_path("/home/u/.config/screen-dream"), "/home/u/.config/screen-dream/pipewire_token.txt");
    assert_eq!(restore_token_from_text("  abc-123\n").as_deref(), Some("abc-123"));
    assert!(restore_token_from_text(" \n\t").is_none());
}

#[test]
fn spectacle_signals() {
    assert_eq!(
        spectacle_outcome("FullScreen", SpectacleEvent::Taken(Some("/tmp/s.png".into()))).unwrap().unwrap(),
        "/tmp/s.png"
    );
    assert!(spectacle_outcome("FullScreen", SpectacleEvent::Taken(None)).is_none());
    let msg = |e: SpectacleEvent| match spectacle_outcome("ActiveWindow", e) {
        Some(Err(AppError::Capture(m))) => m,
        other => panic!("unexpected {other:?}"),
    };
    assert_eq!(msg(SpectacleEvent::TimedOut), "Timed out waiting for Spectacle ActiveWindow signal after 5s");
    assert_eq!(msg(SpectacleEvent::Failed(Some("no screen".into()))), "Spectacle screenshot failed: no screen");
    assert_eq!(msg(SpectacleEvent::Failed(None)), "Spectacle screenshot failed (unknown error)");
    assert_eq!(msg(SpectacleEvent::TakenError("e".into())), "Error reading ScreenshotTaken signal: e");
    assert_eq!(msg(SpectacleEvent::FailedError("e".into())), "Error reading ScreenshotFailed signal: e");
    assert_eq!(msg(SpectacleEvent::TakenEnded), "ScreenshotTaken signal stream ended unexpectedly");
    assert_eq!(msg(SpectacleEvent::FailedEnded), "ScreenshotFailed signal stream ended unexpectedly");
    assert_eq!(spectacle_start_poll(true, true).unwrap().unwrap(), true);
    assert!(spectacle_start_poll(false, false).is_none());
    assert!(spectacle_start_poll(false, true).unwrap().is_err());
    let script = activate_window_script("{u-1}");
    assert!(script.contains("clients[i].internalId === \"{u-1}\""));
    assert!(script.starts_with("const clients = workspace.windowList();\n"));
    assert!(script.ends_with("break;\n    }\n}"));
}
