use screen_dream::platform::{detect_linux_display_server, DisplayServer, Os, PlatformInfo};

#[test]
fn is_wayland_returns_correct_value() {
    let mut info = PlatformInfo {
        os: Os::Linux,
        display_server: DisplayServer::Wayland,
        arch: "x86_64".to_string(),
    };
    assert!(info.is_wayland());
    info.display_server = DisplayServer::X11;
    assert!(!info.is_wayland());
}

#[test]
fn display_server_from_session() {
    assert_eq!(detect_linux_display_server(Some("Wayland"), false, true), DisplayServer::Wayland);
    assert_eq!(detect_linux_display_server(Some("x11"), true, false), DisplayServer::X11);
    assert_eq!(detect_linux_display_server(Some("tty"), true, true), DisplayServer::Wayland);
    assert_eq!(detect_linux_display_server(None, false, true), DisplayServer::X11);
    assert_eq!(detect_linux_display_server(None, false, false), DisplayServer::Unknown);
    let mac = PlatformInfo::from_environment(Os::Macos, Some("wayland"), true, true, "aarch64");
    assert_eq!(mac.display_server, DisplayServer::Quartz);
    assert_eq!(mac.arch, "aarch64");
    let win = PlatformInfo::from_environment(Os::Windows, None, false, false, "x86_64");
    assert_eq!(win.display_server, DisplayServer::Win32);
    let linux = PlatformInfo::from_environment(Os::Linux, Some("wayland"), false, false, "x86_64");
    assert!(linux.is_wayland());
}
