//! Which operating system and display server the program runs under.
use vstd::prelude::*;

use crate::text::{chars_of, chars_eq, lowercase, to_lowercase};

verus! {

#[derive(Debug, Clone, Copy, PartialEq, Eq, Structural)]
pub enum Os {
    Linux,
    Macos,
    Windows,
}

#[derive(Debug, Clone, Copy, PartialEq, Eq, Structural)]
pub enum DisplayServer {
    X11,
    Wayland,
    Quartz,
    Win32,
    Unknown,
}

#[derive(Debug, Clone)]
pub struct PlatformInfo {
    pub os: Os,
    pub display_server: DisplayServer,
    pub arch: String,
}

/// The Linux display server that the session's environment names:
/// `XDG_SESSION_TYPE` first (compared without regard to case), then the
/// presence of `WAYLAND_DISPLAY`, then of `DISPLAY`.
pub open spec fn spec_linux_display_server(
    session_type: Option<Seq<char>>,
    wayland_display_set: bool,
    display_set: bool,
) -> DisplayServer {
    if session_type is Some && lowercase(session_type->0) == "wayland"@ {
        DisplayServer::Wayland
    } else if session_type is Some && lowercase(session_type->0) == "x11"@ {
        DisplayServer::X11
    } else if wayland_display_set {
        DisplayServer::Wayland
    } else if display_set {
        DisplayServer::X11
    } else {
        DisplayServer::Unknown
    }
}

/// The display server of an operating system; Linux takes it from the
/// session's environment.
pub open spec fn spec_display_server(os: Os, linux: DisplayServer) -> DisplayServer {
    match os {
        Os::Linux => linux,
        Os::Macos => DisplayServer::Quartz,
        Os::Windows => DisplayServer::Win32,
    }
}

/// Decides the Linux display server from the values of `XDG_SESSION_TYPE`
/// (when set), and whether `WAYLAND_DISPLAY` and `DISPLAY` are set.
pub fn detect_linux_display_server(
    session_type: Option<&str>,
    wayland_display_set: bool,
    display_set: bool,
) -> (r: DisplayServer)
    ensures
        r == spec_linux_display_server(
            match session_type {
                Some(s) => Some(s@),
                None => None,
            },
            wayland_display_set,
            display_set,
        ),
{
    if let Some(t) = session_type {
        let lower = chars_of(to_lowercase(t).as_str());
        if chars_eq(lower.as_slice(), chars_of("wayland").as_slice()) {
            return DisplayServer::Wayland;
        }
        if chars_eq(lower.as_slice(), chars_of("x11").as_slice()) {
            return DisplayServer::X11;
        }
    }
    if wayland_display_set {
        return DisplayServer::Wayland;
    }
    if display_set {
        return DisplayServer::X11;
    }
    DisplayServer::Unknown
}

impl PlatformInfo {
    /// The platform of an operating system, its architecture, and (for
    /// Linux) the session's display-server environment.
    pub fn from_environment(
        os: Os,
        session_type: Option<&str>,
        wayland_display_set: bool,
        display_set: bool,
        arch: &str,
    ) -> (r: PlatformInfo)
        ensures
            r.os == os,
            r.arch@ == arch@,
            r.display_server == spec_display_server(
                os,
                spec_linux_display_server(
                    match session_type {
                        Some(s) => Some(s@),
                        None => None,
                    },
                    wayland_display_set,
                    display_set,
                ),
            ),
    {
        let display_server = match os {
            Os::Linux => detect_linux_display_server(session_type, wayland_display_set, display_set),
            Os::Macos => DisplayServer::Quartz,
            Os::Windows => DisplayServer::Win32,
        };
        PlatformInfo { os, display_server, arch: String::from_str(arch) }
    }

    /// Whether the display server is Wayland.
    pub fn is_wayland(&self) -> (r: bool)
        ensures
            r == (self.display_server == DisplayServer::Wayland),
    {
        self.display_server == DisplayServer::Wayland
    }
}

} // verus!
