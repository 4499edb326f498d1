//! KDE Spectacle screenshots over D-Bus: its screenshot methods answer by
//! signal, so a capture waits for `ScreenshotTaken` or `ScreenshotFailed`.
use vstd::prelude::*;

use crate::error::{AppError, AppResult};
use crate::text::push_str;

verus! {

/// What arrived while waiting for Spectacle's answer to a screenshot call.
#[derive(Debug, Clone)]
pub enum SpectacleEvent {
    /// A `ScreenshotTaken` signal, with its file name when its body reads
    /// as a string (or a one-string tuple).
    Taken(Option<String>),
    /// Reading a `ScreenshotTaken` signal failed, with the error's message.
    TakenError(String),
    /// The `ScreenshotTaken` signal stream ended.
    TakenEnded,
    /// A `ScreenshotFailed` signal, with its message when its body reads as a
    /// string (or a one-string tuple).
    Failed(Option<String>),
    /// Reading a `ScreenshotFailed` signal failed, with the error's message.
    FailedError(String),
    /// The `ScreenshotFailed` signal stream ended.
    FailedEnded,
    /// Five seconds passed without an answer.
    TimedOut,
}

/// How waiting for Spectacle's answer ends after an event: `None` to keep
/// waiting, else the screenshot's file name or the message of the error.
pub open spec fn spec_outcome(method: Seq<char>, e: SpectacleEvent) -> Option<Result<Seq<char>, Seq<char>>> {
    match e {
        SpectacleEvent::Taken(None) => None,
        SpectacleEvent::Taken(Some(f)) => Some(Ok(f@)),
        SpectacleEvent::TakenError(m) => Some(Err("Error reading ScreenshotTaken signal: "@ + m@)),
        SpectacleEvent::TakenEnded => Some(Err("ScreenshotTaken signal stream ended unexpectedly"@)),
        SpectacleEvent::Failed(Some(m)) => Some(Err("Spectacle screenshot failed: "@ + m@)),
        SpectacleEvent::Failed(None) => Some(Err("Spectacle screenshot failed (unknown error)"@)),
        SpectacleEvent::FailedError(m) => Some(Err("Error reading ScreenshotFailed signal: "@ + m@)),
        SpectacleEvent::FailedEnded => Some(Err("ScreenshotFailed signal stream ended unexpectedly"@)),
        SpectacleEvent::TimedOut => Some(
            Err("Timed out waiting for Spectacle "@ + method + " signal after 5s"@),
        ),
    }
}

fn capture_error(prefix: &str, detail: &str) -> (e: AppError)
    ensures
        e matches AppError::Capture(m) && m@ == prefix@ + detail@,
{
    let mut m = String::from_str(prefix);
    push_str(&mut m, detail);
    AppError::Capture(m)
}

/// How waiting for the answer to Spectacle's `method` call ends after
/// `event` (see `spec_outcome`).
pub fn spectacle_outcome(method: &str, event: SpectacleEvent) -> (r: Option<AppResult<String>>)
    ensures
        match spec_outcome(method@, event) {
            None => r is None,
            Some(Ok(f)) => r matches Some(Ok(s)) && s@ == f,
            Some(Err(m)) => r matches Some(Err(AppError::Capture(e))) && e@ == m,
        },
{
    match event {
        SpectacleEvent::Taken(None) => None,
        SpectacleEvent::Taken(Some(f)) => Some(Ok(f)),
        SpectacleEvent::TakenError(m) => Some(
            Err(capture_error("Error reading ScreenshotTaken signal: ", m.as_str())),
        ),
        SpectacleEvent::TakenEnded => Some(
            Err(AppError::Capture(String::from_str("ScreenshotTaken signal stream ended unexpectedly"))),
        ),
        SpectacleEvent::Failed(Some(m)) => Some(
            Err(capture_error("Spectacle screenshot failed: ", m.as_str())),
        ),
        SpectacleEvent::Failed(None) => Some(
            Err(AppError::Capture(String::from_str("Spectacle screenshot failed (unknown error)"))),
        ),
        SpectacleEvent::FailedError(m) => Some(
            Err(capture_error("Error reading ScreenshotFailed signal: ", m.as_str())),
        ),
        SpectacleEvent::FailedEnded => Some(
            Err(AppError::Capture(String::from_str("ScreenshotFailed signal stream ended unexpectedly"))),
        ),
        SpectacleEvent::TimedOut => {
            let mut m = String::from_str("Timed out waiting for Spectacle ");
            push_str(&mut m, method);
            push_str(&mut m, " signal after 5s");
            Some(Err(AppError::Capture(m)))
        },
    }
}

/// One check, after Spectacle was started in the background, whether its
/// D-Bus service is up: `Some(Ok(true))` once it is (we started it), a
/// timeout error once the 3-second deadline passed, else `None` to check
/// again.
pub fn spectacle_start_poll(service_up: bool, past_deadline: bool) -> (r: Option<AppResult<bool>>)
    ensures
        service_up ==> r == Some(Ok::<bool, AppError>(true)),
        !service_up && past_deadline ==> (r matches Some(Err(AppError::Capture(m))) && m@
            == "Timed out waiting for Spectacle D-Bus service to appear after 3 seconds"@),
        !service_up && !past_deadline ==> r is None,
{
    if service_up {
        Some(Ok(true))
    } else if past_deadline {
        Some(
            Err(
                AppError::Capture(
                    String::from_str(
                        "Timed out waiting for Spectacle D-Bus service to appear after 3 seconds",
                    ),
                ),
            ),
        )
    } else {
        None
    }
}

/// The KWin script that makes the window with internal id `uuid` the
/// active one.
pub open spec fn spec_activate_script(uuid: Seq<char>) -> Seq<char> {
    "const clients = workspace.windowList();\nfor (let i = 0; i < clients.length; i++) {\n    if (clients[i].internalId === \""@
        + uuid
        + "\") {\n        workspace.activeWindow = clients[i];\n        break;\n    }\n}"@
}

/// The KWin script that activates the window `uuid` before Spectacle
/// captures the active window.
pub fn activate_window_script(uuid: &str) -> (r: String)
    ensures
        r@ == spec_activate_script(uuid@),
{
    let mut s = String::from_str(
        "const clients = workspace.windowList();\nfor (let i = 0; i < clients.length; i++) {\n    if (clients[i].internalId === \"",
    );
    push_str(&mut s, uuid);
    push_str(
        &mut s,
        "\") {\n        workspace.activeWindow = clients[i];\n        break;\n    }\n}",
    );
    s
}

} // verus!
