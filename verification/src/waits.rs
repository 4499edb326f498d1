//! How long the PipeWire capture waits for its stream: for the first
//! frame a grab asks for, for the stream to start, and for the first frame
//! a recording needs. The waiting itself (sleeping, running the PipeWire
//! loop) is the caller's; these decide after each turn whether to go on.
use vstd::prelude::*;

use crate::error::{AppError, AppResult};
use crate::text::push_str;

verus! {

/// How long a grab waits for the stream's first frame, in milliseconds.
pub const FRAME_WAIT_MS: u128 = 2000;

/// How long a grab sleeps between looks at the stream, in milliseconds.
pub const FRAME_POLL_MS: u64 = 50;

/// How long the stream may take to start, in milliseconds.
pub const STREAM_START_WAIT_MS: u128 = 10000;

/// How long a recording waits for its first frame once the stream has
/// started, in milliseconds.
pub const FIRST_FRAME_WAIT_MS: u128 = 5000;

/// What a wait does next.
#[derive(Debug)]
pub enum Wait {
    /// What was waited for is there.
    Done,
    /// Wait one more turn.
    Again,
    /// Give up with this error.
    Failed(AppError),
}

/// A grab waiting for the stream's first frame, `elapsed_ms` after it
/// began: done when a frame is there, else another turn while less than
/// two seconds have passed, else the timeout error.
pub fn grab_frame_wait(have_frame: bool, elapsed_ms: u128) -> (r: Wait)
    ensures
        have_frame ==> r is Done,
        !have_frame && elapsed_ms < FRAME_WAIT_MS ==> r is Again,
        !have_frame && elapsed_ms >= FRAME_WAIT_MS ==> (r matches Wait::Failed(AppError::Capture(m))
            && m@ == "No frame available from PipeWire stream (timed out after 2s)"@),
{
    if have_frame {
        Wait::Done
    } else if elapsed_ms < FRAME_WAIT_MS {
        Wait::Again
    } else {
        Wait::Failed(
            AppError::Capture(
                String::from_str("No frame available from PipeWire stream (timed out after 2s)"),
            ),
        )
    }
}

/// After a turn of the PipeWire loop while the stream starts, `elapsed_ms`
/// after connecting: the timeout error once more than ten seconds have
/// passed, else the error the stream reported, if any.
pub fn stream_start_check(elapsed_ms: u128, stream_error: Option<String>) -> (r: AppResult<()>)
    ensures
        elapsed_ms > STREAM_START_WAIT_MS ==> (r matches Err(AppError::Capture(m)) && m@
            == "Timed out waiting for PipeWire stream to start"@),
        elapsed_ms <= STREAM_START_WAIT_MS ==> match stream_error {
            Some(e) => r matches Err(AppError::Capture(m)) && m@
                == "PipeWire stream error during startup: "@ + e@,
            None => r is Ok,
        },
{
    if elapsed_ms > STREAM_START_WAIT_MS {
        return Err(
            AppError::Capture(String::from_str("Timed out waiting for PipeWire stream to start")),
        );
    }
    match stream_error {
        Some(e) => {
            let mut m = String::from_str("PipeWire stream error during startup: ");
            push_str(&mut m, e.as_str());
            Err(AppError::Capture(m))
        },
        None => Ok(()),
    }
}

/// After a turn of the PipeWire loop while a recording waits for its first
/// frame, `elapsed_ms` after the stream started: the timeout error once
/// more than five seconds have passed.
pub fn first_frame_check(elapsed_ms: u128) -> (r: AppResult<()>)
    ensures
        elapsed_ms > FIRST_FRAME_WAIT_MS ==> (r matches Err(AppError::Capture(m)) && m@
            == "Timed out waiting for first PipeWire frame"@),
        elapsed_ms <= FIRST_FRAME_WAIT_MS ==> r is Ok,
{
    if elapsed_ms > FIRST_FRAME_WAIT_MS {
        Err(AppError::Capture(String::from_str("Timed out waiting for first PipeWire frame")))
    } else {
        Ok(())
    }
}

} // verus!
