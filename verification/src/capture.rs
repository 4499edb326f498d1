//! What can be captured, captured frames, and the recording session's
//! configuration and state.
use vstd::prelude::*;

use crate::error::{AppError, AppResult};
use crate::text::{append_range, decimal, push_decimal, push_str};

verus! {

/// Identifies what to capture.
#[derive(Debug, Clone)]
pub enum CaptureSource {
    /// Capture an entire monitor by its ID.
    Screen(ScreenSource),
    /// Capture a specific window by its ID.
    Window(WindowSource),
    /// Capture a rectangular region of a monitor.
    Region(RegionSource),
}

#[derive(Debug, Clone)]
pub struct ScreenSource {
    pub monitor_id: u32,
}

#[derive(Debug, Clone)]
pub struct WindowSource {
    pub window_id: u32,
    /// KWin window UUID (e.g. "{8aa2bfb9-...}"); set by the KWin backend only.
    pub uuid: Option<String>,
}

#[derive(Debug, Clone)]
pub struct RegionSource {
    pub monitor_id: u32,
    pub x: i32,
    pub y: i32,
    pub width: u32,
    pub height: u32,
}

/// Information about an available window for the frontend to display.
#[derive(Debug, Clone)]
pub struct WindowInfo {
    pub id: u32,
    pub pid: u32,
    pub app_name: String,
    pub title: String,
    pub width: u32,
    pub height: u32,
    pub is_minimized: bool,
    pub is_focused: bool,
    /// KWin window UUID; set by the KWin backend only.
    pub uuid: Option<String>,
}

/// Raw captured frame data.
#[derive(Debug, Clone)]
pub struct CapturedFrame {
    /// RGBA pixel data, row-major, 4 bytes per pixel.
    pub data: Vec<u8>,
    /// Width in pixels.
    pub width: u32,
    /// Height in pixels.
    pub height: u32,
}

/// Recording lifecycle state.
#[derive(Debug, Clone, PartialEq)]
pub enum RecordingState {
    Idle,
    Starting,
    Recording,
    Paused,
    Stopping,
    Completed,
    Failed(String),
}

/// Configuration for a recording session.
#[derive(Debug, Clone)]
pub struct RecordingConfig {
    /// What to capture (screen, window, or region).
    pub source: CaptureSource,
    /// Target frames per second.
    pub fps: u32,
    /// FFmpeg video encoder to use.
    pub video_codec: String,
    /// CRF quality value (0-51, lower = better).
    pub crf: u8,
    /// Encoding speed preset (e.g. "ultrafast", "fast", "medium").
    pub preset: String,
    /// Output file path.
    pub output_path: String,
    /// Whether to capture microphone audio.
    pub capture_microphone: bool,
    /// Microphone device name (if capture_microphone is true).
    pub microphone_device: Option<String>,
}

/// The C interface's description of a capture source:
/// `source_type` 0 = Screen, 1 = Window, 2 = Region.
#[derive(Debug, Clone, Copy)]
pub struct SDCaptureSource {
    pub source_type: u32,
    pub monitor_id: u32,
    pub window_id: u32,
    pub region_x: i32,
    pub region_y: i32,
    pub region_width: u32,
    pub region_height: u32,
}

/// The message for a `source_type` that names no kind of source.
pub open spec fn invalid_source_type_message(t: u32) -> Seq<char> {
    "Invalid source_type: "@ + decimal(t as nat) + " (expected 0=Screen, 1=Window, 2=Region)"@
}

/// The source that a C description names: 0 = a screen, 1 = a window
/// (without a KWin UUID), 2 = a region; `None` for any other type.
pub open spec fn spec_source_of(s: SDCaptureSource) -> Option<CaptureSource> {
    if s.source_type == 0 {
        Some(CaptureSource::Screen(ScreenSource { monitor_id: s.monitor_id }))
    } else if s.source_type == 1 {
        Some(CaptureSource::Window(WindowSource { window_id: s.window_id, uuid: None }))
    } else if s.source_type == 2 {
        Some(
            CaptureSource::Region(
                RegionSource {
                    monitor_id: s.monitor_id,
                    x: s.region_x,
                    y: s.region_y,
                    width: s.region_width,
                    height: s.region_height,
                },
            ),
        )
    } else {
        None
    }
}

impl SDCaptureSource {
    /// Convert this description to a `CaptureSource`.
    pub fn to_domain(&self) -> (r: Result<CaptureSource, AppError>)
        ensures
            match spec_source_of(*self) {
                Some(c) => r == Ok::<CaptureSource, AppError>(c),
                None => r matches Err(AppError::Capture(m)) && m@ == invalid_source_type_message(
                    self.source_type,
                ),
            },
    {
        match self.source_type {
            0 => Ok(CaptureSource::Screen(ScreenSource { monitor_id: self.monitor_id })),
            1 => Ok(CaptureSource::Window(WindowSource { window_id: self.window_id, uuid: None })),
            2 => Ok(
                CaptureSource::Region(
                    RegionSource {
                        monitor_id: self.monitor_id,
                        x: self.region_x,
                        y: self.region_y,
                        width: self.region_width,
                        height: self.region_height,
                    },
                ),
            ),
            other => {
                let mut m = String::from_str("Invalid source_type: ");
                push_decimal(&mut m, other as u64);
                push_str(&mut m, " (expected 0=Screen, 1=Window, 2=Region)");
                Err(AppError::Capture(m))
            },
        }
    }
}

// ---------------------------------------------------------------------------
// Pixel conversion
// ---------------------------------------------------------------------------
/// Byte `k` of `bgra_to_rgba(b)`: in every complete 4-byte pixel, blue and
/// red trade places and a zero alpha becomes opaque; a trailing partial
/// pixel is left as it is.
pub open spec fn bgra_byte(b: Seq<u8>, k: int) -> u8 {
    let g = k - k % 4;
    if g + 3 < b.len() {
        if k % 4 == 0 {
            b[g + 2]
        } else if k % 4 == 2 {
            b[g]
        } else if k % 4 == 3 && b[k] == 0 {
            255
        } else {
            b[k]
        }
    } else {
        b[k]
    }
}

/// Convert BGRA pixel data to RGBA by swapping bytes 0 and 2 of each pixel;
/// an alpha of 0 (BGRx) becomes 255.
pub fn bgra_to_rgba(bgra: &[u8]) -> (rgba: Vec<u8>)
    ensures
        rgba@.len() == bgra@.len(),
        forall|k: int| 0 <= k < bgra@.len() ==> #[trigger] rgba@[k] == bgra_byte(bgra@, k),
{
    let mut rgba: Vec<u8> = Vec::new();
    append_range(&mut rgba, bgra, 0, bgra.len());
    assert(rgba@ =~= bgra@);
    let len = rgba.len();
    let mut i: usize = 0;
    while len >= 4 && i <= len - 4
        invariant
            len == bgra@.len(),
            rgba@.len() == len,
            i % 4 == 0,
            i <= len,
            len < 4 ==> i == 0,
            forall|k: int| 0 <= k < i ==> #[trigger] rgba@[k] == bgra_byte(bgra@, k),
            forall|k: int| i <= k < len ==> #[trigger] rgba@[k] == bgra@[k],
        decreases len - i,
    {
        let b = rgba[i];
        let r = rgba[i + 2];
        rgba.set(i, r);
        rgba.set(i + 2, b);
        if rgba[i + 3] == 0 {
            rgba.set(i + 3, 255);
        }
        i = i + 4;
    }
    assert forall|k: int| i <= k < len implies #[trigger] rgba@[k] == bgra_byte(bgra@, k) by {}
    rgba
}

// ---------------------------------------------------------------------------
// Cropping
// ---------------------------------------------------------------------------
/// The crop origin: negative coordinates clamp to 0.
pub open spec fn clamp_origin(v: i32) -> u32 {
    if v < 0 {
        0
    } else {
        v as u32
    }
}

/// A crop extent clamped to what remains of the frame past `origin`.
pub open spec fn clamp_extent(want: u32, size: u32, origin: u32) -> u32 {
    if origin >= size {
        0
    } else if want <= size - origin {
        want
    } else {
        (size - origin) as u32
    }
}

/// The rows `0..n` of a crop, each `row_bytes` long starting at column byte
/// `x_bytes` of row `y0 + r`; a row that would run past the data is left out.
pub open spec fn crop_rows(
    data: Seq<u8>,
    stride: nat,
    x_bytes: nat,
    y0: nat,
    row_bytes: nat,
    n: nat,
) -> Seq<u8>
    decreases n,
{
    if n == 0 {
        seq![]
    } else {
        let prev = crop_rows(data, stride, x_bytes, y0, row_bytes, (n - 1) as nat);
        let off = (y0 + n - 1) * stride + x_bytes;
        if off + row_bytes <= data.len() {
            prev + data.subrange(off as int, off + row_bytes)
        } else {
            prev
        }
    }
}

pub open spec fn crop_outside_message(cx: u32, cy: u32, w: u32, h: u32) -> Seq<char> {
    "Crop origin ("@ + decimal(cx as nat) + ", "@ + decimal(cy as nat) + ") outside frame bounds ("@
        + decimal(w as nat) + "x"@ + decimal(h as nat) + ")"@
}

pub open spec fn crop_empty_message(cw: u32, ch: u32, cx: u32, cy: u32, w: u32, h: u32) -> Seq<
    char,
> {
    "Crop region empty after clamping: "@ + decimal(cw as nat) + "x"@ + decimal(ch as nat)
        + " at ("@ + decimal(cx as nat) + ","@ + decimal(cy as nat) + ") in "@ + decimal(
        w as nat,
    ) + "x"@ + decimal(h as nat)
}

/// What `crop_frame` returns.
pub open spec fn spec_crop_frame(
    data: Seq<u8>,
    width: u32,
    height: u32,
    x: i32,
    y: i32,
    w: u32,
    h: u32,
) -> Result<(Seq<u8>, u32, u32), Seq<char>> {
    let cx = clamp_origin(x);
    let cy = clamp_origin(y);
    if cx >= width || cy >= height {
        Err(crop_outside_message(cx, cy, width, height))
    } else {
        let cw = clamp_extent(w, width, cx);
        let ch = clamp_extent(h, height, cy);
        if cw == 0 || ch == 0 {
            Err(crop_empty_message(cw, ch, cx, cy, width, height))
        } else {
            Ok(
                (
                    crop_rows(data, width as nat * 4, cx as nat * 4, cy as nat, cw as nat * 4, ch as nat),
                    cw,
                    ch,
                ),
            )
        }
    }
}

/// The arithmetic of cropping stays within the machine's integers.
pub open spec fn crop_fits(width: u32, height: u32, x: i32, y: i32, w: u32, h: u32) -> bool {
    let cx = clamp_origin(x);
    let cy = clamp_origin(y);
    let cw = clamp_extent(w, width, cx);
    let ch = clamp_extent(h, height, cy);
    (cx < width && cy < height && cw > 0 && ch > 0) ==> {
        &&& width * 4 <= u32::MAX
        &&& cw * ch * 4 <= u32::MAX
        &&& height * (width * 4) <= usize::MAX
    }
}

/// Whether cropping this frame stays within the machine's integers (see
/// `crop_fits`).
pub fn check_crop_fits(width: u32, height: u32, x: i32, y: i32, w: u32, h: u32) -> (r: bool)
    ensures
        r == crop_fits(width, height, x, y, w, h),
{
    let cx: u32 = if x < 0 {
        0
    } else {
        x as u32
    };
    let cy: u32 = if y < 0 {
        0
    } else {
        y as u32
    };
    if cx >= width || cy >= height {
        return true;
    }
    let cw: u32 = if w <= width - cx {
        w
    } else {
        width - cx
    };
    let ch: u32 = if h <= height - cy {
        h
    } else {
        height - cy
    };
    if cw == 0 || ch == 0 {
        return true;
    }
    assert((cw as int) * (ch as int) <= 0xffff_ffff * 0xffff_ffff) by (nonlinear_arith)
        requires cw <= 0xffff_ffff, ch <= 0xffff_ffff;
    assert((height as int) * (width as int) <= 0xffff_ffff * 0xffff_ffff) by (nonlinear_arith)
        requires width <= 0xffff_ffff, height <= 0xffff_ffff;
    let w4: u64 = (width as u64) * 4;
    assert((height as int) * (w4 as int) <= 0xffff_ffff * (4 * 0xffff_ffff)) by (nonlinear_arith)
        requires height <= 0xffff_ffff, w4 <= 4 * 0xffff_ffff;
    let px: u128 = (cw as u128) * (ch as u128) * 4;
    let all: u128 = (height as u128) * (w4 as u128);
    w4 <= 0xffff_ffff && px <= 0xffff_ffff && all <= usize::MAX as u128
}

/// Crop a frame to the given rectangle. Coordinates are clamped to the
/// frame.
pub fn crop_frame(frame: &CapturedFrame, x: i32, y: i32, w: u32, h: u32) -> (r: AppResult<
    CapturedFrame,
>)
    requires
        crop_fits(frame.width, frame.height, x, y, w, h),
    ensures
        match spec_crop_frame(frame.data@, frame.width, frame.height, x, y, w, h) {
            Ok((d, cw, ch)) => r matches Ok(f) && f.data@ == d && f.width == cw && f.height == ch,
            Err(m) => r matches Err(AppError::Capture(e)) && e@ == m,
        },
{
    let src_w = frame.width;
    let src_h = frame.height;
    let cx: u32 = if x < 0 {
        0
    } else {
        x as u32
    };
    let cy: u32 = if y < 0 {
        0
    } else {
        y as u32
    };
    if cx >= src_w || cy >= src_h {
        let mut m = String::from_str("Crop origin (");
        push_decimal(&mut m, cx as u64);
        push_str(&mut m, ", ");
        push_decimal(&mut m, cy as u64);
        push_str(&mut m, ") outside frame bounds (");
        push_decimal(&mut m, src_w as u64);
        push_str(&mut m, "x");
        push_decimal(&mut m, src_h as u64);
        push_str(&mut m, ")");
        assert(m@ =~= crop_outside_message(cx, cy, src_w, src_h));
        return Err(AppError::Capture(m));
    }
    let cw: u32 = if w <= src_w - cx {
        w
    } else {
        src_w - cx
    };
    let ch: u32 = if h <= src_h - cy {
        h
    } else {
        src_h - cy
    };
    if cw == 0 || ch == 0 {
        let mut m = String::from_str("Crop region empty after clamping: ");
        push_decimal(&mut m, cw as u64);
        push_str(&mut m, "x");
        push_decimal(&mut m, ch as u64);
        push_str(&mut m, " at (");
        push_decimal(&mut m, cx as u64);
        push_str(&mut m, ",");
        push_decimal(&mut m, cy as u64);
        push_str(&mut m, ") in ");
        push_decimal(&mut m, src_w as u64);
        push_str(&mut m, "x");
        push_decimal(&mut m, src_h as u64);
        assert(m@ =~= crop_empty_message(cw, ch, cx, cy, src_w, src_h));
        return Err(AppError::Capture(m));
    }
    let src_stride = (src_w * 4) as usize;
    let dst_row_bytes = (cw * 4) as usize;
    let mut data: Vec<u8> = Vec::with_capacity((cw * ch * 4) as usize);
    let mut row: u32 = 0;
    while row < ch
        invariant
            src_w == frame.width,
            src_h == frame.height,
            cx < src_w,
            cy < src_h,
            0 < cw <= src_w - cx,
            0 < ch <= src_h - cy,
            src_stride == src_w * 4,
            dst_row_bytes == cw * 4,
            src_h * (src_w * 4) <= usize::MAX,
            row <= ch,
            data@ == crop_rows(
                frame.data@,
                src_stride as nat,
                cx as nat * 4,
                cy as nat,
                dst_row_bytes as nat,
                row as nat,
            ),
        decreases ch - row,
    {
        let src_row = (cy + row) as usize;
        proof {
            assert(src_row + 1 <= src_h);
            assert((src_row + 1) * src_stride <= src_h * src_stride) by (nonlinear_arith)
                requires
                    src_row + 1 <= src_h,
            ;
            assert((src_row + 1) * src_stride == src_row * src_stride + src_stride) by (
            nonlinear_arith);
        }
        let src_offset = src_row * src_stride + (cx as usize) * 4;
        let end = src_offset + dst_row_bytes;
        if end <= frame.data.len() {
            append_range(&mut data, frame.data.as_slice(), src_offset, end);
        }
        row = row + 1;
    }
    Ok(CapturedFrame { data, width: cw, height: ch })
}

/// A crop that succeeds lies inside the frame and is not empty: coordinates
/// are clamped to the frame bounds.
pub proof fn lemma_crop_inside_frame(data: Seq<u8>, width: u32, height: u32, x: i32, y: i32, w: u32, h: u32)
    requires
        spec_crop_frame(data, width, height, x, y, w, h) is Ok,
    ensures
        ({
            let (_, cw, ch) = spec_crop_frame(data, width, height, x, y, w, h)->Ok_0;
            &&& 0 < cw <= w
            &&& 0 < ch <= h
            &&& clamp_origin(x) + cw <= width
            &&& clamp_origin(y) + ch <= height
        }),
{
}

/// Every row of a crop lies inside the data: `n` rows of `row_bytes` bytes
/// give `n * row_bytes` bytes.
pub proof fn lemma_crop_rows_len(
    data: Seq<u8>,
    stride: nat,
    x_bytes: nat,
    y0: nat,
    row_bytes: nat,
    n: nat,
)
    requires
        x_bytes + row_bytes <= stride,
        (y0 + n) * stride <= data.len(),
    ensures
        crop_rows(data, stride, x_bytes, y0, row_bytes, n).len() == n * row_bytes,
    decreases n,
{
    if n > 0 {
        let m = (n - 1) as nat;
        assert((y0 + m) * stride <= (y0 + n) * stride) by (nonlinear_arith)
            requires
                m < n,
        ;
        lemma_crop_rows_len(data, stride, x_bytes, y0, row_bytes, m);
        assert((y0 + n - 1) * stride + stride == (y0 + n) * stride) by (nonlinear_arith);
        assert(n * row_bytes == m * row_bytes + row_bytes) by (nonlinear_arith)
            requires
                m == n - 1,
        ;
    } else {
        assert(n * row_bytes == 0) by (nonlinear_arith)
            requires
                n == 0,
        ;
    }
}

/// Cropping a whole frame (4 bytes per pixel, `width * height` pixels)
/// gives a whole frame of the crop's size: `4 * cw * ch` bytes.
pub proof fn lemma_crop_whole_frame(data: Seq<u8>, width: u32, height: u32, x: i32, y: i32, w: u32, h: u32)
    requires
        data.len() == 4 * width * height,
        spec_crop_frame(data, width, height, x, y, w, h) is Ok,
    ensures
        ({
            let (d, cw, ch) = spec_crop_frame(data, width, height, x, y, w, h)->Ok_0;
            d.len() == 4 * cw * ch
        }),
{
    let cx = clamp_origin(x);
    let cy = clamp_origin(y);
    let cw = clamp_extent(w, width, cx);
    let ch = clamp_extent(h, height, cy);
    assert((cy as nat + ch as nat) * (width as nat * 4) <= height as nat * (width as nat * 4)) by (
    nonlinear_arith)
        requires
            cy + ch <= height,
    ;
    assert(height as nat * (width as nat * 4) == 4 * width * height) by (nonlinear_arith);
    lemma_crop_rows_len(data, width as nat * 4, cx as nat * 4, cy as nat, cw as nat * 4, ch as nat);
    assert(ch as nat * (cw as nat * 4) == 4 * cw * ch) by (nonlinear_arith);
}

// ---------------------------------------------------------------------------
// Finding a source by id
// ---------------------------------------------------------------------------
/// The first position whose id (when it can be read) is `id`, or
/// `ids.len()`.
pub open spec fn first_with_id(ids: Seq<Option<u32>>, id: u32) -> nat
    decreases ids.len(),
{
    if ids.len() == 0 || ids[0] == Some(id) {
        0
    } else {
        1 + first_with_id(ids.drop_first(), id)
    }
}

proof fn lemma_first_with_id(ids: Seq<Option<u32>>, id: u32, i: int)
    requires
        0 <= i <= ids.len(),
        forall|j: int| 0 <= j < i ==> #[trigger] ids[j] != Some(id),
        i == ids.len() || ids[i] == Some(id),
    ensures
        first_with_id(ids, id) == i,
    decreases i,
{
    if i > 0 {
        assert(forall|j: int| 0 <= j < i - 1 ==> ids.drop_first()[j] == ids[j + 1]);
        lemma_first_with_id(ids.drop_first(), id, i - 1);
    }
}

fn position_of_id(ids: &Vec<Option<u32>>, id: u32) -> (r: Option<usize>)
    ensures
        first_with_id(ids@, id) < ids@.len() ==> r == Some(first_with_id(ids@, id) as usize),
        first_with_id(ids@, id) >= ids@.len() ==> r is None,
{
    let mut i: usize = 0;
    while i < ids.len()
        invariant
            i <= ids@.len(),
            forall|j: int| 0 <= j < i ==> #[trigger] ids@[j] != Some(id),
        decreases ids.len() - i,
    {
        if ids[i] == Some(id) {
            proof {
                lemma_first_with_id(ids@, id, i as int);
            }
            return Some(i);
        }
        i = i + 1;
    }
    proof {
        lemma_first_with_id(ids@, id, i as int);
    }
    None
}

/// The monitor to capture among the monitors' ids (`None` where an id
/// cannot be read): the first with the requested id.
pub fn find_monitor(ids: &Vec<Option<u32>>, monitor_id: u32) -> (r: AppResult<usize>)
    ensures
        first_with_id(ids@, monitor_id) < ids@.len() ==> r == Ok::<usize, AppError>(
            first_with_id(ids@, monitor_id) as usize,
        ),
        first_with_id(ids@, monitor_id) >= ids@.len() ==> (r matches Err(AppError::Capture(m)) && m@
            == "Monitor with ID "@ + decimal(monitor_id as nat) + " not found"@),
{
    match position_of_id(ids, monitor_id) {
        Some(i) => Ok(i),
        None => {
            let mut m = String::from_str("Monitor with ID ");
            push_decimal(&mut m, monitor_id as u64);
            push_str(&mut m, " not found");
            Err(AppError::Capture(m))
        },
    }
}

/// The window to capture among the windows' ids (`None` where an id cannot
/// be read): the first with the requested id.
pub fn find_window(ids: &Vec<Option<u32>>, window_id: u32) -> (r: AppResult<usize>)
    ensures
        first_with_id(ids@, window_id) < ids@.len() ==> r == Ok::<usize, AppError>(
            first_with_id(ids@, window_id) as usize,
        ),
        first_with_id(ids@, window_id) >= ids@.len() ==> (r matches Err(AppError::Capture(m)) && m@
            == "Window with ID "@ + decimal(window_id as nat) + " not found"@),
{
    match position_of_id(ids, window_id) {
        Some(i) => Ok(i),
        None => {
            let mut m = String::from_str("Window with ID ");
            push_decimal(&mut m, window_id as u64);
            push_str(&mut m, " not found");
            Err(AppError::Capture(m))
        },
    }
}

// ---------------------------------------------------------------------------
// Recording status
// ---------------------------------------------------------------------------
/// The C interface's state code of a recording handle: 0 = Idle (no handle),
/// 5 = Completed (handle consumed, or pipeline no longer running),
/// 3 = Paused, 2 = Recording.
pub fn recording_state_code(
    has_handle: bool,
    consumed: bool,
    running: bool,
    paused: bool,
) -> (r: u32)
    ensures
        r == (if !has_handle {
            0u32
        } else if consumed || !running {
            5u32
        } else if paused {
            3u32
        } else {
            2u32
        }),
{
    if !has_handle {
        0
    } else if consumed {
        5
    } else if !running {
        5
    } else if paused {
        3
    } else {
        2
    }
}

/// The state reported for the active pipeline: paused before running, and
/// a pipeline that stopped running is stopping.
pub fn pipeline_state(active: bool, running: bool, paused: bool) -> (r: RecordingState)
    ensures
        !active ==> r == RecordingState::Idle,
        active && paused ==> r == RecordingState::Paused,
        active && !paused && running ==> r == RecordingState::Recording,
        active && !paused && !running ==> r == RecordingState::Stopping,
{
    if !active {
        RecordingState::Idle
    } else if paused {
        RecordingState::Paused
    } else if running {
        RecordingState::Recording
    } else {
        RecordingState::Stopping
    }
}

} // verus!
