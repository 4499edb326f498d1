//! Screen recording: the FFmpeg command lines of the capture pipelines, the
//! packing of PipeWire buffers into frames, the decisions of the capture
//! loop, and the session's configuration from the C interface.
use vstd::prelude::*;

use crate::capture::{
    bgra_to_rgba, bgra_byte, clamp_origin, invalid_source_type_message, spec_source_of,
    CaptureSource, RecordingConfig, RegionSource, SDCaptureSource,
};
use crate::error::{AppError, AppResult};
use crate::ffmpeg::command::{resolution_arg, string_views, FfmpegCommand};
use crate::text::{append_range, chars_of, decimal, lines, lines_spec, push_decimal, push_str, string_of, views};

verus! {

/// Result returned when a recording pipeline finishes.
#[derive(Debug)]
pub struct PipelineResult {
    pub output_path: String,
    pub frames_captured: u64,
    pub elapsed: std::time::Duration,
}

// ---------------------------------------------------------------------------
// FFmpeg command lines
// ---------------------------------------------------------------------------
/// The arguments that feed FFmpeg raw frames of `pix_fmt` pixels, `width`
/// by `height`, at `fps` frames per second on its standard input.
pub open spec fn raw_input_args(pix_fmt: Seq<char>, width: u32, height: u32, fps: u32) -> Seq<
    Seq<char>,
> {
    seq![
        "-hide_banner"@,
        "-y"@,
        "-f"@,
        "rawvideo"@,
        "-pix_fmt"@,
        pix_fmt,
        "-s"@,
        resolution_arg(width, height),
        "-r"@,
        decimal(fps as nat),
        "-i"@,
        "pipe:0"@,
    ]
}

/// The arguments that encode with the configured codec, CRF and preset,
/// in yuv420p, to the configured output file.
pub open spec fn encode_args(config: RecordingConfig) -> Seq<Seq<char>> {
    seq![
        "-c:v"@,
        config.video_codec@,
        "-pix_fmt"@,
        "yuv420p"@,
        "-crf"@,
        decimal(config.crf as nat),
        "-preset"@,
        config.preset@,
        config.output_path@,
    ]
}

fn raw_input(pix_fmt: &str, width: u32, height: u32, fps: u32) -> (c: FfmpegCommand)
    ensures
        c@ == raw_input_args(pix_fmt@, width, height, fps),
{
    let c = FfmpegCommand::new().overwrite().arg("-f").arg("rawvideo").pixel_format(pix_fmt)
        .resolution(width, height).framerate(fps).input_pipe();
    assert(c@ =~= raw_input_args(pix_fmt@, width, height, fps));
    c
}

fn encode(c: FfmpegCommand, config: &RecordingConfig) -> (r: Vec<String>)
    ensures
        string_views(r@) == c@ + encode_args(*config),
{
    let d = c.arg("-c:v").arg(config.video_codec.as_str()).pixel_format("yuv420p").crf(
        config.crf,
    ).preset(config.preset.as_str()).output(config.output_path.as_str());
    assert(d@ =~= c@ + encode_args(*config));
    d.build()
}

/// The FFmpeg arguments of the frame-by-frame capture pipeline: raw RGBA
/// frames of the probe frame's size on standard input, encoded as
/// configured.
pub fn capture_loop_args(config: &RecordingConfig, width: u32, height: u32) -> (args: Vec<String>)
    ensures
        string_views(args@) == raw_input_args("rgba"@, width, height, config.fps) + encode_args(
            *config,
        ),
{
    encode(raw_input("rgba", width, height, config.fps), config)
}

/// The `crop` filter that cuts a region out of the full monitor stream:
/// even width and height, negative offsets clamped to 0.
pub open spec fn spec_region_crop_filter(r: RegionSource) -> Seq<char> {
    "crop="@ + decimal((r.width & !1u32) as nat) + ":"@ + decimal((r.height & !1u32) as nat)
        + ":"@ + decimal(clamp_origin(r.x) as nat) + ":"@ + decimal(clamp_origin(r.y) as nat)
}

/// The cropped width and height are even (as libx264 requires) and do not
/// exceed the region's.
pub proof fn lemma_crop_even(r: RegionSource)
    ensures
        (r.width & !1u32) % 2 == 0,
        (r.height & !1u32) % 2 == 0,
        (r.width & !1u32) <= r.width,
        (r.width & !1u32) + 1 >= r.width,
        (r.height & !1u32) <= r.height,
        (r.height & !1u32) + 1 >= r.height,
{
    let w = r.width;
    let h = r.height;
    assert((w & !1u32) % 2 == 0 && (w & !1u32) <= w && (w & !1u32) + 1 >= w) by (bit_vector);
    assert((h & !1u32) % 2 == 0 && (h & !1u32) <= h && (h & !1u32) + 1 >= h) by (bit_vector);
}

/// The `crop` filter for a region (see `spec_region_crop_filter`).
pub fn region_crop_filter(r: &RegionSource) -> (f: String)
    ensures
        f@ == spec_region_crop_filter(*r),
{
    let cx: u32 = if r.x < 0 {
        0
    } else {
        r.x as u32
    };
    let cy: u32 = if r.y < 0 {
        0
    } else {
        r.y as u32
    };
    let mut f = String::from_str("crop=");
    push_decimal(&mut f, (r.width & !1u32) as u64);
    push_str(&mut f, ":");
    push_decimal(&mut f, (r.height & !1u32) as u64);
    push_str(&mut f, ":");
    push_decimal(&mut f, cx as u64);
    push_str(&mut f, ":");
    push_decimal(&mut f, cy as u64);
    f
}

/// The filter arguments of the portal pipeline: a region is cropped out of
/// the monitor stream.
pub open spec fn portal_filter_args(source: CaptureSource) -> Seq<Seq<char>> {
    match source {
        CaptureSource::Region(r) => seq!["-vf"@, spec_region_crop_filter(r)],
        _ => seq![],
    }
}

/// The FFmpeg arguments of the portal (PipeWire) pipeline: raw BGRA frames
/// of the first frame's size on standard input, a region cropped out of
/// the monitor stream, encoded as configured.
pub fn portal_capture_args(config: &RecordingConfig, width: u32, height: u32) -> (args: Vec<
    String,
>)
    ensures
        string_views(args@) == raw_input_args("bgra"@, width, height, config.fps)
            + portal_filter_args(config.source) + encode_args(*config),
{
    let c = raw_input("bgra", width, height, config.fps);
    let ghost base = c@;
    let c = match &config.source {
        CaptureSource::Region(r) => {
            let f = region_crop_filter(r);
            c.video_filter(f.as_str())
        },
        _ => c,
    };
    assert(c@ =~= base + portal_filter_args(config.source));
    let args = encode(c, config);
    assert(string_views(args@) =~= raw_input_args("bgra"@, width, height, config.fps)
        + portal_filter_args(config.source) + encode_args(*config));
    args
}

/// The FFmpeg arguments that mux a recording's video and microphone audio
/// into `muxed`, copying both streams.
pub fn mux_args(video: &str, audio: &str, muxed: &str) -> (args: Vec<String>)
    ensures
        string_views(args@) == seq![
            "-y"@,
            "-i"@,
            video@,
            "-i"@,
            audio@,
            "-c"@,
            "copy"@,
            muxed@,
        ],
{
    let mut args: Vec<String> = Vec::new();
    args.push(String::from_str("-y"));
    args.push(String::from_str("-i"));
    args.push(String::from_str(video));
    args.push(String::from_str("-i"));
    args.push(String::from_str(audio));
    args.push(String::from_str("-c"));
    args.push(String::from_str("copy"));
    args.push(String::from_str(muxed));
    assert(string_views(args@) =~= seq![
        "-y"@,
        "-i"@,
        video@,
        "-i"@,
        audio@,
        "-c"@,
        "copy"@,
        muxed@,
    ]);
    args
}

// ---------------------------------------------------------------------------
// PipeWire buffers
// ---------------------------------------------------------------------------
/// Rows `0..rows` of a strided buffer, `row_bytes` each, rows `stride`
/// bytes apart; a row that runs past the buffer is left out.
pub open spec fn packed_rows(slice: Seq<u8>, row_bytes: nat, stride: nat, rows: nat) -> Seq<u8>
    decreases rows,
{
    if rows == 0 {
        seq![]
    } else {
        let prev = packed_rows(slice, row_bytes, stride, (rows - 1) as nat);
        let start = (rows - 1) * stride;
        if start + row_bytes <= slice.len() {
            prev + slice.subrange(start as int, start + row_bytes)
        } else {
            prev
        }
    }
}

/// The pixels of a `w` by `h` frame of 4-byte pixels in a buffer whose
/// rows are `stride` bytes apart: a buffer without row padding (stride
/// `w * 4` as an `i32`, or 0) is taken whole up to `w * h * 4` bytes, a
/// padded one row by row without the padding.
pub open spec fn spec_pack_frame(slice: Seq<u8>, w: u32, h: u32, stride: i32) -> Seq<u8> {
    if stride == (w * 4) as i32 || stride == 0 {
        if w * h * 4 <= slice.len() {
            slice.take(w * h * 4)
        } else {
            slice
        }
    } else {
        packed_rows(slice, w as nat * 4, stride as nat, h as nat)
    }
}

/// The frame's byte count fits a `u32`, and a padded buffer's stride is
/// not negative.
pub open spec fn pack_fits(w: u32, h: u32, stride: i32) -> bool {
    &&& w * 4 <= u32::MAX
    &&& w * h * 4 <= u32::MAX
    &&& (stride >= 0 || stride == (w * 4) as i32)
}

/// Copy a frame's pixels out of a PipeWire buffer, dropping row padding.
pub fn pack_frame(slice: &[u8], w: u32, h: u32, stride: i32) -> (out: Vec<u8>)
    requires
        pack_fits(w, h, stride),
    ensures
        out@ == spec_pack_frame(slice@, w, h, stride),
{
    let ghost s = slice@;
    if h == 0 || w == 0 {
        assert(w * h * 4 == 0) by (nonlinear_arith)
            requires
                h == 0 || w == 0,
        ;
    }
    let row_bytes: u64 = (w as u64) * 4;
    let w4: u32 = w * 4;
    let expected_stride: i32 = w4 as i32;
    assert(expected_stride == (w * 4) as i32) by (bit_vector)
        requires
            expected_stride == w4 as i32,
            w4 == w * 4,
    ;
    if stride == expected_stride || stride == 0 {
        let expected_size: u64 = (w as u64) * (h as u64) * 4;
        let n: usize = if expected_size <= slice.len() as u64 {
            expected_size as usize
        } else {
            slice.len()
        };
        let mut out: Vec<u8> = Vec::new();
        append_range(&mut out, slice, 0, n);
        assert(out@ =~= spec_pack_frame(s, w, h, stride));
        out
    } else {
        let stride_bytes: u64 = stride as u64;
        let mut out: Vec<u8> = Vec::new();
        let mut row: u32 = 0;
        while row < h
            invariant
                row <= h,
                stride >= 0,
                stride_bytes == stride,
                row_bytes == w * 4,
                w * h * 4 <= u32::MAX,
                s == slice@,
                out@ == packed_rows(s, w as nat * 4, stride as nat, row as nat),
            decreases h - row,
        {
            assert((row as int) * (stride_bytes as int) <= 0xffff_ffff * 0x7fff_ffff) by (
            nonlinear_arith)
                requires
                    row <= 0xffff_ffff,
                    stride_bytes <= 0x7fff_ffff,
            ;
            let start: u64 = (row as u64) * stride_bytes;
            let end: u64 = start + row_bytes;
            if end <= slice.len() as u64 {
                append_range(&mut out, slice, start as usize, end as usize);
            }
            row = row + 1;
            assert(out@ =~= packed_rows(s, w as nat * 4, stride as nat, row as nat));
        }
        out
    }
}

/// Rows that all lie inside the buffer give `rows * row_bytes` bytes.
pub proof fn lemma_packed_rows_len(slice: Seq<u8>, row_bytes: nat, stride: nat, rows: nat)
    requires
        rows == 0 || (rows - 1) * stride + row_bytes <= slice.len(),
    ensures
        packed_rows(slice, row_bytes, stride, rows).len() == rows * row_bytes,
    decreases rows,
{
    if rows > 0 {
        let m = (rows - 1) as nat;
        if m > 0 {
            assert((m - 1) * stride <= m * stride) by (nonlinear_arith);
        }
        lemma_packed_rows_len(slice, row_bytes, stride, m);
        assert(rows * row_bytes == m * row_bytes + row_bytes) by (nonlinear_arith)
            requires
                m == rows - 1,
        ;
    } else {
        assert(rows * row_bytes == 0) by (nonlinear_arith)
            requires
                rows == 0,
        ;
    }
}

/// A buffer that holds the whole frame gives exactly the frame's
/// `w * h * 4` bytes, padded or not: row padding is dropped.
pub proof fn lemma_pack_whole_frame(slice: Seq<u8>, w: u32, h: u32, stride: i32)
    requires
        h > 0,
        stride == (w * 4) as i32 || stride == 0 ==> w * h * 4 <= slice.len(),
        !(stride == (w * 4) as i32 || stride == 0) ==> stride >= 0 && (h - 1) * stride + w * 4
            <= slice.len(),
    ensures
        spec_pack_frame(slice, w, h, stride).len() == w * h * 4,
{
    if !(stride == (w * 4) as i32 || stride == 0) {
        lemma_packed_rows_len(slice, w as nat * 4, stride as nat, h as nat);
        assert(h as nat * (w as nat * 4) == w * h * 4) by (nonlinear_arith);
    }
}

/// A frame taken from a PipeWire buffer.
pub struct StreamFrame {
    pub data: Vec<u8>,
    pub width: u32,
    pub height: u32,
}

/// The frame size used for a buffer of the persistent capture stream: the
/// negotiated one, or, while that is unknown and the buffer has a stride,
/// the one its stride and byte count imply.
pub open spec fn stream_dims(neg_w: Option<u32>, neg_h: Option<u32>, size: u32, stride: i32) -> (
    u32,
    u32,
) {
    let w = match neg_w {
        Some(v) => v,
        None => 0,
    };
    let h = match neg_h {
        Some(v) => v,
        None => 0,
    };
    if (w == 0 || h == 0) && stride > 0 {
        ((stride / 4) as u32, size / (stride as u32))
    } else {
        (w, h)
    }
}

/// Whether packing a buffer of the persistent stream stays within the
/// machine's integers.
pub open spec fn stream_buffer_fits(neg_w: Option<u32>, neg_h: Option<u32>, size: u32, stride: i32) -> bool {
    let (w, h) = stream_dims(neg_w, neg_h, size, stride);
    (w > 0 && h > 0) ==> pack_fits(w, h, stride)
}

/// Whether packing a buffer of the persistent stream stays within the
/// machine's integers (see `stream_buffer_fits`).
pub fn check_stream_buffer(neg_w: Option<u32>, neg_h: Option<u32>, size: u32, stride: i32) -> (r: bool)
    ensures
        r == stream_buffer_fits(neg_w, neg_h, size, stride),
{
    let (w, h) = frame_dims(neg_w, neg_h, size, stride);
    if w == 0 || h == 0 {
        return true;
    }
    assert((w as int) * (h as int) <= 0xffff_ffff * 0xffff_ffff) by (nonlinear_arith)
        requires w <= 0xffff_ffff, h <= 0xffff_ffff;
    let bytes: u64 = (w as u64) * (h as u64);
    if bytes > 0x3fff_ffff {
        assert(w * h * 4 > u32::MAX);
        return false;
    }
    assert(w <= w * h) by (nonlinear_arith)
        requires h >= 1;
    let w4: u32 = w * 4;
    let expected: i32 = w4 as i32;
    assert(expected == (w * 4) as i32) by (bit_vector)
        requires
            expected == w4 as i32,
            w4 == w * 4,
    ;
    stride >= 0 || stride == expected
}

fn frame_dims(neg_w: Option<u32>, neg_h: Option<u32>, size: u32, stride: i32) -> (r: (u32, u32))
    ensures
        r == stream_dims(neg_w, neg_h, size, stride),
{
    let w = match neg_w {
        Some(v) => v,
        None => 0,
    };
    let h = match neg_h {
        Some(v) => v,
        None => 0,
    };
    if (w == 0 || h == 0) && stride > 0 {
        ((stride / 4) as u32, size / (stride as u32))
    } else {
        (w, h)
    }
}

/// What a buffer of the persistent capture stream changes: the frame size
/// learnt from it, and the RGBA frame it carries.
pub struct StreamUpdate {
    pub width: Option<u32>,
    pub height: Option<u32>,
    pub frame: Option<StreamFrame>,
}

/// Handle a buffer of the persistent capture stream (with its chunk's byte
/// count and stride, and its mapped data if any), given the frame size
/// negotiated so far: an empty chunk or unmapped data changes nothing; a
/// size derived from the buffer is kept; a frame of known size is packed
/// and converted from BGRA to RGBA.
pub fn receive_stream_buffer(
    neg_w: Option<u32>,
    neg_h: Option<u32>,
    size: u32,
    stride: i32,
    data: Option<&[u8]>,
) -> (r: StreamUpdate)
    requires
        stream_buffer_fits(neg_w, neg_h, size, stride),
    ensures
        ({
            let (w, h) = stream_dims(neg_w, neg_h, size, stride);
            let derived = match (neg_w, neg_h) {
                (Some(a), Some(b)) => (a == 0 || b == 0) && stride > 0,
                _ => stride > 0,
            };
            if size == 0 || data is None {
                r.width == neg_w && r.height == neg_h && r.frame is None
            } else {
                &&& (derived && w > 0 && h > 0) ==> r.width == Some(w) && r.height == Some(h)
                &&& !(derived && w > 0 && h > 0) ==> r.width == neg_w && r.height == neg_h
                &&& (w == 0 || h == 0) ==> r.frame is None
                &&& (w > 0 && h > 0) ==> (r.frame matches Some(f) && f.width == w && f.height == h
                    && f.data@ == Seq::new(
                    spec_pack_frame(data->0@, w, h, stride).len(),
                    |k: int| bgra_byte(spec_pack_frame(data->0@, w, h, stride), k),
                ))
            }
        }),
{
    if size == 0 {
        return StreamUpdate { width: neg_w, height: neg_h, frame: None };
    }
    let slice = match data {
        Some(d) => d,
        None => {
            return StreamUpdate { width: neg_w, height: neg_h, frame: None };
        },
    };
    let (w, h) = frame_dims(neg_w, neg_h, size, stride);
    let w0 = match neg_w {
        Some(v) => v,
        None => 0,
    };
    let h0 = match neg_h {
        Some(v) => v,
        None => 0,
    };
    let derived = (w0 == 0 || h0 == 0) && stride > 0;
    let (nw, nh) = if derived && w > 0 && h > 0 {
        (Some(w), Some(h))
    } else {
        (neg_w, neg_h)
    };
    if w == 0 || h == 0 {
        return StreamUpdate { width: nw, height: nh, frame: None };
    }
    let raw = pack_frame(slice, w, h, stride);
    let rgba = bgra_to_rgba(raw.as_slice());
    StreamUpdate { width: nw, height: nh, frame: Some(StreamFrame { data: rgba, width: w, height: h }) }
}

/// Handle a buffer of the recording stream: a non-empty chunk of mapped
/// data, once the frame size is known, gives the frame's pixels as they
/// are (BGRA).
pub fn receive_recording_buffer(
    neg_w: Option<u32>,
    neg_h: Option<u32>,
    size: u32,
    stride: i32,
    data: Option<&[u8]>,
) -> (r: Option<StreamFrame>)
    requires
        ({
            let w = match neg_w {
                Some(v) => v,
                None => 0,
            };
            let h = match neg_h {
                Some(v) => v,
                None => 0,
            };
            (w > 0 && h > 0) ==> pack_fits(w, h, stride)
        }),
    ensures
        ({
            let w = match neg_w {
                Some(v) => v,
                None => 0,
            };
            let h = match neg_h {
                Some(v) => v,
                None => 0,
            };
            if size == 0 || data is None || w == 0 || h == 0 {
                r is None
            } else {
                r matches Some(f) && f.width == w && f.height == h && f.data@ == spec_pack_frame(
                    data->0@,
                    w,
                    h,
                    stride,
                )
            }
        }),
{
    if size == 0 {
        return None;
    }
    let slice = match data {
        Some(d) => d,
        None => {
            return None;
        },
    };
    let w = match neg_w {
        Some(v) => v,
        None => 0,
    };
    let h = match neg_h {
        Some(v) => v,
        None => 0,
    };
    if w > 0 && h > 0 {
        Some(StreamFrame { data: pack_frame(slice, w, h, stride), width: w, height: h })
    } else {
        None
    }
}

// ---------------------------------------------------------------------------
// The capture loop
// ---------------------------------------------------------------------------
/// What happened in one turn of a capture loop.
#[derive(Debug, Clone, Copy, PartialEq, Eq, Structural)]
pub enum LoopEvent {
    /// The first frame, which fixed the encoder's frame size, was written to
    /// FFmpeg (`true`) or its write failed.
    FirstFrame(bool),
    /// The recording is paused; a frame that arrived meanwhile is dropped.
    Paused,
    /// Capturing a frame failed; the frame is skipped.
    CaptureFailed,
    /// No new frame was ready.
    NoFrame,
    /// A frame was written to FFmpeg (`true`) or its write failed.
    Frame(bool),
}

/// What a capture loop does after a turn.
#[derive(Debug, Clone, Copy, PartialEq, Eq, Structural)]
pub enum LoopAction {
    /// Go straight on to the next turn.
    Continue,
    /// Sleep 50 ms while paused, then go on.
    WaitPaused,
    /// Sleep one frame period, then go on.
    WaitFrame,
    /// Sleep out what remains of the frame period, then go on.
    Pace,
    /// Stop capturing, close FFmpeg's input and wait for it.
    Stop,
}

/// Whether an event is a frame written to FFmpeg.
pub open spec fn is_write(e: LoopEvent) -> bool {
    e == LoopEvent::FirstFrame(true) || e == LoopEvent::Frame(true)
}

/// One turn: the frames written so far and whether the loop stopped, after
/// the event, and what the loop does next.
pub open spec fn loop_step(frames: nat, stopped: bool, e: LoopEvent) -> (nat, bool, LoopAction) {
    match e {
        LoopEvent::FirstFrame(true) => (frames + 1, stopped, LoopAction::Continue),
        LoopEvent::FirstFrame(false) => (frames, true, LoopAction::Stop),
        LoopEvent::Paused => (frames, stopped, LoopAction::WaitPaused),
        LoopEvent::CaptureFailed => (frames, stopped, LoopAction::WaitFrame),
        LoopEvent::NoFrame => (frames, stopped, LoopAction::Pace),
        LoopEvent::Frame(true) => (frames + 1, stopped, LoopAction::Pace),
        LoopEvent::Frame(false) => (frames, true, LoopAction::Stop),
    }
}

/// The frames written and whether the loop stopped, after a run of events
/// from the start.
pub open spec fn replay(events: Seq<LoopEvent>) -> (nat, bool)
    decreases events.len(),
{
    if events.len() == 0 {
        (0, false)
    } else {
        let (f, s) = replay(events.drop_last());
        let (f2, s2, _) = loop_step(f, s, events.last());
        (f2, s2)
    }
}

/// How many of the events are frames written to FFmpeg.
pub open spec fn writes(events: Seq<LoopEvent>) -> nat
    decreases events.len(),
{
    if events.len() == 0 {
        0
    } else {
        writes(events.drop_last()) + if is_write(events.last()) {
            1nat
        } else {
            0nat
        }
    }
}

/// A capture loop counts exactly the frames it wrote to FFmpeg, and it has
/// stopped exactly when a write failed.
pub proof fn lemma_loop_counts_writes(events: Seq<LoopEvent>)
    ensures
        replay(events).0 == writes(events),
        replay(events).1 == exists|i: int|
            0 <= i < events.len() && (#[trigger] events[i] == LoopEvent::FirstFrame(false)
                || events[i] == LoopEvent::Frame(false)),
    decreases events.len(),
{
    if events.len() > 0 {
        let prev = events.drop_last();
        lemma_loop_counts_writes(prev);
        let n = events.len() - 1;
        if replay(prev).1 {
            let i = choose|i: int|
                0 <= i < prev.len() && (#[trigger] prev[i] == LoopEvent::FirstFrame(false)
                    || prev[i] == LoopEvent::Frame(false));
            assert(events[i] == prev[i]);
        }
        if replay(events).1 && !replay(prev).1 {
            assert(events[n] == events.last());
        }
        if !replay(events).1 {
            assert forall|i: int| 0 <= i < events.len() implies !(#[trigger] events[i]
                == LoopEvent::FirstFrame(false) || events[i] == LoopEvent::Frame(false)) by {
                if i < n {
                    assert(events[i] == prev[i]);
                }
            }
        }
    }
}

/// The state of a capture loop: the frames written to FFmpeg so far, and
/// whether it stopped because a write failed.
pub struct CaptureLoop {
    frames_captured: u64,
    stopped: bool,
}

impl CaptureLoop {
    pub closed spec fn spec_frames(&self) -> nat {
        self.frames_captured as nat
    }

    pub closed spec fn spec_stopped(&self) -> bool {
        self.stopped
    }

    /// A loop that has written nothing yet.
    pub fn new() -> (l: Self)
        ensures
            l.spec_frames() == 0,
            !l.spec_stopped(),
    {
        CaptureLoop { frames_captured: 0, stopped: false }
    }

    /// The frames written to FFmpeg so far.
    pub fn frames_captured(&self) -> (r: u64)
        ensures
            r == self.spec_frames(),
    {
        self.frames_captured
    }

    /// Whether the loop stopped because a write to FFmpeg failed.
    pub fn is_stopped(&self) -> (r: bool)
        ensures
            r == self.spec_stopped(),
    {
        self.stopped
    }

    /// Take one turn's event and say what the loop does next.
    pub fn step(&mut self, e: LoopEvent) -> (a: LoopAction)
        requires
            is_write(e) ==> old(self).spec_frames() < u64::MAX,
        ensures
            ({
                let (f, s, act) = loop_step(old(self).spec_frames(), old(self).spec_stopped(), e);
                final(self).spec_frames() == f && final(self).spec_stopped() == s && a == act
            }),
    {
        match e {
            LoopEvent::FirstFrame(true) => {
                self.frames_captured = self.frames_captured + 1;
                LoopAction::Continue
            },
            LoopEvent::FirstFrame(false) => {
                self.stopped = true;
                LoopAction::Stop
            },
            LoopEvent::Paused => LoopAction::WaitPaused,
            LoopEvent::CaptureFailed => LoopAction::WaitFrame,
            LoopEvent::NoFrame => LoopAction::Pace,
            LoopEvent::Frame(true) => {
                self.frames_captured = self.frames_captured + 1;
                LoopAction::Pace
            },
            LoopEvent::Frame(false) => {
                self.stopped = true;
                LoopAction::Stop
            },
        }
    }
}

// ---------------------------------------------------------------------------
// Starting a session from the C interface
// ---------------------------------------------------------------------------
/// The recording configuration that the C interface's fields describe.
/// An empty codec means "libx264", an empty preset "fast", an empty
/// microphone device the default device.
pub open spec fn config_from_c(
    source: CaptureSource,
    fps: u32,
    crf: u8,
    output_path: Seq<char>,
    video_codec: Seq<char>,
    preset: Seq<char>,
    capture_microphone: bool,
    microphone_device: Seq<char>,
    c: RecordingConfig,
) -> bool {
    &&& c.source == source
    &&& c.fps == fps
    &&& c.crf == crf
    &&& c.output_path@ == output_path
    &&& c.video_codec@ == (if video_codec.len() == 0 {
        "libx264"@
    } else {
        video_codec
    })
    &&& c.preset@ == (if preset.len() == 0 {
        "fast"@
    } else {
        preset
    })
    &&& c.capture_microphone == capture_microphone
    &&& (if microphone_device.len() == 0 {
        c.microphone_device is None
    } else {
        c.microphone_device matches Some(d) && d@ == microphone_device
    })
}

/// The law of a configuration built from the C interface: it records
/// from the source, at the rate, quality and path given; it captures the
/// microphone exactly when asked to, whatever the device name (an empty
/// name only means the default device, `None`); an empty codec is libx264
/// and an empty preset "fast".
pub proof fn lemma_config_from_c(
    source: CaptureSource,
    fps: u32,
    crf: u8,
    output_path: Seq<char>,
    video_codec: Seq<char>,
    preset: Seq<char>,
    capture_microphone: bool,
    microphone_device: Seq<char>,
    c: RecordingConfig,
)
    requires
        config_from_c(
            source,
            fps,
            crf,
            output_path,
            video_codec,
            preset,
            capture_microphone,
            microphone_device,
            c,
        ),
    ensures
        c.capture_microphone == capture_microphone,
        c.source == source,
        c.fps == fps,
        c.crf == crf,
        c.output_path@ == output_path,
        microphone_device.len() == 0 ==> c.microphone_device is None,
        microphone_device.len() > 0 ==> (c.microphone_device matches Some(d) && d@
            == microphone_device),
        video_codec.len() == 0 ==> c.video_codec@ == "libx264"@,
        video_codec.len() > 0 ==> c.video_codec@ == video_codec,
        preset.len() == 0 ==> c.preset@ == "fast"@,
        preset.len() > 0 ==> c.preset@ == preset,
{
}

/// The configuration of a recording session started through the C
/// interface. Fails when the source description is invalid, then when the
/// output path is empty.
pub fn recording_config_from_c(
    source: &SDCaptureSource,
    fps: u32,
    crf: u8,
    output_path: String,
    video_codec: String,
    preset: String,
    capture_microphone: bool,
    microphone_device: String,
) -> (r: AppResult<RecordingConfig>)
    ensures
        match spec_source_of(*source) {
            None => r matches Err(AppError::Capture(m)) && m@ == invalid_source_type_message(
                source.source_type,
            ),
            Some(src) => if output_path@.len() == 0 {
                r matches Err(AppError::Capture(m)) && m@ == "output_path is empty"@
            } else {
                r matches Ok(c) && config_from_c(
                    src,
                    fps,
                    crf,
                    output_path@,
                    video_codec@,
                    preset@,
                    capture_microphone,
                    microphone_device@,
                    c,
                )
            },
        },
        r matches Ok(c) ==> c.capture_microphone == capture_microphone && c.fps == fps && c.crf
            == crf,
{
    let src = match source.to_domain() {
        Ok(s) => s,
        Err(e) => return Err(e),
    };
    if output_path.as_str().unicode_len() == 0 {
        return Err(AppError::Capture(String::from_str("output_path is empty")));
    }
    let video_codec = if video_codec.as_str().unicode_len() == 0 {
        String::from_str("libx264")
    } else {
        video_codec
    };
    let preset = if preset.as_str().unicode_len() == 0 {
        String::from_str("fast")
    } else {
        preset
    };
    let microphone_device = if microphone_device.as_str().unicode_len() == 0 {
        None
    } else {
        Some(microphone_device)
    };
    Ok(
        RecordingConfig {
            source: src,
            fps,
            video_codec,
            crf,
            preset,
            output_path,
            capture_microphone,
            microphone_device,
        },
    )
}

// ---------------------------------------------------------------------------
// The desktop application's recording session
// ---------------------------------------------------------------------------
/// The recording in progress, if any, of the desktop application: at most
/// one at a time.
pub struct ActiveRecording<T> {
    current: Option<T>,
}

impl<T> ActiveRecording<T> {
    /// The recording in progress.
    pub closed spec fn spec_current(&self) -> Option<T> {
        self.current
    }

    /// No recording in progress.
    pub fn new() -> (s: Self)
        ensures
            s.spec_current() is None,
    {
        ActiveRecording { current: None }
    }

    /// Whether a new recording may start: not while one is in progress.
    pub fn check_idle(&self) -> (r: AppResult<()>)
        ensures
            self.spec_current() is None ==> r is Ok,
            self.spec_current() is Some ==> (r matches Err(AppError::Capture(m)) && m@
                == "A recording is already in progress. Stop it first."@),
    {
        match &self.current {
            None => Ok(()),
            Some(_) => Err(
                AppError::Capture(
                    String::from_str("A recording is already in progress. Stop it first."),
                ),
            ),
        }
    }

    /// Keep a recording that has started.
    pub fn store(&mut self, rec: T)
        requires
            old(self).spec_current() is None,
        ensures
            final(self).spec_current() == Some(rec),
    {
        self.current = Some(rec);
    }

    /// The recording in progress, to pause or resume it.
    pub fn current(&self) -> (r: AppResult<&T>)
        ensures
            match self.spec_current() {
                Some(t) => r matches Ok(x) && *x == t,
                None => r matches Err(AppError::Capture(m)) && m@ == "No recording in progress"@,
            },
    {
        match &self.current {
            Some(t) => Ok(t),
            None => Err(AppError::Capture(String::from_str("No recording in progress"))),
        }
    }

    /// Take the recording in progress out, to stop it.
    pub fn take(&mut self) -> (r: AppResult<T>)
        ensures
            match old(self).spec_current() {
                Some(t) => r == Ok::<T, AppError>(t),
                None => r matches Err(AppError::Capture(m)) && m@ == "No recording in progress"@,
            },
            final(self).spec_current() is None,
    {
        match self.current.take() {
            Some(t) => Ok(t),
            None => Err(AppError::Capture(String::from_str("No recording in progress"))),
        }
    }
}

/// The file the desktop application records microphone audio to: the
/// video's path with the extension "wav".
pub fn audio_path_for(video: &str) -> (r: String)
    ensures
        r@ == crate::paths::path_with_extension(video@, "wav"@),
{
    proof {
        reveal_strlit("wav");
        assert(!"wav"@.contains('/'));
        assert(!"wav"@.contains('\\'));
    }
    crate::paths::with_extension(video, "wav")
}

/// The file the desktop application muxes into: beside the video, named
/// `<stem>_final.<ext>` (an absent stem or extension as empty).
pub fn final_output_path(video: &str) -> (r: String)
    ensures
        r@ == crate::paths::path_with_file_name(
            video@,
            match crate::paths::path_file_stem(video@) {
                Some(s) => s,
                None => Seq::<char>::empty(),
            } + "_final."@ + match crate::paths::path_extension(video@) {
                Some(e) => e,
                None => Seq::<char>::empty(),
            },
        ),
{
    let mut name = match crate::paths::file_stem(video) {
        Some(s) => s,
        None => String::new(),
    };
    push_str(&mut name, "_final.");
    match crate::paths::extension(video) {
        Some(e) => push_str(&mut name, e.as_str()),
        None => {},
    }
    crate::paths::with_file_name(video, name.as_str())
}

/// The FFmpeg arguments that mux the desktop application's video and audio
/// into `output`: the video copied, the audio encoded as 192 kb/s AAC, cut
/// to the shorter stream.
pub fn final_mux_args(video: &str, audio: &str, output: &str) -> (args: Vec<String>)
    ensures
        string_views(args@) == seq![
            "-hide_banner"@,
            "-y"@,
            "-i"@,
            video@,
            "-i"@,
            audio@,
            "-c:v"@,
            "copy"@,
            "-c:a"@,
            "aac"@,
            "-b:a"@,
            "192k"@,
            "-shortest"@,
            output@,
        ],
{
    let c = FfmpegCommand::new().overwrite().input(video).input(audio).arg("-c:v").arg("copy")
        .arg("-c:a").arg("aac").arg("-b:a").arg("192k").arg("-shortest").output(output);
    let args = c.build();
    assert(string_views(args@) =~= seq![
        "-hide_banner"@,
        "-y"@,
        "-i"@,
        video@,
        "-i"@,
        audio@,
        "-c:v"@,
        "copy"@,
        "-c:a"@,
        "aac"@,
        "-b:a"@,
        "192k"@,
        "-shortest"@,
        output@,
    ]);
    args
}

/// The error of a mux that FFmpeg failed: the last line of its standard
/// error, or "unknown" when it wrote none.
pub fn mux_failure(stderr: &str) -> (e: AppError)
    ensures
        e matches AppError::FfmpegExecution(m) && m@ == "Audio/video mux failed: "@ + (if lines_spec(
            stderr@,
        ).len() > 0 {
            lines_spec(stderr@).last()
        } else {
            "unknown"@
        }),
{
    let text = chars_of(stderr);
    let ls = lines(text.as_slice());
    let mut m = String::from_str("Audio/video mux failed: ");
    if ls.len() > 0 {
        proof {
            assert(ls@[ls@.len() - 1]@ == views(ls@)[ls@.len() - 1]);
        }
        push_str(&mut m, string_of(ls[ls.len() - 1].as_slice()).as_str());
    } else {
        push_str(&mut m, "unknown");
    }
    AppError::FfmpegExecution(m)
}

/// What stopping a recording pipeline gives, from whether its capture
/// thread was still there and how joining it went (`None` when it
/// panicked): the thread's result, or the message of the error, worded
/// for the portal pipeline when `portal` holds.
pub fn stop_outcome<T>(joined: Option<Option<AppResult<T>>>, portal: bool) -> (r: AppResult<T>)
    ensures
        match joined {
            Some(Some(res)) => r == res,
            Some(None) => r matches Err(AppError::Capture(m)) && m@ == (if portal {
                "Portal recording thread panicked"@
            } else {
                "Recording thread panicked"@
            }),
            None => r matches Err(AppError::Capture(m)) && m@ == (if portal {
                "Portal recording pipeline was already stopped"@
            } else {
                "Recording pipeline was already stopped"@
            }),
        },
{
    match joined {
        Some(Some(res)) => res,
        Some(None) => Err(
            AppError::Capture(
                if portal {
                    String::from_str("Portal recording thread panicked")
                } else {
                    String::from_str("Recording thread panicked")
                },
            ),
        ),
        None => Err(
            AppError::Capture(
                if portal {
                    String::from_str("Portal recording pipeline was already stopped")
                } else {
                    String::from_str("Recording pipeline was already stopped")
                },
            ),
        ),
    }
}

} // verus!
