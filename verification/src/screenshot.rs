//! Screenshots: the file format chosen by extension, frames encoded as
//! base64 PNG, cropping with the `image` crate, and the decisions of the
//! xcap capture backend.
use vstd::prelude::*;

use crate::capture::{clamp_extent, clamp_origin, crop_rows, CapturedFrame, RegionSource};
use crate::error::{AppError, AppResult};
use crate::paths::{extension, path_extension};
use crate::platform::{DisplayServer, PlatformInfo};
use crate::text::{chars_of, chars_eq, decimal, lowercase, push_decimal, push_str, to_lowercase};

verus! {

// ---------------------------------------------------------------------------
// Output format
// ---------------------------------------------------------------------------
/// Supported screenshot output formats.
#[derive(Debug, Clone, Copy, PartialEq, Eq, Structural)]
pub enum ScreenshotFormat {
    Png,
    Jpeg,
    WebP,
}

/// The format that a lowercased file extension names.
pub open spec fn format_of_extension(ext: Seq<char>) -> Option<ScreenshotFormat> {
    if ext == "png"@ {
        Some(ScreenshotFormat::Png)
    } else if ext == "jpg"@ || ext == "jpeg"@ {
        Some(ScreenshotFormat::Jpeg)
    } else if ext == "webp"@ {
        Some(ScreenshotFormat::WebP)
    } else {
        None
    }
}

/// The format of a screenshot file, by its path's extension in any case.
pub open spec fn spec_from_extension(path: Seq<char>) -> Option<ScreenshotFormat> {
    match path_extension(path) {
        Some(e) => format_of_extension(lowercase(e)),
        None => None,
    }
}

impl ScreenshotFormat {
    /// Determine format from file extension.
    pub fn from_extension(path: &str) -> (r: AppResult<Self>)
        ensures
            match spec_from_extension(path@) {
                Some(f) => r == Ok::<ScreenshotFormat, AppError>(f),
                None => r matches Err(AppError::Capture(m)) && m@
                    == "Unsupported screenshot format. Use .png, .jpg, or .webp"@,
            },
    {
        let found = match extension(path) {
            Some(e) => {
                let lower = chars_of(to_lowercase(e.as_str()).as_str());
                if chars_eq(lower.as_slice(), chars_of("png").as_slice()) {
                    Some(ScreenshotFormat::Png)
                } else if chars_eq(lower.as_slice(), chars_of("jpg").as_slice()) || chars_eq(
                    lower.as_slice(),
                    chars_of("jpeg").as_slice(),
                ) {
                    Some(ScreenshotFormat::Jpeg)
                } else if chars_eq(lower.as_slice(), chars_of("webp").as_slice()) {
                    Some(ScreenshotFormat::WebP)
                } else {
                    None
                }
            },
            None => None,
        };
        match found {
            Some(f) => Ok(f),
            None => Err(
                AppError::Capture(
                    String::from_str("Unsupported screenshot format. Use .png, .jpg, or .webp"),
                ),
            ),
        }
    }
}

// ---------------------------------------------------------------------------
// Images of the `image` crate
// ---------------------------------------------------------------------------
/// Whether `RgbaImage::from_raw` accepts a buffer of `len` bytes for a
/// `width` by `height` image: the byte count `4 * width * height` must be
/// computable in a `usize` and the buffer at least that long.
pub open spec fn image_fits(width: u32, height: u32, len: nat) -> bool {
    &&& 4 * width <= usize::MAX
    &&& 4 * width * height <= usize::MAX
    &&& 4 * width * height <= len
}

/// Whether a buffer of `len` bytes holds a `width` by `height` RGBA image
/// (see `image_fits`).
pub fn check_image_fits(width: u32, height: u32, len: usize) -> (r: bool)
    ensures
        r == image_fits(width, height, len as nat),
{
    assert(4 * (width as int) * (height as int) <= 4 * 0xffff_ffff * 0xffff_ffff) by (
    nonlinear_arith)
        requires
            width <= 0xffff_ffff,
            height <= 0xffff_ffff,
    ;
    let w4: u128 = 4 * (width as u128);
    let n: u128 = w4 * (height as u128);
    w4 <= usize::MAX as u128 && n <= usize::MAX as u128 && n <= len as u128
}

/// What the `image` crate's encoder for `format` writes for an RGBA image:
/// the file's bytes, or the message of the error.
pub uninterp spec fn image_encoding(
    data: Seq<u8>,
    width: u32,
    height: u32,
    format: ScreenshotFormat,
) -> Result<Seq<u8>, Seq<char>>;

/// `RgbaImage::from_raw` and `write_to` with the `ImageFormat` of the
/// screenshot format: the image file's bytes, or the encoder's error message.
#[verifier::external_body]
fn encode_image(width: u32, height: u32, data: Vec<u8>, format: ScreenshotFormat) -> (r: Result<
    Vec<u8>,
    String,
>)
    requires
        image_fits(width, height, data@.len()),
    ensures
        match r {
            Ok(b) => image_encoding(data@, width, height, format) == Ok::<Seq<u8>, Seq<char>>(b@),
            Err(e) => image_encoding(data@, width, height, format) == Err::<Seq<u8>, Seq<char>>(e@),
        },
{
    let image_format = match format {
        ScreenshotFormat::Png => image::ImageFormat::Png,
        ScreenshotFormat::Jpeg => image::ImageFormat::Jpeg,
        ScreenshotFormat::WebP => image::ImageFormat::WebP,
    };
    let img = image::RgbaImage::from_raw(width, height, data).unwrap_or_default();
    let mut out: Vec<u8> = Vec::new();
    match img.write_to(&mut std::io::Cursor::new(&mut out), image_format) {
        Ok(()) => Ok(out),
        Err(e) => Err(e.to_string()),
    }
}

/// The bytes of the screenshot file at `path` in `format`, or the message
/// of the error: the frame's data must hold its image, and the encoder
/// must succeed.
pub open spec fn spec_screenshot_file(
    data: Seq<u8>,
    width: u32,
    height: u32,
    format: ScreenshotFormat,
    path: Seq<char>,
) -> Result<Seq<u8>, Seq<char>> {
    if !image_fits(width, height, data.len()) {
        Err("Failed to create image from captured frame data"@)
    } else {
        match image_encoding(data, width, height, format) {
            Ok(b) => Ok(b),
            Err(e) => Err("Failed to save screenshot to "@ + path + ": "@ + e),
        }
    }
}

/// Encode a captured frame as the screenshot file at `path` in `format`;
/// writing the bytes to the file is left to the caller.
pub fn screenshot_file_bytes(frame: CapturedFrame, format: ScreenshotFormat, path: &str) -> (r:
    AppResult<Vec<u8>>)
    ensures
        match spec_screenshot_file(frame.data@, frame.width, frame.height, format, path@) {
            Ok(b) => r matches Ok(v) && v@ == b,
            Err(m) => r matches Err(AppError::Capture(e)) && e@ == m,
        },
{
    if !check_image_fits(frame.width, frame.height, frame.data.len()) {
        return Err(
            AppError::Capture(String::from_str("Failed to create image from captured frame data")),
        );
    }
    match encode_image(frame.width, frame.height, frame.data, format) {
        Ok(b) => Ok(b),
        Err(e) => {
            let mut m = String::from_str("Failed to save screenshot to ");
            push_str(&mut m, path);
            push_str(&mut m, ": ");
            push_str(&mut m, e.as_str());
            Err(AppError::Capture(m))
        },
    }
}

/// The character of a 6-bit value in the standard base64 alphabet
/// (RFC 4648): `A`-`Z`, `a`-`z`, `0`-`9`, `+`, `/`.
pub open spec fn base64_digit(v: nat) -> char {
    if v < 26 {
        (65 + v) as char
    } else if v < 52 {
        (97 + v - 26) as char
    } else if v < 62 {
        (48 + v - 52) as char
    } else if v == 62 {
        '+'
    } else {
        '/'
    }
}

/// Standard base64 with padding (RFC 4648): each group of three bytes
/// gives four characters; a last group of one or two bytes gives two or
/// three characters and `=` padding up to four.
pub open spec fn base64_standard(d: Seq<u8>) -> Seq<char>
    decreases d.len(),
{
    if d.len() == 0 {
        seq![]
    } else if d.len() == 1 {
        seq![base64_digit(d[0] as nat / 4), base64_digit((d[0] as nat % 4) * 16), '=', '=']
    } else if d.len() == 2 {
        seq![
            base64_digit(d[0] as nat / 4),
            base64_digit((d[0] as nat % 4) * 16 + d[1] as nat / 16),
            base64_digit((d[1] as nat % 16) * 4),
            '=',
        ]
    } else {
        seq![
            base64_digit(d[0] as nat / 4),
            base64_digit((d[0] as nat % 4) * 16 + d[1] as nat / 16),
            base64_digit((d[1] as nat % 16) * 4 + d[2] as nat / 64),
            base64_digit(d[2] as nat % 64),
        ] + base64_standard(d.skip(3))
    }
}

/// `base64::engine::general_purpose::STANDARD.encode`: standard base64
/// with padding.
#[verifier::external_body]
fn encode_base64(data: &[u8]) -> (r: String)
    ensures
        r@ == base64_standard(data@),
{
    base64::Engine::encode(&base64::engine::general_purpose::STANDARD, data)
}

/// A frame as a base64-encoded PNG, or the message of the error: the
/// frame's data must hold its image, and the encoder must succeed.
pub open spec fn spec_base64_png(data: Seq<u8>, width: u32, height: u32) -> Result<Seq<char>, Seq<char>> {
    if !image_fits(width, height, data.len()) {
        Err("Failed to create image from captured frame data"@)
    } else {
        match image_encoding(data, width, height, ScreenshotFormat::Png) {
            Ok(b) => Ok(base64_standard(b)),
            Err(e) => Err("Failed to encode screenshot as PNG: "@ + e),
        }
    }
}

/// Encode a captured frame as a base64 PNG, for the clipboard or the
/// frontend.
pub fn frame_to_base64_png(frame: CapturedFrame) -> (r: AppResult<String>)
    ensures
        match spec_base64_png(frame.data@, frame.width, frame.height) {
            Ok(s) => r matches Ok(t) && t@ == s,
            Err(m) => r matches Err(AppError::Capture(e)) && e@ == m,
        },
{
    if !check_image_fits(frame.width, frame.height, frame.data.len()) {
        return Err(
            AppError::Capture(String::from_str("Failed to create image from captured frame data")),
        );
    }
    match encode_image(frame.width, frame.height, frame.data, ScreenshotFormat::Png) {
        Ok(png) => Ok(encode_base64(png.as_slice())),
        Err(e) => {
            let mut m = String::from_str("Failed to encode screenshot as PNG: ");
            push_str(&mut m, e.as_str());
            Err(AppError::Capture(m))
        },
    }
}

/// `imageops::crop_imm` on the `RgbaImage` of the buffer, made an owned
/// image: the rectangle at `x`, `y` of `cw` by `ch` pixels, row by row.
#[verifier::external_body]
fn crop_rgba8(data: Vec<u8>, width: u32, height: u32, x: u32, y: u32, cw: u32, ch: u32) -> (r: Vec<
    u8,
>)
    requires
        image_fits(width, height, data@.len()),
        x + cw <= width,
        y + ch <= height,
    ensures
        r@ == crop_rows(data@, 4 * width as nat, 4 * x as nat, y as nat, 4 * cw as nat, ch as nat),
{
    match image::RgbaImage::from_raw(width, height, data) {
        Some(img) => image::imageops::crop_imm(&img, x, y, cw, ch).to_image().into_raw(),
        None => Vec::new(),
    }
}

/// The part of a monitor's frame that a region selects, or the message of
/// the error: the frame must hold its image, and the region, clamped to
/// the frame, must not be empty.
pub open spec fn spec_crop_region(data: Seq<u8>, width: u32, height: u32, r: RegionSource) -> Result<
    (Seq<u8>, u32, u32),
    Seq<char>,
> {
    let cx = clamp_origin(r.x);
    let cy = clamp_origin(r.y);
    let cw = clamp_extent(r.width, width, cx);
    let ch = clamp_extent(r.height, height, cy);
    if !image_fits(width, height, data.len()) {
        Err("Failed to reconstruct image from raw data"@)
    } else if cw == 0 || ch == 0 {
        Err("Region selection has zero width or height after clamping"@)
    } else {
        Ok((crop_rows(data, 4 * width as nat, 4 * cx as nat, cy as nat, 4 * cw as nat, ch as nat), cw, ch))
    }
}

fn clamp(x: i32, want: u32, size: u32) -> (r: (u32, u32))
    ensures
        r.0 == clamp_origin(x),
        r.1 == clamp_extent(want, size, clamp_origin(x)),
{
    let c: u32 = if x < 0 {
        0
    } else {
        x as u32
    };
    let e: u32 = if c >= size {
        0
    } else if want <= size - c {
        want
    } else {
        size - c
    };
    (c, e)
}

/// Crop a monitor's frame to a selected region (coordinates clamped to the
/// frame).
pub fn crop_region(frame: CapturedFrame, region: &RegionSource) -> (r: AppResult<CapturedFrame>)
    ensures
        match spec_crop_region(frame.data@, frame.width, frame.height, *region) {
            Ok((d, w, h)) => r matches Ok(f) && f.data@ == d && f.width == w && f.height == h,
            Err(m) => r matches Err(AppError::Capture(e)) && e@ == m,
        },
{
    if !check_image_fits(frame.width, frame.height, frame.data.len()) {
        return Err(AppError::Capture(String::from_str("Failed to reconstruct image from raw data")));
    }
    let (cx, cw) = clamp(region.x, region.width, frame.width);
    let (cy, ch) = clamp(region.y, region.height, frame.height);
    if cw == 0 || ch == 0 {
        return Err(
            AppError::Capture(
                String::from_str("Region selection has zero width or height after clamping"),
            ),
        );
    }
    let data = crop_rgba8(frame.data, frame.width, frame.height, cx, cy, cw, ch);
    Ok(CapturedFrame { data, width: cw, height: ch })
}

/// The part of a screenshot image that a rectangle selects, or the message
/// of the error: the origin, clamped to 0, must lie inside the image, and
/// the extent, clamped to the image, must not be empty.
pub open spec fn spec_crop_image(
    data: Seq<u8>,
    width: u32,
    height: u32,
    x: i32,
    y: i32,
    w: u32,
    h: u32,
) -> Result<(Seq<u8>, u32, u32), Seq<char>> {
    let cx = clamp_origin(x);
    let cy = clamp_origin(y);
    let cw = clamp_extent(w, width, cx);
    let ch = clamp_extent(h, height, cy);
    if cx >= width || cy >= height {
        Err(
            "Crop origin ("@ + decimal(cx as nat) + ", "@ + decimal(cy as nat)
                + ") is outside image bounds ("@ + decimal(width as nat) + "x"@ + decimal(
                height as nat,
            ) + ")"@,
        )
    } else if cw == 0 || ch == 0 {
        Err(
            "Crop region is empty after clamping: "@ + decimal(cw as nat) + "x"@ + decimal(
                ch as nat,
            ) + " at ("@ + decimal(cx as nat) + ", "@ + decimal(cy as nat) + ") in "@ + decimal(
                width as nat,
            ) + "x"@ + decimal(height as nat) + " image"@,
        )
    } else {
        Ok((crop_rows(data, 4 * width as nat, 4 * cx as nat, cy as nat, 4 * cw as nat, ch as nat), cw, ch))
    }
}

/// Crop a screenshot image, loaded as RGBA, to a rectangle (coordinates
/// clamped to the image).
pub fn crop_image(image: CapturedFrame, x: i32, y: i32, w: u32, h: u32) -> (r: AppResult<
    CapturedFrame,
>)
    requires
        4 * image.width * image.height <= image.data@.len(),
    ensures
        match spec_crop_image(image.data@, image.width, image.height, x, y, w, h) {
            Ok((d, cw, ch)) => r matches Ok(f) && f.data@ == d && f.width == cw && f.height == ch,
            Err(m) => r matches Err(AppError::Capture(e)) && e@ == m,
        },
{
    let (cx, cw) = clamp(x, w, image.width);
    let (cy, ch) = clamp(y, h, image.height);
    if cx >= image.width || cy >= image.height {
        let mut m = String::from_str("Crop origin (");
        push_decimal(&mut m, cx as u64);
        push_str(&mut m, ", ");
        push_decimal(&mut m, cy as u64);
        push_str(&mut m, ") is outside image bounds (");
        push_decimal(&mut m, image.width as u64);
        push_str(&mut m, "x");
        push_decimal(&mut m, image.height as u64);
        push_str(&mut m, ")");
        return Err(AppError::Capture(m));
    }
    if cw == 0 || ch == 0 {
        let mut m = String::from_str("Crop region is empty after clamping: ");
        push_decimal(&mut m, cw as u64);
        push_str(&mut m, "x");
        push_decimal(&mut m, ch as u64);
        push_str(&mut m, " at (");
        push_decimal(&mut m, cx as u64);
        push_str(&mut m, ", ");
        push_decimal(&mut m, cy as u64);
        push_str(&mut m, ") in ");
        push_decimal(&mut m, image.width as u64);
        push_str(&mut m, "x");
        push_decimal(&mut m, image.height as u64);
        push_str(&mut m, " image");
        return Err(AppError::Capture(m));
    }
    let len = image.data.len();
    proof {
        let (iw, ih, n) = (image.width as int, image.height as int, len as int);
        assert(4 * iw <= 4 * iw * ih) by (nonlinear_arith)
            requires
                iw >= 1,
                ih >= 1,
        ;
        assert(n <= usize::MAX);
    }
    let data = crop_rgba8(image.data, image.width, image.height, cx, cy, cw, ch);
    Ok(CapturedFrame { data, width: cw, height: ch })
}

/// What the `image` crate decodes the bytes of an image file to, as RGBA:
/// the pixels, width and height, or the message of the error. The format
/// is the one the file's extension names, else the one the bytes show.
pub uninterp spec fn image_decoding(path: Seq<char>, bytes: Seq<u8>) -> Result<
    (Seq<u8>, u32, u32),
    Seq<char>,
>;

/// `ImageReader` on the bytes (with the format of the path's extension,
/// when it names one), `decode`, then `to_rgba8`: the RGBA pixels, which
/// hold the whole image, and its width and height; or the error's text.
#[verifier::external_body]
fn decode_rgba(path: &str, bytes: &[u8]) -> (r: Result<(Vec<u8>, u32, u32), String>)
    ensures
        match r {
            Ok((d, w, h)) => image_decoding(path@, bytes@) == Ok::<(Seq<u8>, u32, u32), Seq<char>>(
                (d@, w, h),
            ) && 4 * w * h <= d@.len(),
            Err(e) => image_decoding(path@, bytes@) == Err::<(Seq<u8>, u32, u32), Seq<char>>(e@),
        },
{
    let cursor = std::io::Cursor::new(bytes);
    let reader = match image::ImageFormat::from_path(path) {
        Ok(format) => image::ImageReader::with_format(cursor, format),
        Err(_) => image::ImageReader::new(cursor),
    };
    match reader.decode() {
        Ok(img) => {
            let rgba = img.to_rgba8();
            let (w, h) = rgba.dimensions();
            Ok((rgba.into_raw(), w, h))
        },
        Err(e) => Err(e.to_string()),
    }
}

/// The message of a screenshot file that could not be read or decoded.
pub open spec fn open_failed_message(path: Seq<char>, m: Seq<char>) -> Seq<char> {
    "Failed to open screenshot PNG '"@ + path + "': "@ + m
}

fn open_failed(path: &str, e: &str) -> (r: AppError)
    ensures
        r matches AppError::Capture(m) && m@ == open_failed_message(path@, e@),
{
    let mut m = String::from_str("Failed to open screenshot PNG '");
    push_str(&mut m, path);
    push_str(&mut m, "': ");
    push_str(&mut m, e);
    AppError::Capture(m)
}

/// Load a PNG file, given its path and bytes, into a frame of RGBA pixels.
pub fn load_png_as_frame(path: &str, bytes: &[u8]) -> (r: AppResult<CapturedFrame>)
    ensures
        match image_decoding(path@, bytes@) {
            Ok((d, w, h)) => r matches Ok(f) && f.data@ == d && f.width == w && f.height == h,
            Err(m) => r matches Err(AppError::Capture(e)) && e@ == open_failed_message(path@, m),
        },
{
    match decode_rgba(path, bytes) {
        Ok((data, width, height)) => Ok(CapturedFrame { data, width, height }),
        Err(e) => Err(open_failed(path, e.as_str())),
    }
}

/// Load a PNG file, given its path and bytes, and crop it to the rectangle
/// (coordinates clamped to the image bounds; see `spec_crop_image`).
pub fn load_png_and_crop(path: &str, bytes: &[u8], x: i32, y: i32, width: u32, height: u32) -> (r:
    AppResult<CapturedFrame>)
    ensures
        match image_decoding(path@, bytes@) {
            Ok((d, w, h)) => match spec_crop_image(d, w, h, x, y, width, height) {
                Ok((c, cw, ch)) => r matches Ok(f) && f.data@ == c && f.width == cw && f.height
                    == ch,
                Err(m) => r matches Err(AppError::Capture(e)) && e@ == m,
            },
            Err(m) => r matches Err(AppError::Capture(e)) && e@ == open_failed_message(path@, m),
        },
{
    match decode_rgba(path, bytes) {
        Ok((data, w, h)) => crop_image(CapturedFrame { data, width: w, height: h }, x, y, width, height),
        Err(e) => Err(open_failed(path, e.as_str())),
    }
}

// ---------------------------------------------------------------------------
// The xcap backend
// ---------------------------------------------------------------------------
/// Capture through the xcap crate. Works on X11, macOS and Windows;
/// Wayland has limited window enumeration.
pub struct XcapCaptureBackend {
    platform: PlatformInfo,
}

impl XcapCaptureBackend {
    pub closed spec fn spec_display_server(&self) -> DisplayServer {
        self.platform.display_server
    }

    pub fn new(platform: PlatformInfo) -> (b: Self)
        ensures
            b.spec_display_server() == platform.display_server,
    {
        XcapCaptureBackend { platform }
    }

    /// Whether windows can be listed: on X11, macOS and Windows, and on
    /// Wayland when XWayland is there (`DISPLAY` set).
    pub fn can_enumerate_windows(&self, display_set: bool) -> (r: bool)
        ensures
            r == match self.spec_display_server() {
                DisplayServer::X11 | DisplayServer::Quartz | DisplayServer::Win32 => true,
                DisplayServer::Wayland => display_set,
                DisplayServer::Unknown => false,
            },
    {
        match self.platform.display_server {
            DisplayServer::X11 => true,
            DisplayServer::Quartz => true,
            DisplayServer::Win32 => true,
            DisplayServer::Wayland => display_set,
            DisplayServer::Unknown => false,
        }
    }

    /// Why windows cannot be listed when `can_enumerate_windows` says no.
    pub fn windows_unavailable_reason(&self) -> (r: String)
        ensures
            self.spec_display_server() == DisplayServer::Wayland ==> r@
                == "Window enumeration is not available on Wayland. Use the system portal picker or select a full screen to capture."@,
            self.spec_display_server() != DisplayServer::Wayland ==> r@
                == "Window enumeration is not supported on this display server."@,
    {
        match self.platform.display_server {
            DisplayServer::Wayland => String::from_str(
                "Window enumeration is not available on Wayland. Use the system portal picker or select a full screen to capture.",
            ),
            _ => String::from_str("Window enumeration is not supported on this display server."),
        }
    }
}

/// Why windows cannot be listed after listing them failed with `e`.
pub fn window_enumeration_failure(e: &AppError) -> (r: String)
    ensures
        r@ == "Window enumeration failed: "@ + e.spec_message(),
{
    let mut r = String::from_str("Window enumeration failed: ");
    push_str(&mut r, e.message().as_str());
    r
}

/// Whether a window that xcap lists is offered: not minimized, and of a
/// non-zero size.
pub fn is_listed_window(is_minimized: bool, width: u32, height: u32) -> (r: bool)
    ensures
        r == (!is_minimized && width != 0 && height != 0),
{
    !(is_minimized || width == 0 || height == 0)
}

} // verus!
