//! xdg-desktop-portal support: the `file://` URIs that the Screenshot portal
//! answers with, its request handles and responses, and the restore token
//! that lets a ScreenCast session skip the picker.
use vstd::prelude::*;

use crate::error::{AppError, AppResult};
use crate::paths::{path_join, path_join_spec};
use crate::text::{
    chars_of, decimal, has_prefix, push_char, push_decimal, push_str, string_of, trim, trim_spec,
};

verus! {

// ---------------------------------------------------------------------------
// file:// URIs
// ---------------------------------------------------------------------------
/// A hexadecimal digit, in either case.
pub open spec fn is_hex(b: u8) -> bool {
    (48 <= b <= 57) || (97 <= b <= 102) || (65 <= b <= 70)
}

pub open spec fn hex_value(b: u8) -> nat {
    if 48 <= b <= 57 {
        (b - 48) as nat
    } else if 97 <= b <= 102 {
        (b - 87) as nat
    } else {
        (b - 55) as nat
    }
}

/// The byte that the two bytes after a `%` give, as `u8::from_str_radix`
/// with radix 16 reads them: two hexadecimal digits, or `+` and one digit.
pub open spec fn escaped_byte(h: u8, l: u8) -> Option<u8> {
    if is_hex(h) && is_hex(l) {
        Some((hex_value(h) * 16 + hex_value(l)) as u8)
    } else if h == 43 && is_hex(l) {
        Some(hex_value(l) as u8)
    } else {
        None
    }
}

/// Percent-decoding of a path's bytes: `%` and two bytes that read as a
/// hexadecimal byte give that byte; an escape that cannot be decoded
/// passes through literally (any other two bytes with their `%`, and a
/// `%` cut short by the end of the bytes with what follows it); every
/// other byte stays as it is.
pub open spec fn percent_decoded(b: Seq<u8>) -> Seq<u8>
    decreases b.len(),
{
    if b.len() == 0 {
        seq![]
    } else if b[0] == 37 {
        if b.len() < 3 {
            b
        } else {
            match escaped_byte(b[1], b[2]) {
                Some(v) => seq![v] + percent_decoded(b.skip(3)),
                None => seq![37u8, b[1], b[2]] + percent_decoded(b.skip(3)),
            }
        }
    } else {
        seq![b[0]] + percent_decoded(b.skip(1))
    }
}

/// Bytes without a `%` decode to themselves.
pub proof fn lemma_decode_plain(b: Seq<u8>)
    requires
        forall|i: int| 0 <= i < b.len() ==> b[i] != 37,
    ensures
        percent_decoded(b) == b,
    decreases b.len(),
{
    if b.len() > 0 {
        let rest = b.skip(1);
        assert forall|i: int| 0 <= i < rest.len() implies rest[i] != 37 by {
            assert(rest[i] == b[i + 1]);
        }
        lemma_decode_plain(rest);
        assert(percent_decoded(b) =~= b);
    } else {
        assert(percent_decoded(b) =~= b);
    }
}

/// A character other than `%` encodes to UTF-8 bytes none of which is `%`:
/// an ASCII character to itself, any other to bytes of 0x80 and up.
proof fn lemma_scalar_no_percent(c: char)
    requires
        c != '%',
    ensures
        forall|i: int|
            0 <= i < vstd::utf8::encode_scalar(c as u32).len()
                ==> #[trigger] vstd::utf8::encode_scalar(c as u32)[i] != 37,
{
    let s = c as u32;
    if vstd::utf8::has_width_1_encoding(s) {
        assert(vstd::utf8::leading_byte_width_1(s) == s) by (bit_vector)
            requires
                s <= 0x7F,
        ;
        assert(s != 37) by {
            vstd::utf8::char_u32_cast(c, s);
        }
    } else {
        assert({
            &&& vstd::utf8::leading_byte_width_2(s) >= 0x80
            &&& vstd::utf8::leading_byte_width_3(s) >= 0x80
            &&& vstd::utf8::leading_byte_width_4(s) >= 0x80
            &&& vstd::utf8::last_continuation_byte(s) >= 0x80
            &&& vstd::utf8::second_last_continuation_byte(s) >= 0x80
            &&& vstd::utf8::third_last_continuation_byte(s) >= 0x80
        }) by (bit_vector);
    }
}

proof fn lemma_encode_no_percent(chars: Seq<char>)
    requires
        forall|i: int| 0 <= i < chars.len() ==> chars[i] != '%',
    ensures
        forall|i: int|
            0 <= i < vstd::utf8::encode_utf8(chars).len()
                ==> #[trigger] vstd::utf8::encode_utf8(chars)[i] != 37,
    decreases chars.len(),
{
    if chars.len() > 0 {
        let head = vstd::utf8::encode_scalar(chars[0] as u32);
        let rest = chars.drop_first();
        lemma_scalar_no_percent(chars[0]);
        assert forall|i: int| 0 <= i < rest.len() implies rest[i] != '%' by {
            assert(rest[i] == chars[i + 1]);
        }
        lemma_encode_no_percent(rest);
        let all = vstd::utf8::encode_utf8(chars);
        assert(all == head + vstd::utf8::encode_utf8(rest));
        assert forall|i: int| 0 <= i < all.len() implies #[trigger] all[i] != 37 by {
            if i < head.len() {
                assert(all[i] == head[i]);
            } else {
                assert(all[i] == vstd::utf8::encode_utf8(rest)[i - head.len()]);
            }
        }
    }
}

/// What `String::from_utf8_lossy` gives for bytes that are not valid UTF-8.
pub uninterp spec fn utf8_lossy(b: Seq<u8>) -> Seq<char>;

/// The text of a path's bytes: the characters they encode when they are
/// valid UTF-8, else the text `String::from_utf8_lossy` gives for them.
pub open spec fn utf8_text(b: Seq<u8>) -> Seq<char> {
    if vstd::utf8::valid_utf8(b) {
        vstd::utf8::decode_utf8(b)
    } else {
        utf8_lossy(b)
    }
}

/// A path without a `%` decodes to itself, whatever characters it holds.
pub proof fn lemma_plain_path_unchanged(s: Seq<char>)
    requires
        forall|i: int| 0 <= i < s.len() ==> s[i] != '%',
    ensures
        utf8_text(percent_decoded(vstd::utf8::encode_utf8(s))) == s,
{
    lemma_encode_no_percent(s);
    lemma_decode_plain(vstd::utf8::encode_utf8(s));
    vstd::utf8::encode_utf8_valid_utf8(s);
    vstd::utf8::encode_utf8_decode_utf8(s);
}

/// `String::from_utf8_lossy`: the text of the bytes, each invalid sequence
/// replaced by U+FFFD; bytes that are valid UTF-8 give exactly the
/// characters they encode, with nothing replaced.
#[verifier::external_body]
fn text_of_bytes(b: &[u8]) -> (r: String)
    ensures
        vstd::utf8::valid_utf8(b@) ==> r@ == vstd::utf8::decode_utf8(b@),
        !vstd::utf8::valid_utf8(b@) ==> r@ == utf8_lossy(b@),
{
    String::from_utf8_lossy(b).into_owned()
}

fn is_hex_byte(b: u8) -> (r: bool)
    ensures
        r == is_hex(b),
{
    (48 <= b && b <= 57) || (97 <= b && b <= 102) || (65 <= b && b <= 70)
}

fn hex_byte_value(b: u8) -> (r: u8)
    requires
        is_hex(b),
    ensures
        r == hex_value(b),
        r < 16,
{
    if 48 <= b && b <= 57 {
        b - 48
    } else if 97 <= b && b <= 102 {
        b - 87
    } else {
        b - 55
    }
}

fn unescape(h: u8, l: u8) -> (r: Option<u8>)
    ensures
        r == escaped_byte(h, l),
{
    if is_hex_byte(h) && is_hex_byte(l) {
        Some(hex_byte_value(h) * 16 + hex_byte_value(l))
    } else if h == 43 && is_hex_byte(l) {
        Some(hex_byte_value(l))
    } else {
        None
    }
}

fn decode_bytes(b: &[u8]) -> (r: Vec<u8>)
    ensures
        r@ == percent_decoded(b@),
{
    let mut out: Vec<u8> = Vec::new();
    let mut i: usize = 0;
    assert(b@.skip(0) =~= b@);
    while i < b.len()
        invariant
            i <= b.len(),
            out@ + percent_decoded(b@.skip(i as int)) == percent_decoded(b@),
        decreases b.len() - i,
    {
        let ghost rest = b@.skip(i as int);
        let ghost before = out@;
        if b[i] == 37 {
            if b.len() - i < 3 {
                crate::text::append_range(&mut out, b, i, b.len());
                assert(percent_decoded(rest) == rest);
                assert(b@.subrange(i as int, b.len() as int) =~= rest);
                assert(b@.skip(b.len() as int) =~= Seq::<u8>::empty());
                i = b.len();
                assert(out@ + percent_decoded(b@.skip(i as int)) =~= percent_decoded(b@));
            } else {
                assert(rest[1] == b@[i + 1] && rest[2] == b@[i + 2]);
                assert(rest.skip(3) =~= b@.skip(i + 3));
                match unescape(b[i + 1], b[i + 2]) {
                    Some(v) => {
                        out.push(v);
                    },
                    None => {
                        out.push(37u8);
                        out.push(b[i + 1]);
                        out.push(b[i + 2]);
                    },
                }
                i = i + 3;
                assert(out@ + percent_decoded(b@.skip(i as int)) =~= percent_decoded(b@));
            }
        } else {
            out.push(b[i]);
            assert(rest.skip(1) =~= b@.skip(i + 1));
            i = i + 1;
            assert(out@ + percent_decoded(b@.skip(i as int)) =~= percent_decoded(b@));
        }
    }
    assert(percent_decoded(b@.skip(i as int)) =~= Seq::<u8>::empty());
    assert(out@ =~= percent_decoded(b@));
    out
}

/// Simple percent-decoding for file paths (handles %20, %23, etc.): the
/// escapes are decoded to bytes, the other bytes kept, and the bytes read
/// as UTF-8, so `caf%C3%A9` and `café` both give `café`.
pub fn percent_decode(input: &str) -> (r: String)
    ensures
        r@ == utf8_text(percent_decoded(vstd::utf8::encode_utf8(input@))),
{
    let bytes = decode_bytes(input.as_bytes());
    text_of_bytes(bytes.as_slice())
}

/// The bytes of `file://`.
pub open spec fn file_scheme() -> Seq<u8> {
    seq![102u8, 105u8, 108u8, 101u8, 58u8, 47u8, 47u8]
}

/// The path that a `file://` URI names, or the message of the error for
/// another scheme.
pub open spec fn spec_uri_to_path(uri: Seq<char>) -> Result<Seq<char>, Seq<char>> {
    let bytes = vstd::utf8::encode_utf8(uri);
    if bytes.len() >= 7 && bytes.take(7) == file_scheme() {
        Ok(utf8_text(percent_decoded(bytes.skip(7))))
    } else {
        Err("Unexpected URI scheme (expected file://): "@ + uri)
    }
}

/// Convert a `file://` URI to a path.
pub fn uri_to_path(uri: &str) -> (r: AppResult<String>)
    ensures
        match spec_uri_to_path(uri@) {
            Ok(p) => r matches Ok(s) && s@ == p,
            Err(m) => r matches Err(AppError::Capture(e)) && e@ == m,
        },
{
    let b = uri.as_bytes();
    if b.len() >= 7 && b[0] == 102 && b[1] == 105 && b[2] == 108 && b[3] == 101 && b[4] == 58
        && b[5] == 47 && b[6] == 47 {
        assert(b@.take(7) =~= file_scheme());
        let mut rest: Vec<u8> = Vec::new();
        crate::text::append_range(&mut rest, b, 7, b.len());
        assert(rest@ =~= b@.skip(7));
        let decoded = decode_bytes(rest.as_slice());
        Ok(text_of_bytes(decoded.as_slice()))
    } else {
        proof {
            if b@.len() >= 7 && b@.take(7) == file_scheme() {
                assert(b@.take(7)[0] == b@[0]);
                assert(b@.take(7)[6] == b@[6]);
                assert(b@[1] == b@.take(7)[1] && b@[2] == b@.take(7)[2] && b@[3] == b@.take(7)[3]);
                assert(b@[4] == b@.take(7)[4] && b@[5] == b@.take(7)[5]);
            }
        }
        let mut m = String::from_str("Unexpected URI scheme (expected file://): ");
        push_str(&mut m, uri);
        Err(AppError::Capture(m))
    }
}

// ---------------------------------------------------------------------------
// Screenshot portal requests
// ---------------------------------------------------------------------------
/// The handle token of this process's Screenshot request.
pub fn screenshot_request_token(pid: u32) -> (r: String)
    ensures
        r@ == "sd_screenshot_"@ + decimal(pid as nat),
{
    let mut t = String::from_str("sd_screenshot_");
    push_decimal(&mut t, pid as u64);
    t
}

/// A unique bus name as it appears in a request path: without its leading
/// colons, every `.` as `_`.
pub open spec fn sender_segment(name: Seq<char>) -> Seq<char> {
    let rest = name.skip(crate::text::prefix_len(name, is_colon()) as int);
    Seq::new(rest.len(), |i: int| if rest[i] == '.' { '_' } else { rest[i] })
}

/// Whether a character is `:`.
pub open spec fn is_colon() -> spec_fn(char) -> bool {
    |c: char| c == ':'
}

/// The object path on which the portal answers the request with handle
/// `token` of the connection with unique name `unique_name`.
pub open spec fn spec_request_path(unique_name: Seq<char>, token: Seq<char>) -> Seq<char> {
    "/org/freedesktop/portal/desktop/request/"@ + sender_segment(unique_name) + "/"@ + token
}

/// The request object path of a Screenshot request (see `spec_request_path`).
pub fn request_path(unique_name: &str, token: &str) -> (r: String)
    ensures
        r@ == spec_request_path(unique_name@, token@),
{
    let n = chars_of(unique_name);
    let mut i: usize = 0;
    while i < n.len() && n[i] == ':'
        invariant
            i <= n.len(),
            forall|j: int| 0 <= j < i ==> #[trigger] n@[j] == ':',
        decreases n.len() - i,
    {
        i = i + 1;
    }
    proof {
        crate::text::lemma_prefix_len(n@, is_colon(), i as int);
    }
    let mut r = String::from_str("/org/freedesktop/portal/desktop/request/");
    let ghost base = r@;
    let mut k = i;
    while k < n.len()
        invariant
            i <= k <= n.len(),
            n@ == unique_name@,
            r@ == base + Seq::new(
                (k - i) as nat,
                |j: int| if n@[i + j] == '.' { '_' } else { n@[i + j] },
            ),
        decreases n.len() - k,
    {
        let c = if n[k] == '.' {
            '_'
        } else {
            n[k]
        };
        push_char(&mut r, c);
        k = k + 1;
        assert(r@ =~= base + Seq::new(
            (k - i) as nat,
            |j: int| if n@[i + j] == '.' { '_' } else { n@[i + j] },
        ));
    }
    assert(Seq::new((k - i) as nat, |j: int| if n@[i + j] == '.' { '_' } else { n@[i + j] })
        =~= sender_segment(unique_name@));
    push_str(&mut r, "/");
    push_str(&mut r, token);
    r
}

/// The file that a Screenshot portal response names, or the message of
/// the error: the response code must be 0 (1 is cancelled, 2 other), and
/// the results must hold a string `uri` with the `file://` scheme.
pub open spec fn spec_screenshot_response(code: u32, uri: Option<Result<Seq<char>, Seq<char>>>) -> Result<
    Seq<char>,
    Seq<char>,
> {
    if code != 0 {
        Err(
            "Portal Screenshot failed with response code "@ + decimal(code as nat)
                + " (0=success, 1=cancelled, 2=other)"@,
        )
    } else {
        match uri {
            None => Err("No 'uri' field in portal Screenshot response"@),
            Some(Err(e)) => Err("Failed to extract URI string: "@ + e),
            Some(Ok(u)) => spec_uri_to_path(u),
        }
    }
}

/// The file that a Screenshot portal response names: its response code,
/// and its `uri` result (absent, not a string with the conversion's error
/// message, or the string).
pub fn screenshot_response_path(code: u32, uri: Option<Result<String, String>>) -> (r: AppResult<
    String,
>)
    ensures
        match spec_screenshot_response(
            code,
            match uri {
                None => None,
                Some(Ok(u)) => Some(Ok(u@)),
                Some(Err(e)) => Some(Err(e@)),
            },
        ) {
            Ok(p) => r matches Ok(s) && s@ == p,
            Err(m) => r matches Err(AppError::Capture(e)) && e@ == m,
        },
{
    if code != 0 {
        let mut m = String::from_str("Portal Screenshot failed with response code ");
        push_decimal(&mut m, code as u64);
        push_str(&mut m, " (0=success, 1=cancelled, 2=other)");
        return Err(AppError::Capture(m));
    }
    match uri {
        None => Err(AppError::Capture(String::from_str("No 'uri' field in portal Screenshot response"))),
        Some(Err(e)) => {
            let mut m = String::from_str("Failed to extract URI string: ");
            push_str(&mut m, e.as_str());
            Err(AppError::Capture(m))
        },
        Some(Ok(u)) => uri_to_path(u.as_str()),
    }
}

// ---------------------------------------------------------------------------
// The ScreenCast restore token
// ---------------------------------------------------------------------------
/// The file in the configuration directory that keeps the restore token.
pub fn token_path(config_dir: &str) -> (r: String)
    ensures
        r@ == path_join_spec(config_dir@, "pipewire_token.txt"@),
{
    path_join(config_dir, "pipewire_token.txt")
}

/// The restore token kept in a token file's text: the text trimmed, or
/// `None` when nothing remains.
pub fn restore_token_from_text(text: &str) -> (r: Option<String>)
    ensures
        trim_spec(text@).len() == 0 ==> r is None,
        trim_spec(text@).len() > 0 ==> (r matches Some(t) && t@ == trim_spec(text@)),
{
    let c = chars_of(text);
    let t = trim(c.as_slice());
    if t.len() == 0 {
        None
    } else {
        Some(string_of(t.as_slice()))
    }
}

// ---------------------------------------------------------------------------
// ScreenCast sessions
// ---------------------------------------------------------------------------
/// The kind of source a ScreenCast session selects.
#[derive(Debug, Clone, Copy, PartialEq, Eq, Structural)]
pub enum PortalSourceKind {
    Monitor,
    Window,
}

/// A recording selects a monitor for a screen or a region (cropped
/// afterwards), a window for a window.
pub fn portal_source_kind(source: &crate::capture::CaptureSource) -> (r: PortalSourceKind)
    ensures
        r == (match source {
            crate::capture::CaptureSource::Window(_) => PortalSourceKind::Window,
            _ => PortalSourceKind::Monitor,
        }),
{
    match source {
        crate::capture::CaptureSource::Window(_) => PortalSourceKind::Window,
        _ => PortalSourceKind::Monitor,
    }
}

/// A stream that a started ScreenCast session offers: its PipeWire node,
/// and its size and position when the portal reports them.
#[derive(Debug, Clone, Copy)]
pub struct PortalStream {
    pub node_id: u32,
    pub size: Option<(i32, i32)>,
    pub position: Option<(i32, i32)>,
}

/// The stream a session captures: the first, with its size as `u32`s (cast
/// as `as` casts them); an error when the user cancelled the picker and
/// there is none.
pub fn first_stream(streams: &Vec<PortalStream>) -> (r: AppResult<(u32, Option<u32>, Option<u32>, Option<(i32, i32)>)>)
    ensures
        streams@.len() == 0 ==> (r matches Err(AppError::Capture(m)) && m@
            == "Portal returned no streams -- user may have cancelled the picker"@),
        streams@.len() > 0 ==> ({
            let s = streams@[0];
            r matches Ok((node, w, h, pos)) && node == s.node_id && pos == s.position && match s.size {
                Some((sw, sh)) => w == Some(sw as u32) && h == Some(sh as u32),
                None => w is None && h is None,
            }
        }),
{
    if streams.len() == 0 {
        return Err(
            AppError::Capture(
                String::from_str("Portal returned no streams -- user may have cancelled the picker"),
            ),
        );
    }
    let s = streams[0];
    let (w, h) = match s.size {
        Some((sw, sh)) => (Some(sw as u32), Some(sh as u32)),
        None => (None, None),
    };
    Ok((s.node_id, w, h, s.position))
}

} // verus!
