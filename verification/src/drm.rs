//! DRM/KMS framebuffer capture through the `drm_capture_helper` program:
//! reading its plane listing, choosing a card, decoding captured
//! framebuffers and converting their pixels to RGBA.
use std::collections::HashSet;

use vstd::prelude::*;

use crate::error::{AppError, AppResult};
use crate::capture::CapturedFrame;
use crate::paths::{path_join, path_join_spec};
use crate::pixels::{convert_to_rgba8, rgba8_image, PixelLayout};
use crate::text::{
    append_range, contains, has_prefix, occurs_in, lines, lines_spec, starts_with, trim, trim_spec,
    chars_eq, chars_of, copy_range, debug_quoted, debug_str, decimal, parse_u32, parse_u32_spec,
    push_decimal, push_str, split, split_spec, string_of, views,
};

verus! {

broadcast use vstd::std_specs::hash::group_hash_axioms;

/// DRM pixel format codes (fourcc).
pub const DRM_FORMAT_XRGB8888: u32 = 0x34325258;

pub const DRM_FORMAT_ARGB8888: u32 = 0x34325241;

pub const DRM_FORMAT_XBGR8888: u32 = 0x34324258;

pub const DRM_FORMAT_ABGR8888: u32 = 0x34324241;

/// Information about a CRTC (display output) and its associated plane.
#[derive(Debug)]
pub struct CrtcMonitor {
    pub crtc_id: u32,
    pub plane_id: u32,
    pub fb_id: u32,
    pub width: u32,
    pub height: u32,
    /// Connector name like "DP-1", "HDMI-A-1", etc.
    pub connector_name: String,
    /// CRTC x/y position in the virtual screen space (for multi-monitor).
    pub crtc_x: u32,
    pub crtc_y: u32,
    /// Pixel format fourcc string from the helper (e.g. "AR24", "AB30", "XR24").
    pub fmt_code: String,
}

impl Clone for CrtcMonitor {
    fn clone(&self) -> (r: Self)
        ensures
            r == *self,
    {
        CrtcMonitor {
            crtc_id: self.crtc_id,
            plane_id: self.plane_id,
            fb_id: self.fb_id,
            width: self.width,
            height: self.height,
            connector_name: self.connector_name.clone(),
            crtc_x: self.crtc_x,
            crtc_y: self.crtc_y,
            fmt_code: self.fmt_code.clone(),
        }
    }
}

// ---------------------------------------------------------------------------
// The helper's plane listing
// ---------------------------------------------------------------------------
/// The value of the last `key:value` pair among the first `n` pairs
/// `parts[0]:parts[1]`, `parts[2]:parts[3]`, ...
pub open spec fn lookup_pairs(parts: Seq<Seq<char>>, key: Seq<char>, n: nat) -> Option<Seq<char>>
    decreases n,
{
    if n == 0 {
        None
    } else if parts[2 * (n - 1)] == key {
        Some(parts[2 * (n - 1) + 1])
    } else {
        lookup_pairs(parts, key, (n - 1) as nat)
    }
}

/// The value paired with `key` in the `key:value` fields of `parts`; a
/// later pair overrides an earlier one with the same key.
pub open spec fn lookup(parts: Seq<Seq<char>>, key: Seq<char>) -> Option<Seq<char>> {
    lookup_pairs(parts, key, parts.len() / 2)
}

/// A number field: present and parsing as a `u32`.
pub open spec fn number_field(v: Option<Seq<char>>) -> Option<u32> {
    match v {
        Some(s) => parse_u32_spec(s),
        None => None,
    }
}

/// A `u32` or 0 when it does not parse.
pub open spec fn number_or_zero(s: Seq<char>) -> u32 {
    match parse_u32_spec(s) {
        Some(v) => v,
        None => 0,
    }
}

/// The fields of one plane line: plane, CRTC and framebuffer ids, width,
/// height, x, y, and the fourcc.
pub type ListLine = (u32, u32, u32, u32, u32, u32, u32, Seq<char>);

/// What a line of the helper's `--list` output describes, or the message
/// of the error it gives:
/// `PLANE:<id>:CRTC:<id>:FB:<id>:SIZE:<W>x<H>:POS:<X>,<Y>:FMT:<fourcc>`.
pub open spec fn spec_list_line(line: Seq<char>) -> Result<ListLine, Seq<char>> {
    let parts = split_spec(line, ':');
    let q = debug_quoted(line);
    if parts.len() < 12 {
        Err("DRM: malformed list line (expected 12+ fields): "@ + q)
    } else if number_field(lookup(parts, "PLANE"@)) is None {
        Err("DRM: missing PLANE in "@ + q)
    } else if number_field(lookup(parts, "CRTC"@)) is None {
        Err("DRM: missing CRTC in "@ + q)
    } else if number_field(lookup(parts, "FB"@)) is None {
        Err("DRM: missing FB in "@ + q)
    } else if lookup(parts, "SIZE"@) is None {
        Err("DRM: missing SIZE in "@ + q)
    } else {
        let size = split_spec(lookup(parts, "SIZE"@)->0, 'x');
        if parse_u32_spec(size[0]) is None {
            Err("DRM: bad SIZE width in "@ + q)
        } else if size.len() < 2 || parse_u32_spec(size[1]) is None {
            Err("DRM: bad SIZE height in "@ + q)
        } else if lookup(parts, "POS"@) is None {
            Err("DRM: missing POS in "@ + q)
        } else {
            let pos = split_spec(lookup(parts, "POS"@)->0, ',');
            let x = number_or_zero(pos[0]);
            let y = if pos.len() >= 2 {
                number_or_zero(pos[1])
            } else {
                0
            };
            let fmt = match lookup(parts, "FMT"@) {
                Some(f) => f,
                None => "XR24"@,
            };
            Ok(
                (
                    number_field(lookup(parts, "PLANE"@))->0,
                    number_field(lookup(parts, "CRTC"@))->0,
                    number_field(lookup(parts, "FB"@))->0,
                    parse_u32_spec(size[0])->0,
                    parse_u32_spec(size[1])->0,
                    x,
                    y,
                    fmt,
                ),
            )
        }
    }
}

/// The connector name given to a CRTC: `CRTC-<id>`.
pub open spec fn connector_name_of(crtc_id: u32) -> Seq<char> {
    "CRTC-"@ + decimal(crtc_id as nat)
}

/// `cm` is the monitor that the plane line `l` describes.
pub open spec fn describes(cm: CrtcMonitor, l: ListLine) -> bool {
    &&& cm.plane_id == l.0
    &&& cm.crtc_id == l.1
    &&& cm.fb_id == l.2
    &&& cm.width == l.3
    &&& cm.height == l.4
    &&& cm.crtc_x == l.5
    &&& cm.crtc_y == l.6
    &&& cm.fmt_code@ == l.7
    &&& cm.connector_name@ == connector_name_of(l.1)
}

/// The value of `key` among the `key:value` pairs of `parts`.
fn pair_value(parts: &Vec<Vec<char>>, key: &[char]) -> (r: Option<Vec<char>>)
    ensures
        match lookup(views(parts@), key@) {
            Some(v) => r matches Some(w) && w@ == v,
            None => r is None,
        },
{
    let ghost ps = views(parts@);
    let n = parts.len() / 2;
    let mut found: Option<usize> = None;
    let mut k: usize = 0;
    while k < n
        invariant
            ps == views(parts@),
            n == parts.len() / 2,
            k <= n,
            match found {
                Some(j) => j < k && lookup_pairs(ps, key@, k as nat) == Some(ps[2 * j + 1]),
                None => lookup_pairs(ps, key@, k as nat) is None,
            },
        decreases n - k,
    {
        if chars_eq(parts[2 * k].as_slice(), key) {
            found = Some(k);
        }
        k = k + 1;
    }
    match found {
        Some(j) => Some(copy_range(parts[2 * j + 1].as_slice(), 0, parts[2 * j + 1].len())),
        None => None,
    }
}

/// A pair's value parsed as a `u32`.
fn number_value(parts: &Vec<Vec<char>>, key: &str) -> (r: Option<u32>)
    ensures
        r == number_field(lookup(views(parts@), key@)),
{
    let k = chars_of(key);
    match pair_value(parts, k.as_slice()) {
        Some(v) => parse_u32(v.as_slice()),
        None => None,
    }
}

fn line_error(prefix: &str, line: &str) -> (r: AppError)
    ensures
        r matches AppError::Capture(m) && m@ == prefix@ + debug_quoted(line@),
{
    let mut m = String::from_str(prefix);
    push_str(&mut m, debug_str(line).as_str());
    AppError::Capture(m)
}

/// The error and its message a list line gives, as `parse_list_line` returns them.
pub open spec fn list_line_result(r: AppResult<CrtcMonitor>, line: Seq<char>) -> bool {
    match spec_list_line(line) {
        Ok(l) => r matches Ok(cm) && describes(cm, l),
        Err(m) => r matches Err(AppError::Capture(e)) && e@ == m,
    }
}

impl DrmCaptureBackend {
    /// Parse a single line from the helper's `--list` output.
    ///
    /// Format: `PLANE:<id>:CRTC:<id>:FB:<id>:SIZE:<W>x<H>:POS:<X>,<Y>:FMT:<fourcc>`
    pub fn parse_list_line(line: &str) -> (r: AppResult<CrtcMonitor>)
        ensures
            list_line_result(r, line@),
    {
        let chars = chars_of(line);
        let parts = split(chars.as_slice(), ':');
        let ghost ps = views(parts@);
        if parts.len() < 12 {
            return Err(line_error("DRM: malformed list line (expected 12+ fields): ", line));
        }
        let plane_id = match number_value(&parts, "PLANE") {
            Some(v) => v,
            None => {
                return Err(line_error("DRM: missing PLANE in ", line));
            },
        };
        let crtc_id = match number_value(&parts, "CRTC") {
            Some(v) => v,
            None => {
                return Err(line_error("DRM: missing CRTC in ", line));
            },
        };
        let fb_id = match number_value(&parts, "FB") {
            Some(v) => v,
            None => {
                return Err(line_error("DRM: missing FB in ", line));
            },
        };
        let size_str = match pair_value(&parts, chars_of("SIZE").as_slice()) {
            Some(v) => v,
            None => {
                return Err(line_error("DRM: missing SIZE in ", line));
            },
        };
        let size = split(size_str.as_slice(), 'x');
        let width = match parse_u32(size[0].as_slice()) {
            Some(v) => v,
            None => {
                return Err(line_error("DRM: bad SIZE width in ", line));
            },
        };
        let height = if size.len() < 2 {
            return Err(line_error("DRM: bad SIZE height in ", line));
        } else {
            match parse_u32(size[1].as_slice()) {
                Some(v) => v,
                None => {
                    return Err(line_error("DRM: bad SIZE height in ", line));
                },
            }
        };
        let pos_str = match pair_value(&parts, chars_of("POS").as_slice()) {
            Some(v) => v,
            None => {
                return Err(line_error("DRM: missing POS in ", line));
            },
        };
        let pos = split(pos_str.as_slice(), ',');
        let crtc_x = match parse_u32(pos[0].as_slice()) {
            Some(v) => v,
            None => 0,
        };
        let crtc_y = if pos.len() >= 2 {
            match parse_u32(pos[1].as_slice()) {
                Some(v) => v,
                None => 0,
            }
        } else {
            0
        };
        let fmt_code = match pair_value(&parts, chars_of("FMT").as_slice()) {
            Some(v) => string_of(v.as_slice()),
            None => String::from_str("XR24"),
        };
        let mut connector_name = String::from_str("CRTC-");
        push_decimal(&mut connector_name, crtc_id as u64);
        Ok(
            CrtcMonitor {
                crtc_id,
                plane_id,
                fb_id,
                width,
                height,
                connector_name,
                crtc_x,
                crtc_y,
                fmt_code,
            },
        )
    }
}

// ---------------------------------------------------------------------------
// The whole listing
// ---------------------------------------------------------------------------
/// Some listed monitor already uses CRTC `id`.
pub open spec fn crtc_listed(ls: Seq<ListLine>, id: u32) -> bool {
    exists|i: int| 0 <= i < ls.len() && #[trigger] ls[i].1 == id
}

/// The monitors that the first `n` lines of a `--list` listing describe:
/// the lines that start with `PLANE:` once trimmed and parse, each CRTC
/// kept once (with its first plane).
pub open spec fn listed_monitors(ls: Seq<Seq<char>>, n: nat) -> Seq<ListLine>
    decreases n,
{
    if n == 0 {
        seq![]
    } else {
        let prev = listed_monitors(ls, (n - 1) as nat);
        let l = trim_spec(ls[n - 1]);
        if has_prefix(l, "PLANE:"@) && spec_list_line(l) is Ok && !crtc_listed(
            prev,
            spec_list_line(l)->Ok_0.1,
        ) {
            prev.push(spec_list_line(l)->Ok_0)
        } else {
            prev
        }
    }
}

/// A listing keeps each CRTC once: no two listed monitors share a CRTC.
pub proof fn lemma_listing_distinct_crtcs(ls: Seq<Seq<char>>, n: nat)
    ensures
        forall|i: int, j: int|
            0 <= i < j < listed_monitors(ls, n).len() ==> (#[trigger] listed_monitors(ls, n)[i]).1
                != (#[trigger] listed_monitors(ls, n)[j]).1,
    decreases n,
{
    if n > 0 {
        let prev = listed_monitors(ls, (n - 1) as nat);
        lemma_listing_distinct_crtcs(ls, (n - 1) as nat);
        let cur = listed_monitors(ls, n);
        assert forall|i: int, j: int| 0 <= i < j < cur.len() implies (#[trigger] cur[i]).1
            != (#[trigger] cur[j]).1 by {
            if cur.len() > prev.len() {
                if j == prev.len() {
                    assert(cur[i] == prev[i]);
                    if cur[i].1 == cur[j].1 {
                        assert(crtc_listed(prev, cur[j].1));
                    }
                } else {
                    assert(cur[i] == prev[i] && cur[j] == prev[j]);
                }
            }
        }
    }
}

/// The plane that line `k` of a listing describes: a line that starts with
/// `PLANE:` once trimmed and parses.
pub open spec fn plane_of_line(ls: Seq<Seq<char>>, k: int) -> Option<ListLine> {
    let l = trim_spec(ls[k]);
    if has_prefix(l, "PLANE:"@) && spec_list_line(l) is Ok {
        Some(spec_list_line(l)->Ok_0)
    } else {
        None
    }
}

/// A listing only grows: the monitors of the first `m` lines are the first
/// monitors of the first `n >= m` lines, unchanged.
pub proof fn lemma_listing_grows(ls: Seq<Seq<char>>, m: nat, n: nat)
    requires
        m <= n,
    ensures
        listed_monitors(ls, m).len() <= listed_monitors(ls, n).len(),
        listed_monitors(ls, n).subrange(0, listed_monitors(ls, m).len() as int)
            == listed_monitors(ls, m),
    decreases n - m,
{
    if m < n {
        lemma_listing_grows(ls, m, (n - 1) as nat);
        let a = listed_monitors(ls, m);
        let p = listed_monitors(ls, (n - 1) as nat);
        let q = listed_monitors(ls, n);
        assert(q == p || q == p.push(q.last()));
        assert(q.subrange(0, a.len() as int) =~= p.subrange(0, a.len() as int));
    } else {
        assert(listed_monitors(ls, n).subrange(0, listed_monitors(ls, n).len() as int)
            =~= listed_monitors(ls, n));
    }
}

/// The law of a listing: a plane line whose CRTC is already listed leaves
/// the listing as it is; every CRTC that a plane line among the first `n`
/// names is listed; and each listed monitor is the plane of the first line
/// that names its CRTC.
pub proof fn lemma_listing_first_plane(ls: Seq<Seq<char>>, n: nat)
    requires
        n <= ls.len(),
    ensures
        n > 0 ==> (plane_of_line(ls, n - 1) matches Some(p) && crtc_listed(
            listed_monitors(ls, (n - 1) as nat),
            p.1,
        )) ==> listed_monitors(ls, n) == listed_monitors(ls, (n - 1) as nat),
        forall|k: int|
            0 <= k < n && (#[trigger] plane_of_line(ls, k)) is Some ==> crtc_listed(
                listed_monitors(ls, n),
                plane_of_line(ls, k)->Some_0.1,
            ),
        forall|i: int|
            0 <= i < listed_monitors(ls, n).len() ==> exists|k: int|
                0 <= k < n && #[trigger] plane_of_line(ls, k) == Some(
                    #[trigger] listed_monitors(ls, n)[i],
                ) && forall|k2: int|
                    0 <= k2 < k ==> !(#[trigger] plane_of_line(ls, k2) matches Some(p2) && p2.1
                        == listed_monitors(ls, n)[i].1),
    decreases n,
{
    if n > 0 {
        let n1 = (n - 1) as nat;
        lemma_listing_first_plane(ls, n1);
        lemma_listing_grows(ls, n1, n);
        let prev = listed_monitors(ls, n1);
        let cur = listed_monitors(ls, n);
        assert forall|i: int| 0 <= i < prev.len() implies cur[i] == prev[i] by {
            assert(cur.subrange(0, prev.len() as int)[i] == cur[i]);
        }
        assert forall|k: int|
            0 <= k < n && (#[trigger] plane_of_line(ls, k)) is Some implies crtc_listed(
            cur,
            plane_of_line(ls, k)->Some_0.1,
        ) by {
            let c = plane_of_line(ls, k)->Some_0.1;
            if k < n1 {
                assert(crtc_listed(prev, c));
                let j = choose|j: int| 0 <= j < prev.len() && #[trigger] prev[j].1 == c;
                assert(cur[j].1 == c);
            } else {
                if crtc_listed(prev, c) {
                    let j = choose|j: int| 0 <= j < prev.len() && #[trigger] prev[j].1 == c;
                    assert(cur[j].1 == c);
                } else {
                    assert(cur == prev.push(plane_of_line(ls, k)->Some_0));
                    assert(cur[prev.len() as int].1 == c);
                }
            }
        }
        assert forall|i: int| 0 <= i < cur.len() implies exists|k: int|
            0 <= k < n && #[trigger] plane_of_line(ls, k) == Some(#[trigger] cur[i]) && forall|
                k2: int,
            |
                0 <= k2 < k ==> !(#[trigger] plane_of_line(ls, k2) matches Some(p2) && p2.1
                    == cur[i].1) by {
            if i < prev.len() {
                assert(cur[i] == prev[i]);
                let k = choose|k: int|
                    0 <= k < n1 && #[trigger] plane_of_line(ls, k) == Some(#[trigger] prev[i])
                        && forall|k2: int|
                        0 <= k2 < k ==> !(#[trigger] plane_of_line(ls, k2) matches Some(p2)
                            && p2.1 == prev[i].1);
                assert(plane_of_line(ls, k) == Some(cur[i]));
            } else {
                let p = plane_of_line(ls, n1 as int)->Some_0;
                assert(plane_of_line(ls, n1 as int) is Some);
                assert(!crtc_listed(prev, p.1));
                assert(cur == prev.push(p));
                assert(cur[i] == p);
                assert forall|k2: int| 0 <= k2 < n1 implies !(#[trigger] plane_of_line(
                    ls,
                    k2,
                ) matches Some(p2) && p2.1 == p.1) by {
                    if plane_of_line(ls, k2) matches Some(p2) && p2.1 == p.1 {
                        assert(crtc_listed(prev, plane_of_line(ls, k2)->Some_0.1));
                    }
                }
                assert(plane_of_line(ls, n1 as int) == Some(cur[i]));
            }
        }
    }
}

/// The monitors of a whole `--list` listing.
pub open spec fn spec_listing(stdout: Seq<char>) -> Seq<ListLine> {
    listed_monitors(lines_spec(stdout), lines_spec(stdout).len())
}

/// `ms` are monitors that the plane lines `ls` describe, in order.
pub open spec fn all_describe(ms: Seq<CrtcMonitor>, ls: Seq<ListLine>) -> bool {
    &&& ms.len() == ls.len()
    &&& forall|i: int| 0 <= i < ms.len() ==> describes(#[trigger] ms[i], ls[i])
}

/// The message for a `--list` run that failed.
pub open spec fn list_failed_message(status: Seq<char>, stderr: Seq<char>) -> Seq<char> {
    "DRM: helper --list failed (status="@ + status + "): "@ + trim_spec(stderr)
}

impl DrmCaptureBackend {
    /// The monitors described by the output of `drm_capture_helper --list <card>`:
    /// whether it succeeded, its exit status as text, its standard error and its
    /// standard output.
    pub fn parse_list_output(success: bool, status: &str, stderr: &str, stdout: &str) -> (r: AppResult<
        Vec<CrtcMonitor>,
    >)
        ensures
            !success ==> (r matches Err(AppError::Capture(m)) && m@ == list_failed_message(
                status@,
                stderr@,
            )),
            success ==> (r matches Ok(ms) && all_describe(ms@, spec_listing(stdout@))),
    {
        if !success {
            let mut m = String::from_str("DRM: helper --list failed (status=");
            push_str(&mut m, status);
            push_str(&mut m, "): ");
            let e = chars_of(stderr);
            let t = trim(e.as_slice());
            push_str(&mut m, string_of(t.as_slice()).as_str());
            return Err(AppError::Capture(m));
        }
        let out = chars_of(stdout);
        let ls = lines(out.as_slice());
        let ghost lv = views(ls@);
        let prefix = chars_of("PLANE:");
        let mut monitors: Vec<CrtcMonitor> = Vec::new();
        let mut seen_crtcs: HashSet<u32> = HashSet::new();
        let mut j: usize = 0;
        while j < ls.len()
            invariant
                lv == views(ls@),
                lv == lines_spec(stdout@),
                prefix@ == "PLANE:"@,
                j <= ls.len(),
                all_describe(monitors@, listed_monitors(lv, j as nat)),
                forall|id: u32|
                    #[trigger] seen_crtcs@.contains(id) <==> exists|i: int|
                        0 <= i < monitors@.len() && #[trigger] monitors@[i].crtc_id == id,
            decreases ls.len() - j,
        {
            let ghost prev = listed_monitors(lv, j as nat);
            let line = trim(ls[j].as_slice());
            if starts_with(line.as_slice(), prefix.as_slice()) {
                let text = string_of(line.as_slice());
                match DrmCaptureBackend::parse_list_line(text.as_str()) {
                    Ok(cm) => {
                        let ghost before = monitors@;
                        let id = cm.crtc_id;
                        let fresh = seen_crtcs.insert(id);
                        let seen = !fresh;
                        proof {
                            if seen {
                                let i = choose|i: int|
                                    0 <= i < monitors@.len() && #[trigger] monitors@[i].crtc_id
                                        == cm.crtc_id;
                                assert(prev[i].1 == cm.crtc_id);
                            } else {
                                if crtc_listed(prev, cm.crtc_id) {
                                    let i = choose|i: int|
                                        0 <= i < prev.len() && #[trigger] prev[i].1 == cm.crtc_id;
                                    assert(monitors@[i].crtc_id == cm.crtc_id);
                                }
                            }
                        }
                        if fresh {
                            monitors.push(cm);
                            proof {
                                assert(monitors@[before.len() as int].crtc_id == id);
                                assert forall|k: u32| #[trigger]
                                    seen_crtcs@.contains(k) implies exists|i: int|
                                    0 <= i < monitors@.len() && #[trigger] monitors@[i].crtc_id
                                        == k by {
                                    if k != id {
                                        let i = choose|i: int|
                                            0 <= i < before.len() && #[trigger] before[i].crtc_id
                                                == k;
                                        assert(monitors@[i] == before[i]);
                                    }
                                }
                                assert forall|k: u32|
                                    (exists|i: int|
                                        0 <= i < monitors@.len() && #[trigger] monitors@[i].crtc_id
                                            == k) implies #[trigger] seen_crtcs@.contains(k) by {
                                    let i = choose|i: int|
                                        0 <= i < monitors@.len() && #[trigger] monitors@[i].crtc_id
                                            == k;
                                    if i < before.len() {
                                        assert(before[i] == monitors@[i]);
                                    }
                                }
                            }
                        }
                    },
                    Err(_) => {},
                }
            }
            j = j + 1;
        }
        Ok(monitors)
    }
}

/// Whether a `--list` output lists any plane.
pub fn lists_planes(stdout: &str) -> (r: bool)
    ensures
        r == exists|i: int|
            0 <= i < lines_spec(stdout@).len() && has_prefix(
                #[trigger] lines_spec(stdout@)[i],
                "PLANE:"@,
            ),
{
    let out = chars_of(stdout);
    let ls = lines(out.as_slice());
    let prefix = chars_of("PLANE:");
    let mut j: usize = 0;
    while j < ls.len()
        invariant
            views(ls@) == lines_spec(stdout@),
            prefix@ == "PLANE:"@,
            j <= ls.len(),
            forall|i: int| 0 <= i < j ==> !has_prefix(#[trigger] lines_spec(stdout@)[i], "PLANE:"@),
        decreases ls.len() - j,
    {
        if starts_with(ls[j].as_slice(), prefix.as_slice()) {
            assert(lines_spec(stdout@)[j as int] == ls@[j as int]@);
            return true;
        }
        assert(lines_spec(stdout@)[j as int] == ls@[j as int]@);
        j = j + 1;
    }
    false
}

// ---------------------------------------------------------------------------
// Choosing the card
// ---------------------------------------------------------------------------
/// How many active planes a card's listing found (none when it failed).
pub open spec fn card_count(c: (String, AppResult<Vec<CrtcMonitor>>)) -> nat {
    match c.1 {
        Ok(v) => v@.len(),
        Err(_) => 0,
    }
}

/// Among the first `n` cards, the first with the most active planes, or -1
/// when none has any.
pub open spec fn best_card(cards: Seq<(String, AppResult<Vec<CrtcMonitor>>)>, n: nat) -> int
    decreases n,
{
    if n == 0 {
        -1
    } else {
        let b = best_card(cards, (n - 1) as nat);
        if card_count(cards[n - 1]) > 0 && (b < 0 || card_count(cards[n - 1]) > card_count(
            cards[b],
        )) {
            n - 1
        } else {
            b
        }
    }
}

/// The card chosen is one with the most active planes, and no card before
/// it has as many; when none is chosen, no card has any.
pub proof fn lemma_best_card(cards: Seq<(String, AppResult<Vec<CrtcMonitor>>)>, n: nat)
    requires
        n <= cards.len(),
    ensures
        -1 <= best_card(cards, n) < n,
        best_card(cards, n) < 0 ==> forall|j: int| 0 <= j < n ==> card_count(#[trigger] cards[j])
            == 0,
        best_card(cards, n) >= 0 ==> {
            let b = best_card(cards, n);
            &&& card_count(cards[b]) > 0
            &&& forall|j: int| 0 <= j < n ==> card_count(#[trigger] cards[j]) <= card_count(
                cards[b],
            )
            &&& forall|j: int| 0 <= j < b ==> card_count(#[trigger] cards[j]) < card_count(
                cards[b],
            )
        },
    decreases n,
{
    if n > 0 {
        lemma_best_card(cards, (n - 1) as nat);
    }
}

pub open spec fn no_card_message() -> Seq<char> {
    "DRM: no cards with active framebuffers found. Check that drm_capture_helper has CAP_SYS_ADMIN."@
}

impl DrmCaptureBackend {
    /// Picks the card to capture from: given each card's path and what listing
    /// its planes gave, the first card with the most active planes.
    pub fn find_active_card(cards: Vec<(String, AppResult<Vec<CrtcMonitor>>)>) -> (r: AppResult<
        (String, Vec<CrtcMonitor>),
    >)
        ensures
            best_card(cards@, cards@.len()) < 0 ==> (r matches Err(AppError::Capture(m)) && m@
                == no_card_message()),
            best_card(cards@, cards@.len()) >= 0 ==> (r matches Ok((name, ms)) && name
                == cards@[best_card(cards@, cards@.len())].0 && Ok::<Vec<CrtcMonitor>, AppError>(ms)
                == cards@[best_card(cards@, cards@.len())].1),
    {
        let mut best: usize = 0;
        let mut best_count: usize = 0;
        let mut found = false;
        let mut i: usize = 0;
        while i < cards.len()
            invariant
                i <= cards.len(),
                found ==> best < i && best_card(cards@, i as nat) == best && best_count == card_count(
                    cards@[best as int],
                ) && best_count > 0,
                !found ==> best_card(cards@, i as nat) < 0,
            decreases cards.len() - i,
        {
            let count = match &cards[i].1 {
                Ok(v) => v.len(),
                Err(_) => 0,
            };
            if count > 0 && (!found || count > best_count) {
                best = i;
                best_count = count;
                found = true;
            }
            i = i + 1;
        }
        if !found {
            return Err(AppError::Capture(String::from_str(
                "DRM: no cards with active framebuffers found. Check that drm_capture_helper has CAP_SYS_ADMIN.",
            )));
        }
        let ghost orig = cards@;
        let mut cards = cards;
        let picked = cards.swap_remove(best);
        assert(picked == orig[best as int]);
        let (name, result) = picked;
        match result {
            Ok(ms) => Ok((name, ms)),
            Err(e) => Err(e),
        }
    }
}

// ---------------------------------------------------------------------------
// Captured framebuffers
// ---------------------------------------------------------------------------
/// The DRM format constant for a fourcc string; unknown (and 10-bit)
/// formats are treated as XRGB8888.
pub open spec fn spec_fourcc_format(s: Seq<char>) -> u32 {
    if s == "XR24"@ {
        DRM_FORMAT_XRGB8888
    } else if s == "AR24"@ {
        DRM_FORMAT_ARGB8888
    } else if s == "XB24"@ {
        DRM_FORMAT_XBGR8888
    } else if s == "AB24"@ {
        DRM_FORMAT_ABGR8888
    } else {
        DRM_FORMAT_XRGB8888
    }
}

/// Convert a 4-char fourcc string (e.g. "AR24", "XR24") to a DRM_FORMAT_*
/// constant. Falls back to XRGB8888 for unknown formats.
pub fn fourcc_str_to_format(s: &str) -> (r: u32)
    ensures
        r == spec_fourcc_format(s@),
{
    let c = chars_of(s);
    if chars_eq(c.as_slice(), chars_of("XR24").as_slice()) {
        DRM_FORMAT_XRGB8888
    } else if chars_eq(c.as_slice(), chars_of("AR24").as_slice()) {
        DRM_FORMAT_ARGB8888
    } else if chars_eq(c.as_slice(), chars_of("XB24").as_slice()) {
        DRM_FORMAT_XBGR8888
    } else if chars_eq(c.as_slice(), chars_of("AB24").as_slice()) {
        DRM_FORMAT_ABGR8888
    } else {
        DRM_FORMAT_XRGB8888
    }
}

/// The memory layout of a DRM format on little-endian machines; unknown
/// formats are read as XRGB8888.
pub open spec fn drm_layout(fmt: u32) -> PixelLayout {
    if fmt == DRM_FORMAT_ARGB8888 {
        PixelLayout::Bgra
    } else if fmt == DRM_FORMAT_XBGR8888 {
        PixelLayout::Rgbx
    } else if fmt == DRM_FORMAT_ABGR8888 {
        PixelLayout::Rgba
    } else {
        PixelLayout::Bgrx
    }
}

/// Convert DRM pixel data to RGBA8888: XRGB8888 is `[B, G, R, X]` in memory,
/// ARGB8888 `[B, G, R, A]`, XBGR8888 `[R, G, B, X]`, ABGR8888
/// `[R, G, B, A]`. A pixel past the end of the data is opaque black.
pub fn convert_drm_to_rgba(data: &[u8], width: u32, height: u32, pitch: u32, pixel_format: u32) -> (r: Vec<u8>)
    requires
        height == 0 || (height - 1) * pitch <= u32::MAX,
        width * height * 4 <= usize::MAX,
    ensures
        r@ == rgba8_image(data@, width as nat, pitch as nat, drm_layout(pixel_format), 255, height as nat),
{
    let layout = if pixel_format == DRM_FORMAT_ARGB8888 {
        PixelLayout::Bgra
    } else if pixel_format == DRM_FORMAT_XBGR8888 {
        PixelLayout::Rgbx
    } else if pixel_format == DRM_FORMAT_ABGR8888 {
        PixelLayout::Rgba
    } else {
        PixelLayout::Bgrx
    };
    convert_to_rgba8(data, width, height, pitch, layout, 255)
}

/// What `drm_capture_helper` printed and how it ended.
pub struct HelperOutput {
    /// Whether it exited successfully.
    pub success: bool,
    /// Its exit status, as text.
    pub status: String,
    /// Its standard output.
    pub stdout: Vec<u8>,
    /// Its standard error, as text.
    pub stderr: String,
}

/// The little-endian `u32` at `b[i..i + 4]`.
pub open spec fn le_u32(b: Seq<u8>, i: int) -> u32 {
    (b[i] + b[i + 1] * 256 + b[i + 2] * 65536 + b[i + 3] * 16777216) as u32
}

fn read_le_u32(b: &[u8], i: usize) -> (r: u32)
    requires
        i + 4 <= b.len(),
    ensures
        r == le_u32(b@, i as int),
{
    (b[i] as u32) + (b[i + 1] as u32) * 256 + (b[i + 2] as u32) * 65536 + (b[i + 3] as u32)
        * 16777216
}

/// What a capture run of the helper yields for a plane: the frame's RGBA
/// bytes, width and height, or the message of the error. The output starts
/// with a 12-byte header (width, height, pitch, little-endian `u32`s)
/// followed by `pitch * height` bytes of pixels.
pub open spec fn spec_decode(
    plane_id: u32,
    fmt_code: Seq<char>,
    success: bool,
    status: Seq<char>,
    stderr: Seq<char>,
    raw: Seq<u8>,
) -> Result<(Seq<u8>, u32, u32), Seq<char>> {
    if !success {
        Err(
            "DRM: helper capture failed for plane "@ + decimal(plane_id as nat) + " (status="@
                + status + "): "@ + trim_spec(stderr),
        )
    } else if raw.len() < 12 {
        Err(
            "DRM: helper output too short ("@ + decimal(raw.len()) + " bytes, expected at least 12)"@,
        )
    } else {
        let width = le_u32(raw, 0);
        let height = le_u32(raw, 4);
        let pitch = le_u32(raw, 8);
        let pixels = raw.skip(12);
        if pixels.len() < pitch * height {
            Err(
                "DRM: helper output has "@ + decimal(pixels.len()) + " pixel bytes, expected "@
                    + decimal(pitch as nat * height as nat) + " ("@ + decimal(width as nat) + "x"@
                    + decimal(height as nat) + " pitch="@ + decimal(pitch as nat) + ")"@,
            )
        } else {
            Ok(
                (
                    rgba8_image(
                        pixels,
                        width as nat,
                        pitch as nat,
                        drm_layout(spec_fourcc_format(fmt_code)),
                        255,
                        height as nat,
                    ),
                    width,
                    height,
                ),
            )
        }
    }
}

/// The conversion of a successful capture stays within the machine's
/// integers: the row offsets fit a `u32` and the frame's bytes a `usize`.
pub open spec fn decode_fits(success: bool, raw: Seq<u8>) -> bool {
    (success && raw.len() >= 12 && raw.len() - 12 >= le_u32(raw, 8) * le_u32(raw, 4)) ==> {
        &&& (le_u32(raw, 4) == 0 || (le_u32(raw, 4) - 1) * le_u32(raw, 8) <= u32::MAX)
        &&& le_u32(raw, 0) * le_u32(raw, 4) * 4 <= usize::MAX
    }
}

proof fn lemma_u32_products(a: u32, b: u32, c: u32)
    ensures
        (a as int) * (b as int) <= u64::MAX,
        (a as int) * (b as int) * 4 < 0x1_0000_0000_0000_0000_0000,
        (a as int) * (b as int) * (c as int) < 0x1_0000_0000_0000_0000_0000_0000,
{
    assert((a as int) * (b as int) <= 0xffff_ffff * 0xffff_ffff) by (nonlinear_arith)
        requires a <= 0xffff_ffff, b <= 0xffff_ffff;
    assert((a as int) * (b as int) * (c as int) <= 0xffff_ffff * 0xffff_ffff * 0xffff_ffff) by (nonlinear_arith)
        requires a <= 0xffff_ffff, b <= 0xffff_ffff, c <= 0xffff_ffff, 0 <= a, 0 <= b, 0 <= c;
}

/// Whether converting this capture output stays within the machine's integers.
pub fn capture_output_fits(out: &HelperOutput) -> (r: bool)
    ensures
        r == decode_fits(out.success, out.stdout@),
{
    let raw = out.stdout.as_slice();
    if !out.success || raw.len() < 12 {
        return true;
    }
    let width = read_le_u32(raw, 0) as u64;
    let height = read_le_u32(raw, 4) as u64;
    let pitch = read_le_u32(raw, 8) as u64;
    let px = (raw.len() - 12) as u64;
    proof {
        lemma_u32_products(pitch as u32, height as u32, 0);
        lemma_u32_products(width as u32, height as u32, 0);
    }
    if px < pitch * height {
        return true;
    }
    let rows_ok = if height == 0 {
        true
    } else {
        proof {
            lemma_u32_products((height - 1) as u32, pitch as u32, 0);
        }
        (height - 1) * pitch <= 0xffff_ffff
    };
    let bytes = (width as u128) * (height as u128) * 4;
    rows_ok && bytes <= usize::MAX as u128
}

impl DrmCaptureBackend {
    /// The frame in a capture run's output for the monitor's plane.
    pub fn decode_plane_capture(cm: &CrtcMonitor, out: &HelperOutput) -> (r: AppResult<CapturedFrame>)
        requires
            decode_fits(out.success, out.stdout@),
        ensures
            match spec_decode(cm.plane_id, cm.fmt_code@, out.success, out.status@, out.stderr@, out.stdout@) {
                Ok((d, w, h)) => r matches Ok(f) && f.data@ == d && f.width == w && f.height == h,
                Err(m) => r matches Err(AppError::Capture(e)) && e@ == m,
            },
    {
        if !out.success {
            let mut m = String::from_str("DRM: helper capture failed for plane ");
            push_decimal(&mut m, cm.plane_id as u64);
            push_str(&mut m, " (status=");
            push_str(&mut m, out.status.as_str());
            push_str(&mut m, "): ");
            let e = chars_of(out.stderr.as_str());
            let t = trim(e.as_slice());
            push_str(&mut m, string_of(t.as_slice()).as_str());
            return Err(AppError::Capture(m));
        }
        let raw = out.stdout.as_slice();
        if raw.len() < 12 {
            let mut m = String::from_str("DRM: helper output too short (");
            push_decimal(&mut m, raw.len() as u64);
            push_str(&mut m, " bytes, expected at least 12)");
            return Err(AppError::Capture(m));
        }
        let width = read_le_u32(raw, 0);
        let height = read_le_u32(raw, 4);
        let pitch = read_le_u32(raw, 8);
        let mut pixels: Vec<u8> = Vec::new();
        append_range(&mut pixels, raw, 12, raw.len());
        assert(pixels@ =~= out.stdout@.skip(12));
        proof {
            lemma_u32_products(pitch, height, 0);
        }
        let expected = (pitch as u64) * (height as u64);
        if (pixels.len() as u64) < expected {
            let mut m = String::from_str("DRM: helper output has ");
            push_decimal(&mut m, pixels.len() as u64);
            push_str(&mut m, " pixel bytes, expected ");
            push_decimal(&mut m, expected);
            push_str(&mut m, " (");
            push_decimal(&mut m, width as u64);
            push_str(&mut m, "x");
            push_decimal(&mut m, height as u64);
            push_str(&mut m, " pitch=");
            push_decimal(&mut m, pitch as u64);
            push_str(&mut m, ")");
            return Err(AppError::Capture(m));
        }
        let pixel_format = fourcc_str_to_format(cm.fmt_code.as_str());
        let rgba = convert_drm_to_rgba(pixels.as_slice(), width, height, pitch, pixel_format);
        Ok(CapturedFrame { data: rgba, width, height })
    }
}

// ---------------------------------------------------------------------------
// The backend
// ---------------------------------------------------------------------------
/// DRM/KMS framebuffer capture through the `drm_capture_helper` setcap
/// binary, which performs all privileged DRM operations: `--list <card>`
/// lists the active planes, `<card> <plane>` captures one.
pub struct DrmCaptureBackend {
    helper_path: String,
    card_path: String,
    crtc_monitors: Vec<CrtcMonitor>,
}

/// Index of the first monitor on CRTC `id`, or `ms.len()` when there is none.
pub open spec fn crtc_index(ms: Seq<CrtcMonitor>, id: u32) -> nat
    decreases ms.len(),
{
    if ms.len() == 0 {
        0
    } else if ms[0].crtc_id == id {
        0
    } else {
        1 + crtc_index(ms.drop_first(), id)
    }
}

pub proof fn lemma_crtc_index(ms: Seq<CrtcMonitor>, id: u32, i: int)
    requires
        0 <= i <= ms.len(),
        forall|j: int| 0 <= j < i ==> #[trigger] ms[j].crtc_id != id,
        i == ms.len() || ms[i].crtc_id == id,
    ensures
        crtc_index(ms, id) == i,
    decreases i,
{
    if i > 0 {
        lemma_crtc_index(ms.drop_first(), id, i - 1);
    }
}

pub open spec fn crtc_missing_message(id: u32) -> Seq<char> {
    "CRTC "@ + decimal(id as nat) + " not found in active monitors"@
}

/// The frames of the first `n` monitors, decoded from their outputs in
/// order, or the first error among them.
pub open spec fn spec_decode_all(ms: Seq<CrtcMonitor>, outs: Seq<HelperOutput>, n: nat) -> Result<
    Seq<(u32, (Seq<u8>, u32, u32))>,
    Seq<char>,
>
    decreases n,
{
    if n == 0 {
        Ok(seq![])
    } else {
        match spec_decode_all(ms, outs, (n - 1) as nat) {
            Err(m) => Err(m),
            Ok(prev) => {
                let cm = ms[n - 1];
                let o = outs[n - 1];
                match spec_decode(cm.plane_id, cm.fmt_code@, o.success, o.status@, o.stderr@, o.stdout@) {
                    Err(m) => Err(m),
                    Ok(f) => Ok(prev.push((cm.crtc_id, f))),
                }
            },
        }
    }
}

/// Once decoding fails at some monitor, decoding more monitors gives the
/// same error.
pub proof fn lemma_decode_all_err_stays(ms: Seq<CrtcMonitor>, outs: Seq<HelperOutput>, k: nat, n: nat)
    requires
        k <= n,
        spec_decode_all(ms, outs, k) is Err,
    ensures
        spec_decode_all(ms, outs, n) == spec_decode_all(ms, outs, k),
    decreases n - k,
{
    if k < n {
        lemma_decode_all_err_stays(ms, outs, k, (n - 1) as nat);
    }
}

/// `fs` are the frames that `spec` describes, in order.
pub open spec fn frames_match(fs: Seq<(u32, CapturedFrame)>, spec: Seq<(u32, (Seq<u8>, u32, u32))>) -> bool {
    &&& fs.len() == spec.len()
    &&& forall|i: int|
        0 <= i < fs.len() ==> {
            &&& (#[trigger] fs[i]).0 == spec[i].0
            &&& fs[i].1.data@ == spec[i].1.0
            &&& fs[i].1.width == spec[i].1.1
            &&& fs[i].1.height == spec[i].1.2
        }
}

/// The first monitor whose connector is exactly `name`, or `ms.len()`.
pub open spec fn exact_index(ms: Seq<CrtcMonitor>, name: Seq<char>) -> nat
    decreases ms.len(),
{
    if ms.len() == 0 || ms[0].connector_name@ == name {
        0
    } else {
        1 + exact_index(ms.drop_first(), name)
    }
}

/// A connector name and a monitor name that contain one another.
pub open spec fn names_overlap(connector: Seq<char>, name: Seq<char>) -> bool {
    occurs_in(connector, name) || occurs_in(name, connector)
}

/// The first monitor whose connector name and `name` contain one another,
/// or `ms.len()`.
pub open spec fn partial_index(ms: Seq<CrtcMonitor>, name: Seq<char>) -> nat
    decreases ms.len(),
{
    if ms.len() == 0 || names_overlap(ms[0].connector_name@, name) {
        0
    } else {
        1 + partial_index(ms.drop_first(), name)
    }
}

/// Every monitor is named by its CRTC: `CRTC-<id>`, as a listing names them.
pub open spec fn named_by_crtc(ms: Seq<CrtcMonitor>) -> bool {
    forall|i: int|
        0 <= i < ms.len() ==> (#[trigger] ms[i]).connector_name@ == connector_name_of(ms[i].crtc_id)
}

/// The monitors of a listing are named by their CRTC.
pub proof fn lemma_listed_monitors_named(ms: Seq<CrtcMonitor>, ls: Seq<ListLine>)
    requires
        all_describe(ms, ls),
    ensures
        named_by_crtc(ms),
{
    assert forall|i: int| 0 <= i < ms.len() implies (#[trigger] ms[i]).connector_name@
        == connector_name_of(ms[i].crtc_id) by {
        assert(describes(ms[i], ls[i]));
    }
}

/// Among monitors named by their CRTC, no name is empty, so an empty
/// monitor name matches none exactly and the first one partially: a search
/// by an empty name finds the first monitor.
pub proof fn lemma_empty_name_finds_first(ms: Seq<CrtcMonitor>)
    requires
        named_by_crtc(ms),
        ms.len() > 0,
    ensures
        exact_index(ms, Seq::<char>::empty()) == ms.len(),
        partial_index(ms, Seq::<char>::empty()) == 0,
{
    reveal_strlit("CRTC-");
    assert forall|j: int| 0 <= j < ms.len() implies (#[trigger] ms[j]).connector_name@
        != Seq::<char>::empty() by {
        assert(ms[j].connector_name@ == connector_name_of(ms[j].crtc_id));
        assert(ms[j].connector_name@.len() >= 5);
    }
    lemma_first_index_exact(ms, Seq::<char>::empty(), ms.len() as int);
    let n0 = ms[0].connector_name@;
    let e = Seq::<char>::empty();
    assert(n0.subrange(0, 0 + e.len() as int) =~= e);
    assert(occurs_in(n0, e));
}

pub proof fn lemma_first_index_exact(ms: Seq<CrtcMonitor>, name: Seq<char>, i: int)
    requires
        0 <= i <= ms.len(),
        forall|j: int| 0 <= j < i ==> (#[trigger] ms[j]).connector_name@ != name,
        i == ms.len() || ms[i].connector_name@ == name,
    ensures
        exact_index(ms, name) == i,
    decreases i,
{
    if i > 0 {
        lemma_first_index_exact(ms.drop_first(), name, i - 1);
    }
}

pub proof fn lemma_first_index_partial(ms: Seq<CrtcMonitor>, name: Seq<char>, i: int)
    requires
        0 <= i <= ms.len(),
        forall|j: int| 0 <= j < i ==> !names_overlap((#[trigger] ms[j]).connector_name@, name),
        i == ms.len() || names_overlap(ms[i].connector_name@, name),
    ensures
        partial_index(ms, name) == i,
    decreases i,
{
    if i > 0 {
        lemma_first_index_partial(ms.drop_first(), name, i - 1);
    }
}

impl DrmCaptureBackend {
    pub closed spec fn spec_helper_path(&self) -> Seq<char> {
        self.helper_path@
    }

    pub closed spec fn spec_card_path(&self) -> Seq<char> {
        self.card_path@
    }

    /// The active CRTC monitors.
    pub closed spec fn spec_monitors(&self) -> Seq<CrtcMonitor> {
        self.crtc_monitors@
    }

    /// The backend for the card chosen among `cards` (each card's path and
    /// what listing its planes gave), using the helper at `helper_path`.
    pub fn new(helper_path: String, cards: Vec<(String, AppResult<Vec<CrtcMonitor>>)>) -> (r: AppResult<
        Self,
    >)
        ensures
            best_card(cards@, cards@.len()) < 0 ==> (r matches Err(AppError::Capture(m)) && m@
                == no_card_message()),
            best_card(cards@, cards@.len()) >= 0 ==> (r matches Ok(b) && b.spec_helper_path()
                == helper_path@ && b.spec_card_path() == cards@[best_card(
                cards@,
                cards@.len(),
            )].0@ && Ok::<Seq<CrtcMonitor>, AppError>(b.spec_monitors()) == match cards@[best_card(
                cards@,
                cards@.len(),
            )].1 {
                Ok(v) => Ok::<Seq<CrtcMonitor>, AppError>(v@),
                Err(e) => Err(e),
            }),
    {
        match DrmCaptureBackend::find_active_card(cards) {
            Ok((card_path, crtc_monitors)) => Ok(
                DrmCaptureBackend { helper_path, card_path, crtc_monitors },
            ),
            Err(e) => Err(e),
        }
    }

    /// The helper binary's path.
    pub fn helper_path(&self) -> (r: &str)
        ensures
            r@ == self.spec_helper_path(),
    {
        self.helper_path.as_str()
    }

    /// The DRM card in use, e.g. "/dev/dri/card2".
    pub fn card_path(&self) -> (r: &str)
        ensures
            r@ == self.spec_card_path(),
    {
        self.card_path.as_str()
    }

    /// Get the list of active CRTC monitors.
    pub fn crtc_monitors(&self) -> (r: &[CrtcMonitor])
        ensures
            r@ == self.spec_monitors(),
    {
        self.crtc_monitors.as_slice()
    }

    /// The monitor on CRTC `crtc_id`, whose plane a capture reads.
    pub fn monitor_for_crtc(&self, crtc_id: u32) -> (r: AppResult<&CrtcMonitor>)
        ensures
            crtc_index(self.spec_monitors(), crtc_id) < self.spec_monitors().len() ==> r == Ok::<
                &CrtcMonitor,
                AppError,
            >(&self.spec_monitors()[crtc_index(self.spec_monitors(), crtc_id) as int]),
            crtc_index(self.spec_monitors(), crtc_id) >= self.spec_monitors().len() ==> (r matches Err(
                AppError::Capture(m),
            ) && m@ == crtc_missing_message(crtc_id)),
    {
        let mut i: usize = 0;
        while i < self.crtc_monitors.len()
            invariant
                i <= self.crtc_monitors.len(),
                forall|j: int| 0 <= j < i ==> #[trigger] self.crtc_monitors@[j].crtc_id != crtc_id,
            decreases self.crtc_monitors.len() - i,
        {
            if self.crtc_monitors[i].crtc_id == crtc_id {
                proof {
                    lemma_crtc_index(self.crtc_monitors@, crtc_id, i as int);
                }
                return Ok(&self.crtc_monitors[i]);
            }
            i = i + 1;
        }
        proof {
            lemma_crtc_index(self.crtc_monitors@, crtc_id, i as int);
        }
        let mut m = String::from_str("CRTC ");
        push_decimal(&mut m, crtc_id as u64);
        push_str(&mut m, " not found in active monitors");
        Err(AppError::Capture(m))
    }

    /// The frame of CRTC `crtc_id`, from the output of the helper's capture
    /// of that monitor's plane.
    pub fn capture_crtc(&self, crtc_id: u32, out: &HelperOutput) -> (r: AppResult<CapturedFrame>)
        requires
            decode_fits(out.success, out.stdout@),
        ensures
            crtc_index(self.spec_monitors(), crtc_id) >= self.spec_monitors().len() ==> (r matches Err(
                AppError::Capture(m),
            ) && m@ == crtc_missing_message(crtc_id)),
            crtc_index(self.spec_monitors(), crtc_id) < self.spec_monitors().len() ==> {
                let cm = self.spec_monitors()[crtc_index(self.spec_monitors(), crtc_id) as int];
                match spec_decode(cm.plane_id, cm.fmt_code@, out.success, out.status@, out.stderr@, out.stdout@) {
                    Ok((d, w, h)) => r matches Ok(f) && f.data@ == d && f.width == w && f.height == h,
                    Err(m) => r matches Err(AppError::Capture(e)) && e@ == m,
                }
            },
    {
        match self.monitor_for_crtc(crtc_id) {
            Ok(cm) => DrmCaptureBackend::decode_plane_capture(cm, out),
            Err(e) => Err(e),
        }
    }

    /// Capture all screens as separate frames, from the helper's outputs for
    /// each monitor's plane in order: (crtc_id, frame) pairs, or the first
    /// error.
    pub fn capture_all_screens(&self, outputs: &Vec<HelperOutput>) -> (r: AppResult<Vec<(u32, CapturedFrame)>>)
        requires
            outputs@.len() == self.spec_monitors().len(),
            forall|i: int| 0 <= i < outputs@.len() ==> decode_fits(#[trigger] outputs@[i].success, outputs@[i].stdout@),
        ensures
            match spec_decode_all(self.spec_monitors(), outputs@, outputs@.len()) {
                Ok(fs) => r matches Ok(v) && frames_match(v@, fs),
                Err(m) => r matches Err(AppError::Capture(e)) && e@ == m,
            },
    {
        let mut results: Vec<(u32, CapturedFrame)> = Vec::new();
        let mut i: usize = 0;
        while i < self.crtc_monitors.len()
            invariant
                outputs@.len() == self.crtc_monitors@.len(),
                forall|i: int| 0 <= i < outputs@.len() ==> decode_fits(#[trigger] outputs@[i].success, outputs@[i].stdout@),
                i <= self.crtc_monitors.len(),
                spec_decode_all(self.crtc_monitors@, outputs@, i as nat) matches Ok(fs) && frames_match(results@, fs),
            decreases self.crtc_monitors.len() - i,
        {
            let cm = &self.crtc_monitors[i];
            let frame = DrmCaptureBackend::decode_plane_capture(cm, &outputs[i]);
            match frame {
                Ok(f) => {
                    let ghost before = results@;
                    results.push((cm.crtc_id, f));
                    i = i + 1;
                    proof {
                        let fs = spec_decode_all(self.crtc_monitors@, outputs@, i as nat)->Ok_0;
                        assert(results@ == before.push((cm.crtc_id, f)));
                        assert forall|k: int| 0 <= k < results@.len() implies {
                            &&& (#[trigger] results@[k]).0 == fs[k].0
                            &&& results@[k].1.data@ == fs[k].1.0
                            &&& results@[k].1.width == fs[k].1.1
                            &&& results@[k].1.height == fs[k].1.2
                        } by {
                            if k < before.len() {
                                assert(results@[k] == before[k]);
                            }
                        }
                    }
                },
                Err(e) => {
                    proof {
                        lemma_decode_all_err_stays(self.crtc_monitors@, outputs@, (i + 1) as nat, outputs@.len());
                    }
                    return Err(e);
                },
            }
        }
        Ok(results)
    }

    /// Re-enumerate planes/CRTCs (e.g. after hotplug) from a fresh `--list`
    /// output of the same card.
    pub fn refresh(&mut self, success: bool, status: &str, stderr: &str, stdout: &str) -> (r: AppResult<()>)
        ensures
            final(self).spec_helper_path() == old(self).spec_helper_path(),
            final(self).spec_card_path() == old(self).spec_card_path(),
            !success ==> (r matches Err(AppError::Capture(m)) && m@ == list_failed_message(status@, stderr@)
                && final(self).spec_monitors() == old(self).spec_monitors()),
            success ==> r is Ok && all_describe(final(self).spec_monitors(), spec_listing(stdout@)),
    {
        match DrmCaptureBackend::parse_list_output(success, status, stderr, stdout) {
            Ok(monitors) => {
                self.crtc_monitors = monitors;
                Ok(())
            },
            Err(e) => Err(e),
        }
    }

    /// Find the best matching CRTC for a given monitor name or index: the
    /// first exact connector-name match, else the first whose connector name
    /// and `monitor_name` contain one another, else the monitor at
    /// `monitor_index`.
    pub fn find_crtc_for_monitor(&self, monitor_name: &str, monitor_index: usize) -> (r: Option<&CrtcMonitor>)
        ensures
            ({
                let ms = self.spec_monitors();
                let e = exact_index(ms, monitor_name@);
                let p = partial_index(ms, monitor_name@);
                if e < ms.len() {
                    r == Some(&ms[e as int])
                } else if p < ms.len() {
                    r == Some(&ms[p as int])
                } else if monitor_index < ms.len() {
                    r == Some(&ms[monitor_index as int])
                } else {
                    r is None
                }
            }),
    {
        let name = chars_of(monitor_name);
        let ghost ms = self.crtc_monitors@;
        let mut i: usize = 0;
        while i < self.crtc_monitors.len()
            invariant
                ms == self.crtc_monitors@,
                name@ == monitor_name@,
                i <= ms.len(),
                forall|j: int| 0 <= j < i ==> (#[trigger] ms[j]).connector_name@ != monitor_name@,
            decreases ms.len() - i,
        {
            let c = chars_of(self.crtc_monitors[i].connector_name.as_str());
            if chars_eq(c.as_slice(), name.as_slice()) {
                proof {
                    lemma_first_index_exact(ms, monitor_name@, i as int);
                }
                return Some(&self.crtc_monitors[i]);
            }
            i = i + 1;
        }
        proof {
            lemma_first_index_exact(ms, monitor_name@, i as int);
        }
        let mut k: usize = 0;
        while k < self.crtc_monitors.len()
            invariant
                ms == self.crtc_monitors@,
                name@ == monitor_name@,
                k <= ms.len(),
                exact_index(ms, monitor_name@) == ms.len(),
                forall|j: int| 0 <= j < k ==> !names_overlap((#[trigger] ms[j]).connector_name@, monitor_name@),
            decreases ms.len() - k,
        {
            let c = chars_of(self.crtc_monitors[k].connector_name.as_str());
            if contains(c.as_slice(), name.as_slice()) || contains(name.as_slice(), c.as_slice()) {
                proof {
                    lemma_first_index_partial(ms, monitor_name@, k as int);
                }
                return Some(&self.crtc_monitors[k]);
            }
            k = k + 1;
        }
        proof {
            lemma_first_index_partial(ms, monitor_name@, k as int);
        }
        if monitor_index < self.crtc_monitors.len() {
            Some(&self.crtc_monitors[monitor_index])
        } else {
            None
        }
    }
}

/// Where the helper binary is looked for first: next to the executable.
pub fn helper_beside(exe_dir: &str) -> (r: String)
    ensures
        r@ == path_join_spec(exe_dir@, "drm_capture_helper"@),
{
    path_join(exe_dir, "drm_capture_helper")
}

/// The helper binary to use: the one next to the executable if it is a
/// file, else the one in the current directory (as canonicalized) if it is
/// a file, else the one found on `PATH`.
pub fn locate_helper(
    beside_exe: Option<String>,
    beside_exe_is_file: bool,
    in_cwd: Option<String>,
    on_path: Option<String>,
) -> (r: AppResult<String>)
    ensures
        match (beside_exe, in_cwd, on_path) {
            (Some(b), _, _) if beside_exe_is_file => r matches Ok(p) && p@ == b@,
            (_, Some(c), _) => r matches Ok(p) && p@ == c@,
            (_, None, Some(w)) => r matches Ok(p) && p@ == w@,
            _ => r matches Err(AppError::Capture(m)) && m@
                == "DRM: drm_capture_helper not found. Place it next to the executable, in the current directory, or in PATH."@,
        },
{
    if let Some(b) = beside_exe {
        if beside_exe_is_file {
            return Ok(b);
        }
    }
    if let Some(c) = in_cwd {
        return Ok(c);
    }
    if let Some(w) = on_path {
        return Ok(w);
    }
    Err(
        AppError::Capture(
            String::from_str(
                "DRM: drm_capture_helper not found. Place it next to the executable, in the current directory, or in PATH.",
            ),
        ),
    )
}

} // verus!
