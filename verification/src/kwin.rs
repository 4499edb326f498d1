//! KDE Plasma (KWin) capture: which compositor runs, the windows that the
//! KWin scripting API lists, what a capture of each kind of source reads,
//! and the pixels of an `org.kde.KWin.ScreenShot2` reply.
use std::collections::HashMap;

use vstd::prelude::*;

use crate::capture::{CaptureSource, CapturedFrame, WindowInfo, WindowSource};
use crate::drm::number_or_zero;
use crate::error::{AppError, AppResult};
use crate::pixels::{convert_to_rgba8, rgba8_image, PixelLayout};
use crate::text::{
    chars_eq, chars_of, contains, decimal, has_prefix, lines, lines_spec, lowercase, occurs_in,
    parse_i32, parse_i32_spec, parse_u32, push_decimal, push_signed, push_str, signed_decimal, split,
    split_spec, starts_with, string_of, to_lowercase, trim, trim_spec, views,
};

verus! {

broadcast use vstd::std_specs::hash::group_hash_axioms;

// ---------------------------------------------------------------------------
// Compositor detection
// ---------------------------------------------------------------------------
/// Detected compositor type.
#[derive(Debug, Clone, Copy, PartialEq, Eq, Structural)]
pub enum Compositor {
    KWin,
    GnomeMutter,
    Unknown,
}

/// The compositor that a lowercased `XDG_CURRENT_DESKTOP` value names, if
/// it names one.
pub open spec fn desktop_compositor(lower: Seq<char>) -> Option<Compositor> {
    if occurs_in(lower, "kde"@) {
        Some(Compositor::KWin)
    } else if occurs_in(lower, "gnome"@) {
        Some(Compositor::GnomeMutter)
    } else {
        None
    }
}

/// The compositor named by the `XDG_CURRENT_DESKTOP` value `desktop`
/// (any case): KWin when it mentions "kde", GNOME/Mutter when it mentions
/// "gnome"; `None` when it names neither and the session bus must be asked.
pub fn compositor_from_desktop(desktop: &str) -> (r: Option<Compositor>)
    ensures
        r == desktop_compositor(lowercase(desktop@)),
{
    let lower = chars_of(to_lowercase(desktop).as_str());
    let kde = chars_of("kde");
    let gnome = chars_of("gnome");
    if contains(lower.as_slice(), kde.as_slice()) {
        Some(Compositor::KWin)
    } else if contains(lower.as_slice(), gnome.as_slice()) {
        Some(Compositor::GnomeMutter)
    } else {
        None
    }
}

/// The compositor that owns its well-known session-bus name:
/// `org.kde.KWin` is asked about first, then `org.gnome.Shell`.
pub fn compositor_from_bus(kwin_owned: bool, gnome_owned: bool) -> (r: Compositor)
    ensures
        r == (if kwin_owned {
            Compositor::KWin
        } else if gnome_owned {
            Compositor::GnomeMutter
        } else {
            Compositor::Unknown
        }),
{
    if kwin_owned {
        Compositor::KWin
    } else if gnome_owned {
        Compositor::GnomeMutter
    } else {
        Compositor::Unknown
    }
}

/// Why windows cannot be listed, as the source list reports it after the
/// KWin listing failed with `e`.
pub fn enumeration_failure_reason(e: &AppError) -> (r: String)
    ensures
        r@ == "KWin window enumeration failed: "@ + e.spec_message(),
{
    let mut r = String::from_str("KWin window enumeration failed: ");
    push_str(&mut r, e.message().as_str());
    r
}

// ---------------------------------------------------------------------------
// Window ids
// ---------------------------------------------------------------------------
/// What `std::hash::DefaultHasher`, created by `new`, finishes with after
/// hashing the string.
pub uninterp spec fn uuid_hash(s: Seq<char>) -> u64;

/// `DefaultHasher::new()` fed the string through `Hash` and finished; the
/// hasher is not seeded per process, so equal strings hash equally.
#[verifier::external_body]
fn hash_uuid(uuid: &str) -> (r: u64)
    ensures
        r == uuid_hash(uuid@),
{
    std::hash::BuildHasher::hash_one(
        &std::hash::BuildHasherDefault::<std::collections::hash_map::DefaultHasher>::default(),
        uuid,
    )
}

/// The numeric window id derived from a KWin window's UUID: the low 31
/// bits of its hash, so that ids stay stable while windows come and go.
pub open spec fn window_id(uuid: Seq<char>) -> u32 {
    (uuid_hash(uuid) & 0x7FFF_FFFFu64) as u32
}

/// Window ids are positive 31-bit numbers.
pub proof fn lemma_window_id_bound(uuid: Seq<char>)
    ensures
        window_id(uuid) < 0x8000_0000,
{
    let h = uuid_hash(uuid);
    assert((h & 0x7FFF_FFFFu64) <= 0x7FFF_FFFFu64) by (bit_vector);
}

fn window_id_of(uuid: &str) -> (r: u32)
    ensures
        r == window_id(uuid@),
{
    let h = hash_uuid(uuid);
    let low = h & 0x7FFF_FFFFu64;
    assert(low <= 0x7FFF_FFFFu64) by (bit_vector)
        requires
            low == h & 0x7FFF_FFFFu64,
    ;
    low as u32
}

// ---------------------------------------------------------------------------
// Window listing
// ---------------------------------------------------------------------------
/// A window described by an `SD_WIN` line: UUID, caption, resource class,
/// x, y, width, height, minimized, active.
pub type KwinLine = (Seq<char>, Seq<char>, Seq<char>, i32, i32, u32, u32, bool, bool);

/// An `i32` or 0 when it does not parse.
pub open spec fn signed_or_zero(s: Seq<char>) -> i32 {
    match parse_i32_spec(s) {
        Some(v) => v,
        None => 0,
    }
}

/// What a line of the KWin script's log describes, if it is a well-formed
/// `SD_WIN|uuid|caption|resourceClass|desktopFile|x,y,w,h|minimized|active`
/// line (surrounding whitespace ignored; numbers that do not parse are 0).
pub open spec fn kwin_line(raw: Seq<char>) -> Option<KwinLine> {
    let line = trim_spec(raw);
    let parts = split_spec(line, '|');
    if !has_prefix(line, "SD_WIN|"@) || parts.len() < 8 {
        None
    } else {
        let geom = split_spec(parts[5], ',');
        if geom.len() < 4 {
            None
        } else {
            Some(
                (
                    parts[1],
                    parts[2],
                    parts[3],
                    signed_or_zero(geom[0]),
                    signed_or_zero(geom[1]),
                    number_or_zero(geom[2]),
                    number_or_zero(geom[3]),
                    parts[6] == "1"@,
                    parts[7] == "1"@,
                ),
            )
        }
    }
}

/// The windows that the lines describe, in order.
pub open spec fn kwin_records(ls: Seq<Seq<char>>) -> Seq<KwinLine>
    decreases ls.len(),
{
    if ls.len() == 0 {
        seq![]
    } else {
        kwin_records(ls.drop_last()) + match kwin_line(ls.last()) {
            Some(r) => seq![r],
            None => seq![],
        }
    }
}

/// The fields of one parsed `SD_WIN` line.
struct ParsedLine {
    uuid: String,
    caption: String,
    class: String,
    x: i32,
    y: i32,
    width: u32,
    height: u32,
    minimized: bool,
    active: bool,
}

spec fn parsed_as(p: ParsedLine, r: KwinLine) -> bool {
    &&& p.uuid@ == r.0
    &&& p.caption@ == r.1
    &&& p.class@ == r.2
    &&& p.x == r.3
    &&& p.y == r.4
    &&& p.width == r.5
    &&& p.height == r.6
    &&& p.minimized == r.7
    &&& p.active == r.8
}

fn signed_or_zero_of(s: &[char]) -> (r: i32)
    ensures
        r == signed_or_zero(s@),
{
    match parse_i32(s) {
        Some(v) => v,
        None => 0,
    }
}

fn number_or_zero_of(s: &[char]) -> (r: u32)
    ensures
        r == number_or_zero(s@),
{
    match parse_u32(s) {
        Some(v) => v,
        None => 0,
    }
}

fn parse_kwin_line(raw: &[char]) -> (r: Option<ParsedLine>)
    ensures
        match kwin_line(raw@) {
            Some(k) => r matches Some(p) && parsed_as(p, k),
            None => r is None,
        },
{
    let line = trim(raw);
    let tag = chars_of("SD_WIN|");
    if !starts_with(line.as_slice(), tag.as_slice()) {
        return None;
    }
    let parts = split(line.as_slice(), '|');
    if parts.len() < 8 {
        return None;
    }
    proof {
        assert(parts@[5]@ == views(parts@)[5]);
    }
    let geom = split(parts[5].as_slice(), ',');
    if geom.len() < 4 {
        return None;
    }
    let one = chars_of("1");
    proof {
        assert(parts@[1]@ == views(parts@)[1]);
        assert(parts@[2]@ == views(parts@)[2]);
        assert(parts@[3]@ == views(parts@)[3]);
        assert(parts@[6]@ == views(parts@)[6]);
        assert(parts@[7]@ == views(parts@)[7]);
        assert(geom@[0]@ == views(geom@)[0]);
        assert(geom@[1]@ == views(geom@)[1]);
        assert(geom@[2]@ == views(geom@)[2]);
        assert(geom@[3]@ == views(geom@)[3]);
    }
    Some(
        ParsedLine {
            uuid: string_of(parts[1].as_slice()),
            caption: string_of(parts[2].as_slice()),
            class: string_of(parts[3].as_slice()),
            x: signed_or_zero_of(geom[0].as_slice()),
            y: signed_or_zero_of(geom[1].as_slice()),
            width: number_or_zero_of(geom[2].as_slice()),
            height: number_or_zero_of(geom[3].as_slice()),
            minimized: chars_eq(parts[6].as_slice(), one.as_slice()),
            active: chars_eq(parts[7].as_slice(), one.as_slice()),
        },
    )
}

// ---------------------------------------------------------------------------
// The window table
// ---------------------------------------------------------------------------
/// A window of the last listing: its numeric id, its KWin UUID and its
/// frame geometry.
pub struct KwinWindowEntry {
    pub id: u32,
    pub uuid: String,
    pub x: i32,
    pub y: i32,
    pub width: u32,
    pub height: u32,
}

/// The table entry that a described window gets.
pub open spec fn entry_for(e: KwinWindowEntry, r: KwinLine) -> bool {
    &&& e.id == window_id(r.0)
    &&& e.uuid@ == r.0
    &&& e.x == r.3
    &&& e.y == r.4
    &&& e.width == r.5
    &&& e.height == r.6
}

/// The window that the frontend is shown for a described window; KWin's
/// scripting API gives no process id, so it is 0.
pub open spec fn window_info_for(w: WindowInfo, r: KwinLine) -> bool {
    &&& w.id == window_id(r.0)
    &&& w.pid == 0
    &&& w.app_name@ == r.2
    &&& w.title@ == r.1
    &&& w.width == r.5
    &&& w.height == r.6
    &&& w.is_minimized == r.7
    &&& w.is_focused == r.8
    &&& w.uuid matches Some(u) && u@ == r.0
}

/// The entry that a lookup of `id` finds: the last one with that id, as a
/// later insertion under the same id replaces an earlier one.
pub open spec fn latest_entry(es: Seq<KwinWindowEntry>, id: u32) -> Option<KwinWindowEntry>
    decreases es.len(),
{
    if es.len() == 0 {
        None
    } else if es.last().id == id {
        Some(es.last())
    } else {
        latest_entry(es.drop_last(), id)
    }
}

/// The UUIDs and frame geometries of the windows that KWin listed last,
/// by numeric window id.
pub struct KwinWindowTable {
    /// Window id to KWin UUID.
    uuid_map: HashMap<u32, String>,
    /// Window id to frame geometry (x, y, width, height).
    geometry_map: HashMap<u32, (i32, i32, u32, u32)>,
    /// The listing the maps were filled from, in listing order.
    entries: Ghost<Seq<KwinWindowEntry>>,
}

/// The maps hold, under each listed id, the UUID and geometry of the
/// latest window listed with that id, and nothing under other ids.
pub open spec fn maps_follow(
    uuids: Map<u32, String>,
    geometry: Map<u32, (i32, i32, u32, u32)>,
    es: Seq<KwinWindowEntry>,
) -> bool {
    forall|id: u32|
        #![trigger latest_entry(es, id)]
        match latest_entry(es, id) {
            Some(e) => {
                &&& uuids.contains_key(id)
                &&& uuids[id]@ == e.uuid@
                &&& geometry.contains_key(id)
                &&& geometry[id] == (e.x, e.y, e.width, e.height)
            },
            None => !uuids.contains_key(id) && !geometry.contains_key(id),
        }
}

/// Listing one more window changes the latest entry of its id only.
proof fn lemma_latest_push(es: Seq<KwinWindowEntry>, e: KwinWindowEntry, id: u32)
    ensures
        latest_entry(es.push(e), id) == (if e.id == id {
            Some(e)
        } else {
            latest_entry(es, id)
        }),
{
    assert(es.push(e).drop_last() =~= es);
}

impl KwinWindowTable {
    #[verifier::type_invariant]
    spec fn maps_follow_entries(self) -> bool {
        maps_follow(self.uuid_map@, self.geometry_map@, self.entries@)
    }

    /// The listed windows, in listing order.
    pub closed spec fn spec_entries(&self) -> Seq<KwinWindowEntry> {
        self.entries@
    }

    /// An empty table: nothing listed yet.
    pub fn new() -> (t: Self)
        ensures
            t.spec_entries() == Seq::<KwinWindowEntry>::empty(),
    {
        KwinWindowTable {
            uuid_map: HashMap::new(),
            geometry_map: HashMap::new(),
            entries: Ghost(Seq::empty()),
        }
    }


    /// Parse the `SD_WIN` lines of the KWin script's log output into the
    /// windows to show, and replace the table with them.
    ///
    /// Format: `SD_WIN|uuid|caption|resourceClass|desktopFile|x,y,w,h|minimized|active`.
    /// Other lines, and lines with too few fields, are skipped.
    #[verifier::spinoff_prover]
    pub fn parse_kwin_window_output(&mut self, output: &str) -> (windows: Vec<WindowInfo>)
        ensures
            ({
                let recs = kwin_records(lines_spec(output@));
                &&& windows@.len() == recs.len()
                &&& final(self).spec_entries().len() == recs.len()
                &&& forall|i: int|
                    0 <= i < recs.len() ==> window_info_for(#[trigger] windows@[i], recs[i])
                        && entry_for(final(self).spec_entries()[i], recs[i])
            }),
    {
        let text = chars_of(output);
        let ls = lines(text.as_slice());
        let ghost lsv = views(ls@);
        let mut windows: Vec<WindowInfo> = Vec::new();
        let mut uuid_map: HashMap<u32, String> = HashMap::new();
        let mut geometry_map: HashMap<u32, (i32, i32, u32, u32)> = HashMap::new();
        let ghost mut es: Seq<KwinWindowEntry> = Seq::empty();
        let mut i: usize = 0;
        while i < ls.len()
            invariant
                i <= ls.len(),
                lsv == views(ls@),
                lsv == lines_spec(output@),
                windows@.len() == kwin_records(lsv.take(i as int)).len(),
                es.len() == windows@.len(),
                maps_follow(uuid_map@, geometry_map@, es),
                forall|k: int|
                    0 <= k < windows@.len() ==> window_info_for(
                        #[trigger] windows@[k],
                        kwin_records(lsv.take(i as int))[k],
                    ) && entry_for(es[k], kwin_records(lsv.take(i as int))[k]),
            decreases ls.len() - i,
        {
            let ghost before = kwin_records(lsv.take(i as int));
            let ghost wb = windows@;
            let ghost eb = es;
            assert(lsv.take(i + 1) =~= lsv.take(i as int).push(ls@[i as int]@));
            assert(lsv.take(i + 1).drop_last() =~= lsv.take(i as int));
            match parse_kwin_line(ls[i].as_slice()) {
                Some(p) => {
                    let id = window_id_of(p.uuid.as_str());
                    let ghost e = KwinWindowEntry {
                        id,
                        uuid: p.uuid,
                        x: p.x,
                        y: p.y,
                        width: p.width,
                        height: p.height,
                    };
                    uuid_map.insert(id, p.uuid.clone());
                    geometry_map.insert(id, (p.x, p.y, p.width, p.height));
                    proof {
                        es = es.push(e);
                        assert forall|j: u32|
                            latest_entry(es, j) == (if e.id == j {
                                Some(e)
                            } else {
                                latest_entry(eb, j)
                            }) by {
                            lemma_latest_push(eb, e, j);
                        }
                        assert(maps_follow(uuid_map@, geometry_map@, es));
                    }
                    windows.push(
                        WindowInfo {
                            id,
                            pid: 0,
                            app_name: p.class,
                            title: p.caption,
                            width: p.width,
                            height: p.height,
                            is_minimized: p.minimized,
                            is_focused: p.active,
                            uuid: Some(p.uuid),
                        },
                    );
                    proof {
                        let after = kwin_records(lsv.take(i + 1));
                        let r = kwin_line(ls@[i as int]@)->Some_0;
                        assert(after == before + seq![r]);
                        assert forall|k: int| 0 <= k < windows@.len() implies window_info_for(
                            #[trigger] windows@[k],
                            after[k],
                        ) && entry_for(es[k], after[k]) by {
                            if k < wb.len() {
                                assert(windows@[k] == wb[k]);
                                assert(es[k] == eb[k]);
                                assert(after[k] == before[k]);
                            }
                        }
                    }
                },
                None => {
                    proof {
                        assert(kwin_records(lsv.take(i + 1)) =~= before);
                        assert forall|k: int| 0 <= k < windows@.len() implies window_info_for(
                            #[trigger] windows@[k],
                            kwin_records(lsv.take(i + 1))[k],
                        ) && entry_for(es[k], kwin_records(lsv.take(i + 1))[k]) by {
                            assert(windows@[k] == wb[k]);
                        }
                    }
                },
            }
            assert(forall|k: int|
                0 <= k < windows@.len() ==> window_info_for(
                    #[trigger] windows@[k],
                    kwin_records(lsv.take(i + 1))[k],
                ) && entry_for(es[k], kwin_records(lsv.take(i + 1))[k]));
            i = i + 1;
        }
        assert(lsv.take(ls.len() as int) =~= lsv);
        let ghost recs = kwin_records(lsv);
        assert(forall|k: int|
            0 <= k < windows@.len() ==> window_info_for(#[trigger] windows@[k], recs[k])
                && entry_for(es[k], recs[k]));
        *self = KwinWindowTable { uuid_map, geometry_map, entries: Ghost(es) };
        assert(self.spec_entries().len() == recs.len());
        assert(forall|k: int|
            0 <= k < recs.len() ==> window_info_for(#[trigger] windows@[k], recs[k])
                && entry_for(self.spec_entries()[k], recs[k]));
        windows
    }

    /// The KWin UUID listed last under window id `id`.
    pub fn uuid_of(&self, id: u32) -> (r: Option<&String>)
        ensures
            match latest_entry(self.spec_entries(), id) {
                Some(e) => r matches Some(u) && u@ == e.uuid@,
                None => r is None,
            },
    {
        proof {
            use_type_invariant(self);
        }
        self.uuid_map.get(&id)
    }

    /// The frame geometry (x, y, width, height) listed last under window
    /// id `id`.
    pub fn geometry_of(&self, id: u32) -> (r: Option<(i32, i32, u32, u32)>)
        ensures
            match latest_entry(self.spec_entries(), id) {
                Some(e) => r == Some((e.x, e.y, e.width, e.height)),
                None => r is None,
            },
    {
        proof {
            use_type_invariant(self);
        }
        match self.geometry_map.get(&id) {
            Some(g) => Some(*g),
            None => None,
        }
    }

    /// The KWin UUID of the window to capture: the source's own UUID when
    /// it carries one, else the one listed under its window id.
    pub fn window_uuid(&self, source: &WindowSource) -> (r: AppResult<String>)
        ensures
            match source.uuid {
                Some(u) => r matches Ok(s) && s@ == u@,
                None => match latest_entry(self.spec_entries(), source.window_id) {
                    Some(e) => r matches Ok(s) && s@ == e.uuid@,
                    None => r matches Err(AppError::Capture(m)) && m@ == missing_uuid_message(
                        source.window_id,
                    ),
                },
            },
    {
        match &source.uuid {
            Some(u) => Ok(u.clone()),
            None => match self.uuid_of(source.window_id) {
                Some(u) => Ok(u.clone()),
                None => {
                    let mut m = String::from_str("No KWin UUID found for window ID ");
                    push_decimal(&mut m, source.window_id as u64);
                    push_str(&mut m, ". Call enumerate_sources first.");
                    Err(AppError::Capture(m))
                },
            },
        }
    }

    /// What a capture of `source` reads from the PipeWire stream: the whole
    /// frame for a screen, the window's listed frame geometry for a window,
    /// the region itself for a region.
    pub fn plan_capture(&self, source: &CaptureSource) -> (r: AppResult<KwinCapture>)
        ensures
            match spec_plan(self.spec_entries(), *source) {
                Ok(c) => r == Ok::<KwinCapture, AppError>(c),
                Err(m) => r matches Err(AppError::Capture(e)) && e@ == m,
            },
    {
        match source {
            CaptureSource::Screen(_) => Ok(KwinCapture::Full),
            CaptureSource::Window(w) => match self.geometry_of(w.window_id) {
                Some((x, y, width, height)) => {
                    if width == 0 || height == 0 {
                        let mut m = String::from_str("Window ");
                        push_decimal(&mut m, w.window_id as u64);
                        push_str(&mut m, " has zero-size geometry (");
                        push_signed(&mut m, x as i64);
                        push_str(&mut m, ",");
                        push_signed(&mut m, y as i64);
                        push_str(&mut m, " ");
                        push_decimal(&mut m, width as u64);
                        push_str(&mut m, "x");
                        push_decimal(&mut m, height as u64);
                        push_str(
                            &mut m,
                            "). The window may be minimized or not yet enumerated.",
                        );
                        Err(AppError::Capture(m))
                    } else {
                        Ok(KwinCapture::Cropped { x, y, width, height })
                    }
                },
                None => {
                    let mut m = String::from_str("Window ID ");
                    push_decimal(&mut m, w.window_id as u64);
                    push_str(&mut m, " not found in geometry map. Try refreshing sources first.");
                    Err(AppError::Capture(m))
                },
            },
            CaptureSource::Region(r) => Ok(
                KwinCapture::Cropped { x: r.x, y: r.y, width: r.width, height: r.height },
            ),
        }
    }
}

/// The message for a window id with no listed UUID.
pub open spec fn missing_uuid_message(id: u32) -> Seq<char> {
    "No KWin UUID found for window ID "@ + decimal(id as nat) + ". Call enumerate_sources first."@
}

/// What a capture reads from the PipeWire stream.
#[derive(Debug, Clone, Copy, PartialEq, Eq, Structural)]
pub enum KwinCapture {
    /// The whole frame.
    Full,
    /// The part of the frame at `x`, `y` of `width` by `height`.
    Cropped { x: i32, y: i32, width: u32, height: u32 },
}

/// What a capture of `source` reads, given the listed windows, or the
/// message of the error.
pub open spec fn spec_plan(es: Seq<KwinWindowEntry>, source: CaptureSource) -> Result<
    KwinCapture,
    Seq<char>,
> {
    match source {
        CaptureSource::Screen(_) => Ok(KwinCapture::Full),
        CaptureSource::Window(w) => match latest_entry(es, w.window_id) {
            Some(e) => if e.width == 0 || e.height == 0 {
                Err(
                    "Window "@ + decimal(w.window_id as nat) + " has zero-size geometry ("@
                        + signed_decimal(e.x as int) + ","@ + signed_decimal(e.y as int) + " "@
                        + decimal(e.width as nat) + "x"@ + decimal(e.height as nat)
                        + "). The window may be minimized or not yet enumerated."@,
                )
            } else {
                Ok(KwinCapture::Cropped { x: e.x, y: e.y, width: e.width, height: e.height })
            },
            None => Err(
                "Window ID "@ + decimal(w.window_id as nat)
                    + " not found in geometry map. Try refreshing sources first."@,
            ),
        },
        CaptureSource::Region(r) => Ok(
            KwinCapture::Cropped { x: r.x, y: r.y, width: r.width, height: r.height },
        ),
    }
}

// ---------------------------------------------------------------------------
// ScreenShot2 replies
// ---------------------------------------------------------------------------
/// A value of a ScreenShot2 reply's metadata, as far as its type decides
/// how it reads as a `u32`.
#[derive(Debug, Clone)]
pub enum ReplyValue {
    U32(u32),
    I32(i32),
    U64(u64),
    /// A value of another type, with its `Debug` rendering.
    Other(String),
}

/// The `u32` that the metadata value under `key` gives, or the message of
/// the error: `i32` and `u64` values are cast as `as` casts them.
pub open spec fn spec_extract_u32(v: Option<ReplyValue>, key: Seq<char>) -> Result<u32, Seq<char>> {
    match v {
        None => Err("Missing '"@ + key + "' in ScreenShot2 response"@),
        Some(ReplyValue::U32(x)) => Ok(x),
        Some(ReplyValue::I32(x)) => Ok(x as u32),
        Some(ReplyValue::U64(x)) => Ok(x as u32),
        Some(ReplyValue::Other(d)) => Err("Cannot convert '"@ + key + "' value to u32: "@ + d@),
    }
}

/// Extract a `u32` from the value under `key` in a ScreenShot2 reply
/// (`None` when the reply has no such key). The value might be `u32`,
/// `i32` or `u64` depending on the KWin version.
pub fn extract_u32(value: Option<&ReplyValue>, key: &str) -> (r: AppResult<u32>)
    ensures
        match spec_extract_u32(
            match value {
                Some(v) => Some(*v),
                None => None,
            },
            key@,
        ) {
            Ok(x) => r == Ok::<u32, AppError>(x),
            Err(m) => r matches Err(AppError::Capture(e)) && e@ == m,
        },
{
    match value {
        None => {
            let mut m = String::from_str("Missing '");
            push_str(&mut m, key);
            push_str(&mut m, "' in ScreenShot2 response");
            Err(AppError::Capture(m))
        },
        Some(ReplyValue::U32(x)) => Ok(*x),
        Some(ReplyValue::I32(x)) => Ok(*x as u32),
        Some(ReplyValue::U64(x)) => Ok(*x as u32),
        Some(ReplyValue::Other(d)) => {
            let mut m = String::from_str("Cannot convert '");
            push_str(&mut m, key);
            push_str(&mut m, "' value to u32: ");
            push_str(&mut m, d.as_str());
            Err(AppError::Capture(m))
        },
    }
}

/// The memory layout of a ScreenShot2 pixel format (wl_shm): 1 is
/// XRGB8888, `[B, G, R, X]` on little-endian; anything else is read as
/// ARGB8888, `[B, G, R, A]`.
pub open spec fn screenshot_layout(format: u32) -> PixelLayout {
    if format == 1 {
        PixelLayout::Bgrx
    } else {
        PixelLayout::Bgra
    }
}

/// Convert ARGB8888/XRGB8888 pixel data to RGBA8888: `height` rows of
/// `width` pixels, rows `stride` bytes apart. A pixel beyond the data is
/// transparent black.
pub fn convert_to_rgba(data: &[u8], width: u32, height: u32, stride: u32, format: u32) -> (rgba: Vec<u8>)
    requires
        width * height <= u32::MAX,
        height == 0 || (height - 1) * stride <= u32::MAX,
    ensures
        rgba@ == rgba8_image(
            data@,
            width as nat,
            stride as nat,
            screenshot_layout(format),
            0,
            height as nat,
        ),
{
    let layout = if format == 1 {
        PixelLayout::Bgrx
    } else {
        PixelLayout::Bgra
    };
    convert_to_rgba8(data, width, height, stride, layout, 0)
}

/// The frame in a ScreenShot2 reply: its width, height, stride and format
/// (absent format: 0) from the metadata, the pixels from the pipe. Fails
/// when a dimension is missing or unreadable, or when the pipe gave fewer
/// than `stride * height` bytes.
pub open spec fn spec_screenshot_frame(
    width: Result<u32, Seq<char>>,
    height: Result<u32, Seq<char>>,
    stride: Result<u32, Seq<char>>,
    format: Result<u32, Seq<char>>,
    raw: Seq<u8>,
) -> Result<(Seq<u8>, u32, u32), Seq<char>> {
    match (width, height, stride) {
        (Err(m), _, _) => Err(m),
        (Ok(_), Err(m), _) => Err(m),
        (Ok(_), Ok(_), Err(m)) => Err(m),
        (Ok(w), Ok(h), Ok(s)) => {
            let f = match format {
                Ok(f) => f,
                Err(_) => 0,
            };
            if raw.len() < s * h {
                Err(
                    "Incomplete screenshot data: got "@ + decimal(raw.len()) + " bytes, expected "@
                        + decimal(s as nat * h as nat),
                )
            } else {
                Ok(
                    (
                        rgba8_image(raw, w as nat, s as nat, screenshot_layout(f), 0, h as nat),
                        w,
                        h,
                    ),
                )
            }
        },
    }
}

/// The reply's dimensions fit the machine's integers: the frame's pixel
/// count, the pipe's expected byte count and the row offsets fit a `u32`.
pub open spec fn screenshot_fits(width: u32, height: u32, stride: u32) -> bool {
    &&& width * height <= u32::MAX
    &&& stride * height <= u32::MAX
}

/// Read the frame of a ScreenShot2 reply from its metadata values and the
/// bytes read from its pipe.
pub fn read_screenshot(
    width: Option<&ReplyValue>,
    height: Option<&ReplyValue>,
    stride: Option<&ReplyValue>,
    format: Option<&ReplyValue>,
    raw: &[u8],
) -> (r: AppResult<CapturedFrame>)
    requires
        ({
            let d = |v: Option<&ReplyValue>| match v {
                Some(x) => Some(*x),
                None => None,
            };
            match (
                spec_extract_u32(d(width), "width"@),
                spec_extract_u32(d(height), "height"@),
                spec_extract_u32(d(stride), "stride"@),
            ) {
                (Ok(w), Ok(h), Ok(s)) => screenshot_fits(w, h, s),
                _ => true,
            }
        }),
    ensures
        ({
            let d = |v: Option<&ReplyValue>| match v {
                Some(x) => Some(*x),
                None => None,
            };
            match spec_screenshot_frame(
                spec_extract_u32(d(width), "width"@),
                spec_extract_u32(d(height), "height"@),
                spec_extract_u32(d(stride), "stride"@),
                spec_extract_u32(d(format), "format"@),
                raw@,
            ) {
                Ok((data, w, h)) => r matches Ok(f) && f.data@ == data && f.width == w && f.height
                    == h,
                Err(m) => r matches Err(AppError::Capture(e)) && e@ == m,
            }
        }),
{
    let w = match extract_u32(width, "width") {
        Ok(v) => v,
        Err(e) => return Err(e),
    };
    let h = match extract_u32(height, "height") {
        Ok(v) => v,
        Err(e) => return Err(e),
    };
    let s = match extract_u32(stride, "stride") {
        Ok(v) => v,
        Err(e) => return Err(e),
    };
    let f = match extract_u32(format, "format") {
        Ok(v) => v,
        Err(_) => 0,
    };
    let expected = s * h;
    if (raw.len() as u64) < (expected as u64) {
        let mut m = String::from_str("Incomplete screenshot data: got ");
        push_decimal(&mut m, raw.len() as u64);
        push_str(&mut m, " bytes, expected ");
        push_decimal(&mut m, expected as u64);
        return Err(AppError::Capture(m));
    }
    assert(h == 0 || (h - 1) * s <= s * h) by (nonlinear_arith);
    let data = convert_to_rgba(raw, w, h, s, f);
    Ok(CapturedFrame { data, width: w, height: h })
}

} // verus!
