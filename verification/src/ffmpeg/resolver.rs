//! Finding FFmpeg: a bundled sidecar, then a user-configured path, then the
//! system `PATH`; and how FFmpeg's availability is reported.
use vstd::prelude::*;

use super::codec::{AudioCodec, FfmpegCapabilities, VideoCodec};
use crate::error::{AppError, AppResult};
use crate::paths::{parent, path_join, path_join_spec, path_parent};
use crate::text::{push_str};

verus! {

/// Abstraction over how the FFmpeg binary is found and described.
pub trait FfmpegProvider: Send + Sync {
    /// The path to the ffmpeg binary.
    fn ffmpeg_path(&self) -> AppResult<String>;

    /// The path to the ffprobe binary.
    fn ffprobe_path(&self) -> AppResult<String>;

    /// The FFmpeg binary's version and supported codecs.
    fn capabilities(&self) -> AppResult<FfmpegCapabilities>;

    /// Human-readable description of where FFmpeg was found.
    fn source_description(&self) -> String;
}

/// The ffmpeg executable's file name.
pub open spec fn ffmpeg_file(windows: bool) -> Seq<char> {
    if windows {
        "ffmpeg.exe"@
    } else {
        "ffmpeg"@
    }
}

/// The ffprobe executable's file name.
pub open spec fn ffprobe_file(windows: bool) -> Seq<char> {
    if windows {
        "ffprobe.exe"@
    } else {
        "ffprobe"@
    }
}

/// The ffmpeg executable in `dir` (`ffmpeg.exe` on Windows).
pub fn ffmpeg_binary_name(dir: &str, windows: bool) -> (r: String)
    ensures
        r@ == path_join_spec(dir@, ffmpeg_file(windows)),
{
    if windows {
        path_join(dir, "ffmpeg.exe")
    } else {
        path_join(dir, "ffmpeg")
    }
}

/// The ffprobe executable in `dir` (`ffprobe.exe` on Windows).
pub fn ffprobe_binary_name(dir: &str, windows: bool) -> (r: String)
    ensures
        r@ == path_join_spec(dir@, ffprobe_file(windows)),
{
    if windows {
        path_join(dir, "ffprobe.exe")
    } else {
        path_join(dir, "ffprobe")
    }
}

/// Where FFmpeg was found: its two binaries, and a description of the
/// place.
#[derive(Debug, Clone)]
pub struct ResolvedFfmpeg {
    pub ffmpeg: String,
    pub ffprobe: String,
    pub source: String,
}

/// What the file system and the system `PATH` say about the candidates.
pub struct ResolveProbes {
    /// Whether the sidecar directory's ffmpeg binary is a file.
    pub sidecar_is_file: bool,
    /// Whether the user-configured path is a file.
    pub custom_is_file: bool,
    /// `ffmpeg` as found on the system `PATH`, if it is.
    pub system_ffmpeg: Option<String>,
    /// `ffprobe` as found on the system `PATH`, if it is.
    pub system_ffprobe: Option<String>,
}

/// The directory of a path: its parent, or "." when it has none.
pub open spec fn dir_of(p: Seq<char>) -> Seq<char> {
    match path_parent(p) {
        Some(d) => d,
        None => "."@,
    }
}

/// Where FFmpeg is found, given what the probes say: the bundled sidecar
/// first, then the user-configured path (with ffprobe beside it), then the
/// system `PATH` (ffprobe from the `PATH` too, else beside ffmpeg); or the
/// message of the error when none has it.
pub open spec fn spec_resolve(
    sidecar_dir: Option<Seq<char>>,
    custom_path: Option<Seq<char>>,
    windows: bool,
    sidecar_is_file: bool,
    custom_is_file: bool,
    system_ffmpeg: Option<Seq<char>>,
    system_ffprobe: Option<Seq<char>>,
) -> Result<(Seq<char>, Seq<char>, Seq<char>), Seq<char>> {
    if sidecar_dir is Some && sidecar_is_file {
        let d = sidecar_dir->0;
        Ok(
            (
                path_join_spec(d, ffmpeg_file(windows)),
                path_join_spec(d, ffprobe_file(windows)),
                "bundled sidecar"@,
            ),
        )
    } else if custom_path is Some && custom_is_file {
        let c = custom_path->0;
        Ok((c, path_join_spec(dir_of(c), ffprobe_file(windows)), "custom path: "@ + c))
    } else if system_ffmpeg is Some {
        let f = system_ffmpeg->0;
        let p = match system_ffprobe {
            Some(p) => p,
            None => path_join_spec(dir_of(f), "ffprobe"@),
        };
        Ok((f, p, "system PATH"@))
    } else {
        Err("FFmpeg not found. Install it or configure a custom path in settings."@)
    }
}

fn dir_of_path(p: &str) -> (r: String)
    ensures
        r@ == dir_of(p@),
{
    match parent(p) {
        Some(d) => d,
        None => String::from_str("."),
    }
}

/// Finds FFmpeg by checking (in order) the bundled sidecar, the
/// user-configured path, and the system `PATH`; the first place found is
/// kept.
pub struct FfmpegResolver {
    sidecar_dir: Option<String>,
    custom_path: Option<String>,
    resolved: Option<ResolvedFfmpeg>,
}

impl FfmpegResolver {
    pub closed spec fn spec_sidecar_dir(&self) -> Option<Seq<char>> {
        match self.sidecar_dir {
            Some(d) => Some(d@),
            None => None,
        }
    }

    pub closed spec fn spec_custom_path(&self) -> Option<Seq<char>> {
        match self.custom_path {
            Some(c) => Some(c@),
            None => None,
        }
    }

    /// The place found by an earlier resolution, if any: binaries and
    /// description.
    pub closed spec fn spec_resolved(&self) -> Option<(Seq<char>, Seq<char>, Seq<char>)> {
        match self.resolved {
            Some(r) => Some((r.ffmpeg@, r.ffprobe@, r.source@)),
            None => None,
        }
    }

    /// A resolver for the sidecar directory and the user-configured path,
    /// that has not looked yet.
    pub fn new(sidecar_dir: Option<String>, custom_path: Option<String>) -> (r: Self)
        ensures
            r.spec_sidecar_dir() == (match sidecar_dir {
                Some(d) => Some(d@),
                None => None::<Seq<char>>,
            }),
            r.spec_custom_path() == (match custom_path {
                Some(c) => Some(c@),
                None => None::<Seq<char>>,
            }),
            r.spec_resolved() is None,
    {
        FfmpegResolver { sidecar_dir, custom_path, resolved: None }
    }

    /// The sidecar's ffmpeg binary, whose being a file decides the first
    /// candidate.
    pub fn sidecar_ffmpeg(&self, windows: bool) -> (r: Option<String>)
        ensures
            match self.spec_sidecar_dir() {
                Some(d) => r matches Some(p) && p@ == path_join_spec(d, ffmpeg_file(windows)),
                None => r is None,
            },
    {
        match &self.sidecar_dir {
            Some(d) => Some(ffmpeg_binary_name(d.as_str(), windows)),
            None => None,
        }
    }

    /// The user-configured path, whose being a file decides the second
    /// candidate.
    pub fn custom_path(&self) -> (r: Option<&str>)
        ensures
            match self.spec_custom_path() {
                Some(c) => r matches Some(p) && p@ == c,
                None => r is None,
            },
    {
        match &self.custom_path {
            Some(c) => Some(c.as_str()),
            None => None,
        }
    }

    /// The place found by an earlier resolution, if any.
    pub fn resolved(&self) -> (r: Option<ResolvedFfmpeg>)
        ensures
            match self.spec_resolved() {
                Some(k) => r matches Some(v) && (v.ffmpeg@, v.ffprobe@, v.source@) == k,
                None => r is None,
            },
    {
        match &self.resolved {
            Some(v) => Some(v.clone_resolved()),
            None => None,
        }
    }

    /// Where FFmpeg is: the place found before, if any; else the place
    /// that the probes point to (see `spec_resolve`), which is kept.
    pub fn resolve(&mut self, windows: bool, probes: &ResolveProbes) -> (r: AppResult<ResolvedFfmpeg>)
        ensures
            final(self).spec_sidecar_dir() == old(self).spec_sidecar_dir(),
            final(self).spec_custom_path() == old(self).spec_custom_path(),
            old(self).spec_resolved() matches Some(k) ==> (r matches Ok(v) && (v.ffmpeg@,
                v.ffprobe@, v.source@) == k && final(self).spec_resolved() == Some(k)),
            old(self).spec_resolved() is None ==> match spec_resolve(
                old(self).spec_sidecar_dir(),
                old(self).spec_custom_path(),
                windows,
                probes.sidecar_is_file,
                probes.custom_is_file,
                match probes.system_ffmpeg {
                    Some(f) => Some(f@),
                    None => None,
                },
                match probes.system_ffprobe {
                    Some(p) => Some(p@),
                    None => None,
                },
            ) {
                Ok(k) => r matches Ok(v) && (v.ffmpeg@, v.ffprobe@, v.source@) == k
                    && final(self).spec_resolved() == Some(k),
                Err(m) => r matches Err(AppError::FfmpegNotFound(e)) && e@ == m
                    && final(self).spec_resolved() is None,
            },
    {
        if let Some(r) = &self.resolved {
            return Ok(r.clone_resolved());
        }
        let found = self.locate(windows, probes);
        match found {
            Ok(r) => {
                self.resolved = Some(r.clone_resolved());
                Ok(r)
            },
            Err(e) => Err(e),
        }
    }

    fn locate(&self, windows: bool, probes: &ResolveProbes) -> (r: AppResult<ResolvedFfmpeg>)
        ensures
            match spec_resolve(
                self.spec_sidecar_dir(),
                self.spec_custom_path(),
                windows,
                probes.sidecar_is_file,
                probes.custom_is_file,
                match probes.system_ffmpeg {
                    Some(f) => Some(f@),
                    None => None,
                },
                match probes.system_ffprobe {
                    Some(p) => Some(p@),
                    None => None,
                },
            ) {
                Ok(k) => r matches Ok(v) && (v.ffmpeg@, v.ffprobe@, v.source@) == k,
                Err(m) => r matches Err(AppError::FfmpegNotFound(e)) && e@ == m,
            },
    {
        if let Some(d) = &self.sidecar_dir {
            if probes.sidecar_is_file {
                return Ok(
                    ResolvedFfmpeg {
                        ffmpeg: ffmpeg_binary_name(d.as_str(), windows),
                        ffprobe: ffprobe_binary_name(d.as_str(), windows),
                        source: String::from_str("bundled sidecar"),
                    },
                );
            }
        }
        if let Some(c) = &self.custom_path {
            if probes.custom_is_file {
                let dir = dir_of_path(c.as_str());
                let mut source = String::from_str("custom path: ");
                push_str(&mut source, c.as_str());
                return Ok(
                    ResolvedFfmpeg {
                        ffmpeg: c.clone(),
                        ffprobe: ffprobe_binary_name(dir.as_str(), windows),
                        source,
                    },
                );
            }
        }
        if let Some(f) = &probes.system_ffmpeg {
            let p = match &probes.system_ffprobe {
                Some(p) => p.clone(),
                None => path_join(dir_of_path(f.as_str()).as_str(), "ffprobe"),
            };
            return Ok(
                ResolvedFfmpeg { ffmpeg: f.clone(), ffprobe: p, source: String::from_str("system PATH") },
            );
        }
        Err(
            AppError::FfmpegNotFound(
                String::from_str("FFmpeg not found. Install it or configure a custom path in settings."),
            ),
        )
    }
}

impl ResolvedFfmpeg {
    /// A copy of the place.
    pub fn clone_resolved(&self) -> (r: Self)
        ensures
            r.ffmpeg@ == self.ffmpeg@,
            r.ffprobe@ == self.ffprobe@,
            r.source@ == self.source@,
    {
        ResolvedFfmpeg {
            ffmpeg: self.ffmpeg.clone(),
            ffprobe: self.ffprobe.clone(),
            source: self.source.clone(),
        }
    }
}

/// How the place of FFmpeg is described: the place, or "not found: " and
/// the error's message.
pub fn source_description(resolved: &AppResult<ResolvedFfmpeg>) -> (r: String)
    ensures
        match resolved {
            Ok(v) => r@ == v.source@,
            Err(e) => r@ == "not found: "@ + e.spec_message(),
        },
{
    match resolved {
        Ok(v) => v.source.clone(),
        Err(e) => {
            let mut s = String::from_str("not found: ");
            push_str(&mut s, e.message().as_str());
            s
        },
    }
}

// ---------------------------------------------------------------------------
// Reporting availability
// ---------------------------------------------------------------------------
/// FFmpeg's availability as the user interface shows it.
#[derive(Debug, Clone)]
pub struct FfmpegStatus {
    pub available: bool,
    pub source: String,
    pub capabilities: Option<FfmpegCapabilities>,
    pub error: Option<String>,
}

/// The status for the place's description and the capabilities query's
/// outcome: available with the capabilities, or unavailable with the
/// error's message.
pub fn ffmpeg_status(source: String, capabilities: AppResult<FfmpegCapabilities>) -> (r: FfmpegStatus)
    ensures
        r.source@ == source@,
        match capabilities {
            Ok(c) => r.available && r.capabilities == Some(c) && r.error is None,
            Err(e) => !r.available && r.capabilities is None && (r.error matches Some(m) && m@
                == e.spec_message()),
        },
{
    match capabilities {
        Ok(c) => FfmpegStatus { available: true, source, capabilities: Some(c), error: None },
        Err(e) => FfmpegStatus {
            available: false,
            source,
            capabilities: None,
            error: Some(e.message()),
        },
    }
}

/// A JSON array of quoted names, e.g. `["libx264","aac"]`.
pub open spec fn json_names(names: Seq<Seq<char>>) -> Seq<char>
    decreases names.len(),
{
    "["@ + json_items(names) + "]"@
}

/// The quoted names, separated by commas.
pub open spec fn json_items(names: Seq<Seq<char>>) -> Seq<char>
    decreases names.len(),
{
    if names.len() == 0 {
        seq![]
    } else if names.len() == 1 {
        "\""@ + names[0] + "\""@
    } else {
        json_items(names.drop_last()) + ","@ + "\""@ + names.last() + "\""@
    }
}

fn push_json_item(s: &mut String, first: bool, name: &str)
    ensures
        final(s)@ == old(s)@ + (if first {
            Seq::<char>::empty()
        } else {
            ","@
        }) + "\""@ + name@ + "\""@,
{
    if !first {
        push_str(s, ",");
    }
    push_str(s, "\"");
    push_str(s, name);
    push_str(s, "\"");
    proof {
        if first {
            assert(old(s)@ + Seq::<char>::empty() =~= old(s)@);
        }
    }
}

/// The video encoders' FFmpeg names as a JSON array.
pub fn video_encoders_json(codecs: &Vec<VideoCodec>) -> (r: String)
    ensures
        r@ == json_names(codecs@.map_values(|c: VideoCodec| c.spec_encoder_name())),
{
    let ghost names = codecs@.map_values(|c: VideoCodec| c.spec_encoder_name());
    let mut s = String::from_str("[");
    let mut i: usize = 0;
    while i < codecs.len()
        invariant
            i <= codecs@.len(),
            names == codecs@.map_values(|c: VideoCodec| c.spec_encoder_name()),
            s@ == "["@ + json_items(names.take(i as int)),
        decreases codecs.len() - i,
    {
        push_json_item(&mut s, i == 0, codecs[i].encoder_name());
        proof {
            let t = names.take(i + 1);
            assert(t.drop_last() =~= names.take(i as int));
            assert(t.last() == names[i as int]);
            if i == 0 {
                assert(names.take(0) =~= Seq::<Seq<char>>::empty());
            }
        }
        i = i + 1;
        assert(s@ =~= "["@ + json_items(names.take(i as int)));
    }
    assert(names.take(i as int) =~= names);
    push_str(&mut s, "]");
    s
}

/// The audio encoders' FFmpeg names as a JSON array.
pub fn audio_encoders_json(codecs: &Vec<AudioCodec>) -> (r: String)
    ensures
        r@ == json_names(codecs@.map_values(|c: AudioCodec| c.spec_encoder_name())),
{
    let ghost names = codecs@.map_values(|c: AudioCodec| c.spec_encoder_name());
    let mut s = String::from_str("[");
    let mut i: usize = 0;
    while i < codecs.len()
        invariant
            i <= codecs@.len(),
            names == codecs@.map_values(|c: AudioCodec| c.spec_encoder_name()),
            s@ == "["@ + json_items(names.take(i as int)),
        decreases codecs.len() - i,
    {
        push_json_item(&mut s, i == 0, codecs[i].encoder_name());
        proof {
            let t = names.take(i + 1);
            assert(t.drop_last() =~= names.take(i as int));
            assert(t.last() == names[i as int]);
            if i == 0 {
                assert(names.take(0) =~= Seq::<Seq<char>>::empty());
            }
        }
        i = i + 1;
        assert(s@ =~= "["@ + json_items(names.take(i as int)));
    }
    assert(names.take(i as int) =~= names);
    push_str(&mut s, "]");
    s
}

} // verus!
