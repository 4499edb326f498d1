//! What an FFmpeg installation can do, read from the output of
//! `ffmpeg -version` and `ffmpeg -hide_banner -encoders`.
use vstd::prelude::*;

use super::codec::{AudioCodec, FfmpegCapabilities, VideoCodec};
use crate::text::{
    chars_eq, chars_of, contains, has_prefix, lines, lines_spec, occurs_in, starts_with, string_of,
    views, words, words_spec,
};

verus! {

/// The version that `ffmpeg -version` prints on its first line, e.g.
/// "ffmpeg version 6.1.1 Copyright ..." gives "6.1.1"; "unknown" when
/// there is no first line or no word on it.
pub open spec fn spec_version(out: Seq<char>) -> Seq<char> {
    let ls = lines_spec(out);
    let line = if ls.len() > 0 {
        ls[0]
    } else {
        "unknown"@
    };
    let rest = if has_prefix(line, "ffmpeg version "@) {
        line.skip(15)
    } else {
        line
    };
    let ws = words_spec(rest);
    if ws.len() > 0 {
        ws[0]
    } else {
        "unknown"@
    }
}

/// The version in the output of `ffmpeg -version`.
pub fn parse_version(out: &str) -> (r: String)
    ensures
        r@ == spec_version(out@),
{
    let text = chars_of(out);
    let ls = lines(text.as_slice());
    let line: Vec<char> = if ls.len() > 0 {
        proof {
            assert(ls@[0]@ == views(ls@)[0]);
        }
        chars_of(string_of(ls[0].as_slice()).as_str())
    } else {
        chars_of("unknown")
    };
    let prefix = chars_of("ffmpeg version ");
    proof {
        reveal_strlit("ffmpeg version ");
    }
    let rest: Vec<char> = if starts_with(line.as_slice(), prefix.as_slice()) {
        let mut v: Vec<char> = Vec::new();
        crate::text::append_range(&mut v, line.as_slice(), 15, line.len());
        assert(v@ =~= line@.skip(15));
        v
    } else {
        line
    };
    let ws = words(rest.as_slice());
    if ws.len() > 0 {
        proof {
            assert(ws@[0]@ == views(ws@)[0]);
        }
        string_of(ws[0].as_slice())
    } else {
        String::from_str("unknown")
    }
}

/// `seq![c]` when `b` holds, else nothing.
pub open spec fn listed_if<T>(b: bool, c: T) -> Seq<T> {
    if b {
        seq![c]
    } else {
        seq![]
    }
}

/// The video encoders, in order H.264, H.265, VP9, AV1, whose FFmpeg name
/// occurs anywhere in the `-encoders` output.
pub open spec fn spec_video_encoders(out: Seq<char>) -> Seq<VideoCodec> {
    listed_if(occurs_in(out, "libx264"@), VideoCodec::H264) + listed_if(
        occurs_in(out, "libx265"@),
        VideoCodec::H265,
    ) + listed_if(occurs_in(out, "libvpx-vp9"@), VideoCodec::Vp9) + listed_if(
        occurs_in(out, "libaom-av1"@),
        VideoCodec::Av1,
    )
}

/// The position of a video codec in the order encoders are reported in.
pub open spec fn video_codec_rank(v: VideoCodec) -> int {
    match v {
        VideoCodec::H264 => 0,
        VideoCodec::H265 => 1,
        VideoCodec::Vp9 => 2,
        VideoCodec::Av1 => 3,
    }
}

/// The law of encoder detection: a video codec is reported exactly when
/// its FFmpeg encoder's name (libx264, libx265, libvpx-vp9, libaom-av1)
/// occurs in the `-encoders` output, each at most once, in the order H.264,
/// H.265, VP9, AV1.
pub proof fn lemma_video_encoders_found(out: Seq<char>)
    ensures
        spec_video_encoders(out).contains(VideoCodec::H264) <==> occurs_in(out, "libx264"@),
        spec_video_encoders(out).contains(VideoCodec::H265) <==> occurs_in(out, "libx265"@),
        spec_video_encoders(out).contains(VideoCodec::Vp9) <==> occurs_in(out, "libvpx-vp9"@),
        spec_video_encoders(out).contains(VideoCodec::Av1) <==> occurs_in(out, "libaom-av1"@),
        forall|i: int, j: int|
            0 <= i < j < spec_video_encoders(out).len() ==> video_codec_rank(
                #[trigger] spec_video_encoders(out)[i],
            ) < video_codec_rank(#[trigger] spec_video_encoders(out)[j]),
{
    let a = listed_if(occurs_in(out, "libx264"@), VideoCodec::H264);
    let b = listed_if(occurs_in(out, "libx265"@), VideoCodec::H265);
    let c = listed_if(occurs_in(out, "libvpx-vp9"@), VideoCodec::Vp9);
    let d = listed_if(occurs_in(out, "libaom-av1"@), VideoCodec::Av1);
    let r = spec_video_encoders(out);
    assert(r == a + b + c + d);
    let ra = a;
    let rb = a + b;
    let rc = a + b + c;
    assert forall|k: int| 0 <= k < r.len() implies (#[trigger] r[k] == VideoCodec::H264 <==> (
    k < a.len())) && (r[k] == VideoCodec::H265 <==> (a.len() <= k < rb.len())) && (r[k]
        == VideoCodec::Vp9 <==> (rb.len() <= k < rc.len())) && (r[k] == VideoCodec::Av1 <==> (
    rc.len() <= k)) by {
        if k < a.len() {
            assert(r[k] == a[k]);
        } else if k < rb.len() {
            assert(r[k] == b[k - a.len()]);
        } else if k < rc.len() {
            assert(r[k] == c[k - rb.len()]);
        } else {
            assert(r[k] == d[k - rc.len()]);
        }
    }
    if occurs_in(out, "libx264"@) {
        assert(r[0] == VideoCodec::H264);
    }
    if occurs_in(out, "libx265"@) {
        assert(r[a.len() as int] == VideoCodec::H265);
    }
    if occurs_in(out, "libvpx-vp9"@) {
        assert(r[rb.len() as int] == VideoCodec::Vp9);
    }
    if occurs_in(out, "libaom-av1"@) {
        assert(r[rc.len() as int] == VideoCodec::Av1);
    }
}

/// Video encoders listed in the output of `ffmpeg -hide_banner -encoders`.
pub fn detect_video_encoders(out: &str) -> (r: Vec<VideoCodec>)
    ensures
        r@ == spec_video_encoders(out@),
{
    let text = chars_of(out);
    let mut codecs: Vec<VideoCodec> = Vec::new();
    if contains(text.as_slice(), chars_of("libx264").as_slice()) {
        codecs.push(VideoCodec::H264);
    }
    if contains(text.as_slice(), chars_of("libx265").as_slice()) {
        codecs.push(VideoCodec::H265);
    }
    if contains(text.as_slice(), chars_of("libvpx-vp9").as_slice()) {
        codecs.push(VideoCodec::Vp9);
    }
    if contains(text.as_slice(), chars_of("libaom-av1").as_slice()) {
        codecs.push(VideoCodec::Av1);
    }
    assert(codecs@ =~= spec_video_encoders(out@));
    codecs
}

/// Some line of the `-encoders` output has `name` as its second word, as
/// in " A..... aac  AAC (Advanced Audio Coding)".
pub open spec fn lists_encoder(out: Seq<char>, name: Seq<char>) -> bool {
    exists|i: int|
        0 <= i < lines_spec(out).len() && words_spec(#[trigger] lines_spec(out)[i]).len() > 1
            && words_spec(lines_spec(out)[i])[1] == name
}

/// The audio encoders, in order AAC, Opus, MP3, that some line lists by
/// name; AAC also when it is not listed so but " aac " occurs anywhere,
/// FFmpeg's built-in AAC encoder.
pub open spec fn spec_audio_encoders(out: Seq<char>) -> Seq<AudioCodec> {
    let listed = listed_if(lists_encoder(out, "aac"@), AudioCodec::Aac) + listed_if(
        lists_encoder(out, "libopus"@),
        AudioCodec::Opus,
    ) + listed_if(lists_encoder(out, "libmp3lame"@), AudioCodec::Mp3);
    if !lists_encoder(out, "aac"@) && occurs_in(out, " aac "@) {
        listed.push(AudioCodec::Aac)
    } else {
        listed
    }
}

fn listed(ls: &Vec<Vec<char>>, name: &str) -> (r: bool)
    ensures
        r == exists|i: int|
            0 <= i < ls@.len() && words_spec(#[trigger] views(ls@)[i]).len() > 1 && words_spec(
                views(ls@)[i],
            )[1] == name@,
{
    let n = chars_of(name);
    let mut i: usize = 0;
    while i < ls.len()
        invariant
            i <= ls@.len(),
            n@ == name@,
            forall|j: int|
                0 <= j < i ==> !(words_spec(#[trigger] views(ls@)[j]).len() > 1 && words_spec(
                    views(ls@)[j],
                )[1] == name@),
        decreases ls.len() - i,
    {
        let ws = words(ls[i].as_slice());
        proof {
            assert(views(ls@)[i as int] == ls@[i as int]@);
        }
        if ws.len() > 1 {
            proof {
                assert(ws@[1]@ == views(ws@)[1]);
            }
            if chars_eq(ws[1].as_slice(), n.as_slice()) {
                return true;
            }
        }
        i = i + 1;
    }
    false
}

/// The law of audio encoder detection: AAC is reported exactly when some
/// line lists `aac` as its encoder or " aac " occurs anywhere; Opus and
/// MP3 exactly when some line lists libopus or libmp3lame; none twice.
pub proof fn lemma_audio_encoders_found(out: Seq<char>)
    ensures
        spec_audio_encoders(out).contains(AudioCodec::Aac) <==> (lists_encoder(out, "aac"@)
            || occurs_in(out, " aac "@)),
        spec_audio_encoders(out).contains(AudioCodec::Opus) <==> lists_encoder(out, "libopus"@),
        spec_audio_encoders(out).contains(AudioCodec::Mp3) <==> lists_encoder(out, "libmp3lame"@),
        forall|i: int, j: int|
            0 <= i < j < spec_audio_encoders(out).len() ==> #[trigger] spec_audio_encoders(out)[i]
                != #[trigger] spec_audio_encoders(out)[j],
{
    let a = listed_if(lists_encoder(out, "aac"@), AudioCodec::Aac);
    let b = listed_if(lists_encoder(out, "libopus"@), AudioCodec::Opus);
    let c = listed_if(lists_encoder(out, "libmp3lame"@), AudioCodec::Mp3);
    let listed = a + b + c;
    let extra = !lists_encoder(out, "aac"@) && occurs_in(out, " aac "@);
    let r = spec_audio_encoders(out);
    let e = listed_if(extra, AudioCodec::Aac);
    assert(r =~= listed + e);
    let rb = a + b;
    assert forall|k: int| 0 <= k < r.len() implies (#[trigger] r[k] == AudioCodec::Aac <==> (k
        < a.len() || listed.len() <= k)) && (r[k] == AudioCodec::Opus <==> (a.len() <= k
        < rb.len())) && (r[k] == AudioCodec::Mp3 <==> (rb.len() <= k < listed.len())) by {
        if k < a.len() {
            assert(r[k] == a[k]);
        } else if k < rb.len() {
            assert(r[k] == b[k - a.len()]);
        } else if k < listed.len() {
            assert(r[k] == c[k - rb.len()]);
        } else {
            assert(r[k] == e[k - listed.len()]);
        }
    }
    if lists_encoder(out, "aac"@) {
        assert(r[0] == AudioCodec::Aac);
    }
    if extra {
        assert(r[listed.len() as int] == AudioCodec::Aac);
    }
    if lists_encoder(out, "libopus"@) {
        assert(r[a.len() as int] == AudioCodec::Opus);
    }
    if lists_encoder(out, "libmp3lame"@) {
        assert(r[rb.len() as int] == AudioCodec::Mp3);
    }
}

/// Audio encoders listed in the output of `ffmpeg -hide_banner -encoders`.
pub fn detect_audio_encoders(out: &str) -> (r: Vec<AudioCodec>)
    ensures
        r@ == spec_audio_encoders(out@),
{
    let text = chars_of(out);
    let ls = lines(text.as_slice());
    let mut codecs: Vec<AudioCodec> = Vec::new();
    let aac = listed(&ls, "aac");
    if aac {
        codecs.push(AudioCodec::Aac);
    }
    if listed(&ls, "libopus") {
        codecs.push(AudioCodec::Opus);
    }
    if listed(&ls, "libmp3lame") {
        codecs.push(AudioCodec::Mp3);
    }
    assert(codecs@ =~= listed_if(lists_encoder(out@, "aac"@), AudioCodec::Aac) + listed_if(
        lists_encoder(out@, "libopus"@),
        AudioCodec::Opus,
    ) + listed_if(lists_encoder(out@, "libmp3lame"@), AudioCodec::Mp3));
    if !aac && contains(text.as_slice(), chars_of(" aac ").as_slice()) {
        codecs.push(AudioCodec::Aac);
    }
    codecs
}

/// What FFmpeg can do, from the outputs of `ffmpeg -version` and of the
/// two `ffmpeg -hide_banner -encoders` runs (video, then audio).
pub fn query_capabilities(version_out: &str, video_out: &str, audio_out: &str) -> (r: FfmpegCapabilities)
    ensures
        r.version@ == spec_version(version_out@),
        r.video_encoders@ == spec_video_encoders(video_out@),
        r.audio_encoders@ == spec_audio_encoders(audio_out@),
{
    FfmpegCapabilities {
        version: parse_version(version_out),
        video_encoders: detect_video_encoders(video_out),
        audio_encoders: detect_audio_encoders(audio_out),
    }
}

} // verus!
