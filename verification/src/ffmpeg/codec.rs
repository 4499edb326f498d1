//! Codecs and containers, with the names FFmpeg knows them by.
use vstd::prelude::*;

verus! {

/// Video codecs the recorder can encode with.
#[derive(Debug, Clone, Copy, PartialEq, Eq, Hash, Structural)]
pub enum VideoCodec {
    H264,
    H265,
    Vp9,
    Av1,
}

impl VideoCodec {
    pub open spec fn spec_encoder_name(&self) -> Seq<char> {
        match self {
            VideoCodec::H264 => "libx264"@,
            VideoCodec::H265 => "libx265"@,
            VideoCodec::Vp9 => "libvpx-vp9"@,
            VideoCodec::Av1 => "libaom-av1"@,
        }
    }

    pub open spec fn spec_probe_name(&self) -> Seq<char> {
        match self {
            VideoCodec::H264 => "h264"@,
            VideoCodec::H265 => "hevc"@,
            VideoCodec::Vp9 => "vp9"@,
            VideoCodec::Av1 => "av1"@,
        }
    }

    /// The FFmpeg encoder name for this codec.
    pub fn encoder_name(&self) -> (r: &'static str)
        ensures
            r@ == self.spec_encoder_name(),
            *self == VideoCodec::H264 ==> r@ == "libx264"@,
            *self == VideoCodec::H265 ==> r@ == "libx265"@,
            *self == VideoCodec::Vp9 ==> r@ == "libvpx-vp9"@,
            *self == VideoCodec::Av1 ==> r@ == "libaom-av1"@,
    {
        match self {
            VideoCodec::H264 => "libx264",
            VideoCodec::H265 => "libx265",
            VideoCodec::Vp9 => "libvpx-vp9",
            VideoCodec::Av1 => "libaom-av1",
        }
    }

    /// The FFmpeg codec flag used in `-codecs` output.
    pub fn probe_name(&self) -> (r: &'static str)
        ensures
            r@ == self.spec_probe_name(),
            *self == VideoCodec::H264 ==> r@ == "h264"@,
            *self == VideoCodec::H265 ==> r@ == "hevc"@,
            *self == VideoCodec::Vp9 ==> r@ == "vp9"@,
            *self == VideoCodec::Av1 ==> r@ == "av1"@,
    {
        match self {
            VideoCodec::H264 => "h264",
            VideoCodec::H265 => "hevc",
            VideoCodec::Vp9 => "vp9",
            VideoCodec::Av1 => "av1",
        }
    }
}

/// Audio codecs the recorder can encode with.
#[derive(Debug, Clone, Copy, PartialEq, Eq, Hash, Structural)]
pub enum AudioCodec {
    Aac,
    Opus,
    Mp3,
}

impl AudioCodec {
    pub open spec fn spec_encoder_name(&self) -> Seq<char> {
        match self {
            AudioCodec::Aac => "aac"@,
            AudioCodec::Opus => "libopus"@,
            AudioCodec::Mp3 => "libmp3lame"@,
        }
    }

    /// The FFmpeg encoder name for this codec.
    pub fn encoder_name(&self) -> (r: &'static str)
        ensures
            r@ == self.spec_encoder_name(),
            *self == AudioCodec::Aac ==> r@ == "aac"@,
            *self == AudioCodec::Opus ==> r@ == "libopus"@,
            *self == AudioCodec::Mp3 ==> r@ == "libmp3lame"@,
    {
        match self {
            AudioCodec::Aac => "aac",
            AudioCodec::Opus => "libopus",
            AudioCodec::Mp3 => "libmp3lame",
        }
    }
}

/// Output container formats.
#[derive(Debug, Clone, Copy, PartialEq, Eq, Structural)]
pub enum ContainerFormat {
    Mp4,
    Webm,
    Mkv,
    Gif,
}

impl ContainerFormat {
    pub open spec fn spec_extension(&self) -> Seq<char> {
        match self {
            ContainerFormat::Mp4 => "mp4"@,
            ContainerFormat::Webm => "webm"@,
            ContainerFormat::Mkv => "mkv"@,
            ContainerFormat::Gif => "gif"@,
        }
    }

    pub open spec fn spec_ffmpeg_format(&self) -> Seq<char> {
        match self {
            ContainerFormat::Mp4 => "mp4"@,
            ContainerFormat::Webm => "webm"@,
            ContainerFormat::Mkv => "matroska"@,
            ContainerFormat::Gif => "gif"@,
        }
    }

    /// The file extension for this container.
    pub fn extension(&self) -> (r: &'static str)
        ensures
            r@ == self.spec_extension(),
            *self == ContainerFormat::Mp4 ==> r@ == "mp4"@,
            *self == ContainerFormat::Webm ==> r@ == "webm"@,
            *self == ContainerFormat::Mkv ==> r@ == "mkv"@,
            *self == ContainerFormat::Gif ==> r@ == "gif"@,
    {
        match self {
            ContainerFormat::Mp4 => "mp4",
            ContainerFormat::Webm => "webm",
            ContainerFormat::Mkv => "mkv",
            ContainerFormat::Gif => "gif",
        }
    }

    /// The name FFmpeg's `-f` option takes for this container.
    pub fn ffmpeg_format(&self) -> (r: &'static str)
        ensures
            r@ == self.spec_ffmpeg_format(),
            *self == ContainerFormat::Mp4 ==> r@ == "mp4"@,
            *self == ContainerFormat::Webm ==> r@ == "webm"@,
            *self == ContainerFormat::Mkv ==> r@ == "matroska"@,
            *self == ContainerFormat::Gif ==> r@ == "gif"@,
    {
        match self {
            ContainerFormat::Mp4 => "mp4",
            ContainerFormat::Webm => "webm",
            ContainerFormat::Mkv => "matroska",
            ContainerFormat::Gif => "gif",
        }
    }
}

/// The names FFmpeg knows each codec and container by: the encoders
/// libx264, libx265, libvpx-vp9 and libaom-av1 for H.264, H.265, VP9 and
/// AV1; aac, libopus and libmp3lame for AAC, Opus and MP3; the containers'
/// extensions and `-f` names (Matroska is "mkv" on disk, "matroska" to
/// FFmpeg).
pub proof fn lemma_ffmpeg_names()
    ensures
        VideoCodec::H264.spec_encoder_name() == "libx264"@,
        VideoCodec::H265.spec_encoder_name() == "libx265"@,
        VideoCodec::Vp9.spec_encoder_name() == "libvpx-vp9"@,
        VideoCodec::Av1.spec_encoder_name() == "libaom-av1"@,
        VideoCodec::H264.spec_probe_name() == "h264"@,
        VideoCodec::H265.spec_probe_name() == "hevc"@,
        VideoCodec::Vp9.spec_probe_name() == "vp9"@,
        VideoCodec::Av1.spec_probe_name() == "av1"@,
        AudioCodec::Aac.spec_encoder_name() == "aac"@,
        AudioCodec::Opus.spec_encoder_name() == "libopus"@,
        AudioCodec::Mp3.spec_encoder_name() == "libmp3lame"@,
        ContainerFormat::Mp4.spec_extension() == "mp4"@,
        ContainerFormat::Webm.spec_extension() == "webm"@,
        ContainerFormat::Mkv.spec_extension() == "mkv"@,
        ContainerFormat::Gif.spec_extension() == "gif"@,
        ContainerFormat::Mp4.spec_ffmpeg_format() == "mp4"@,
        ContainerFormat::Webm.spec_ffmpeg_format() == "webm"@,
        ContainerFormat::Mkv.spec_ffmpeg_format() == "matroska"@,
        ContainerFormat::Gif.spec_ffmpeg_format() == "gif"@,
{
}

/// Different video codecs are encoded by different FFmpeg encoders.
pub proof fn lemma_video_encoders_distinct(a: VideoCodec, b: VideoCodec)
    requires
        a != b,
    ensures
        a.spec_encoder_name() != b.spec_encoder_name(),
{
    reveal_strlit("libx264");
    reveal_strlit("libx265");
    reveal_strlit("libvpx-vp9");
    reveal_strlit("libaom-av1");
    let (x, y) = (a.spec_encoder_name(), b.spec_encoder_name());
    if x.len() == y.len() {
        assert(x[3] != y[3] || x[6] != y[6]);
    }
}

/// Describes what an FFmpeg installation can do.
#[derive(Debug, Clone)]
pub struct FfmpegCapabilities {
    pub version: String,
    pub video_encoders: Vec<VideoCodec>,
    pub audio_encoders: Vec<AudioCodec>,
}

} // verus!
