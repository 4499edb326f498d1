//! A builder for FFmpeg command lines. It only assembles arguments; running
//! FFmpeg is somebody else's business.
use vstd::prelude::*;

use super::codec::{AudioCodec, ContainerFormat, VideoCodec};
use crate::text::{decimal, decimal_string, push_char, push_decimal};

verus! {

/// A builder for constructing FFmpeg command-line arguments.
#[derive(Debug, Clone)]
pub struct FfmpegCommand {
    args: Vec<String>,
}

/// The contents of a list of strings.
pub open spec fn string_views(v: Seq<String>) -> Seq<Seq<char>> {
    v.map_values(|s: String| s@)
}

/// The resolution argument `<width>x<height>`.
pub open spec fn resolution_arg(width: u32, height: u32) -> Seq<char> {
    decimal(width as nat) + seq!['x'] + decimal(height as nat)
}

impl View for FfmpegCommand {
    type V = Seq<Seq<char>>;

    closed spec fn view(&self) -> Seq<Seq<char>> {
        string_views(self.args@)
    }
}

impl FfmpegCommand {
    /// Appends one argument.
    fn push_arg(&mut self, a: String)
        ensures
            final(self)@ == old(self)@.push(a@),
    {
        self.args.push(a);
        assert(final(self)@ =~= old(self)@.push(a@));
    }

    /// Appends a flag and its value.
    fn push_pair(self, flag: &str, value: String) -> (r: Self)
        ensures
            r@ == self@.push(flag@).push(value@),
    {
        let mut c = self;
        c.push_arg(String::from_str(flag));
        c.push_arg(value);
        c
    }

    /// A command that starts with `-hide_banner`.
    pub fn new() -> (r: Self)
        ensures
            r@ == seq!["-hide_banner"@],
    {
        let mut c = FfmpegCommand { args: Vec::new() };
        c.push_arg(String::from_str("-hide_banner"));
        assert(c@ =~= seq!["-hide_banner"@]);
        c
    }

    /// Add `-y` to overwrite output without asking.
    pub fn overwrite(self) -> (r: Self)
        ensures
            r@ == self@.push("-y"@),
    {
        let mut c = self;
        c.push_arg(String::from_str("-y"));
        c
    }

    /// Add an input file: `-i <path>`
    pub fn input(self, path: &str) -> (r: Self)
        ensures
            r@ == self@.push("-i"@).push(path@),
    {
        self.push_pair("-i", String::from_str(path))
    }

    /// Read from stdin pipe: `-i pipe:0`
    pub fn input_pipe(self) -> (r: Self)
        ensures
            r@ == self@.push("-i"@).push("pipe:0"@),
    {
        self.push_pair("-i", String::from_str("pipe:0"))
    }

    /// Set video codec: `-c:v <encoder>`
    pub fn video_codec(self, codec: &VideoCodec) -> (r: Self)
        ensures
            r@ == self@.push("-c:v"@).push(codec.spec_encoder_name()),
    {
        self.push_pair("-c:v", String::from_str(codec.encoder_name()))
    }

    /// Set audio codec: `-c:a <encoder>`
    pub fn audio_codec(self, codec: &AudioCodec) -> (r: Self)
        ensures
            r@ == self@.push("-c:a"@).push(codec.spec_encoder_name()),
    {
        self.push_pair("-c:a", String::from_str(codec.encoder_name()))
    }

    /// Set output format: `-f <format>`
    pub fn format(self, fmt: &ContainerFormat) -> (r: Self)
        ensures
            r@ == self@.push("-f"@).push(fmt.spec_ffmpeg_format()),
    {
        self.push_pair("-f", String::from_str(fmt.ffmpeg_format()))
    }

    /// Set video framerate: `-r <fps>`
    pub fn framerate(self, fps: u32) -> (r: Self)
        ensures
            r@ == self@.push("-r"@).push(decimal(fps as nat)),
    {
        self.push_pair("-r", decimal_string(fps as u64))
    }

    /// Set video resolution: `-s <width>x<height>`
    pub fn resolution(self, width: u32, height: u32) -> (r: Self)
        ensures
            r@ == self@.push("-s"@).push(resolution_arg(width, height)),
    {
        let mut v = String::new();
        push_decimal(&mut v, width as u64);
        push_char(&mut v, 'x');
        push_decimal(&mut v, height as u64);
        assert(v@ =~= resolution_arg(width, height));
        self.push_pair("-s", v)
    }

    /// Set pixel format: `-pix_fmt <fmt>`
    pub fn pixel_format(self, fmt: &str) -> (r: Self)
        ensures
            r@ == self@.push("-pix_fmt"@).push(fmt@),
    {
        self.push_pair("-pix_fmt", String::from_str(fmt))
    }

    /// Add a video filter: `-vf <filter>`
    pub fn video_filter(self, filter: &str) -> (r: Self)
        ensures
            r@ == self@.push("-vf"@).push(filter@),
    {
        self.push_pair("-vf", String::from_str(filter))
    }

    /// Add an audio filter: `-af <filter>`
    pub fn audio_filter(self, filter: &str) -> (r: Self)
        ensures
            r@ == self@.push("-af"@).push(filter@),
    {
        self.push_pair("-af", String::from_str(filter))
    }

    /// Add a complex filter graph: `-filter_complex <graph>`
    pub fn filter_complex(self, graph: &str) -> (r: Self)
        ensures
            r@ == self@.push("-filter_complex"@).push(graph@),
    {
        self.push_pair("-filter_complex", String::from_str(graph))
    }

    /// Set CRF quality: `-crf <value>` (0=lossless, 23=default, 51=worst)
    pub fn crf(self, value: u8) -> (r: Self)
        ensures
            r@ == self@.push("-crf"@).push(decimal(value as nat)),
    {
        self.push_pair("-crf", decimal_string(value as u64))
    }

    /// Set encoding preset: `-preset <preset>`
    pub fn preset(self, preset: &str) -> (r: Self)
        ensures
            r@ == self@.push("-preset"@).push(preset@),
    {
        self.push_pair("-preset", String::from_str(preset))
    }

    /// Add an arbitrary argument.
    pub fn arg(self, arg: &str) -> (r: Self)
        ensures
            r@ == self@.push(arg@),
    {
        let mut c = self;
        c.push_arg(String::from_str(arg));
        c
    }

    /// Set the output file path (must be last).
    pub fn output(self, path: &str) -> (r: Self)
        ensures
            r@ == self@.push(path@),
    {
        let mut c = self;
        c.push_arg(String::from_str(path));
        c
    }

    /// Output to stdout pipe: `pipe:1`
    pub fn output_pipe(self) -> (r: Self)
        ensures
            r@ == self@.push("pipe:1"@),
    {
        let mut c = self;
        c.push_arg(String::from_str("pipe:1"));
        c
    }

    /// Return the assembled argument list.
    pub fn build(self) -> (r: Vec<String>)
        ensures
            string_views(r@) == self@,
    {
        self.args
    }
}

impl Default for FfmpegCommand {
    fn default() -> (r: Self)
        ensures
            r@ == seq!["-hide_banner"@],
    {
        Self::new()
    }
}

} // verus!
