//! File-system paths as text, taken apart and put together by std's
//! `Path`.
use vstd::prelude::*;

verus! {

/// What `Path::new(dir).join(name)` gives, as text: `name` put under
/// `dir` with the platform's separator, or `name` alone when it is
/// absolute.
pub uninterp spec fn path_join_spec(dir: Seq<char>, name: Seq<char>) -> Seq<char>;

/// `Path::join`, as text.
#[verifier::external_body]
pub(crate) fn path_join(dir: &str, name: &str) -> (r: String)
    ensures
        r@ == path_join_spec(dir@, name@),
{
    std::path::Path::new(dir).join(name).to_string_lossy().into_owned()
}

} // verus!

verus! {

/// What `Path::file_stem` gives for a path: the file name without its final
/// extension.
pub uninterp spec fn path_file_stem(p: Seq<char>) -> Option<Seq<char>>;

/// What `Path::extension` gives for a path: the file name's part after its
/// final `.`.
pub uninterp spec fn path_extension(p: Seq<char>) -> Option<Seq<char>>;

/// What `Path::parent` gives for a path: the path without its final
/// component.
pub uninterp spec fn path_parent(p: Seq<char>) -> Option<Seq<char>>;

/// `Path::file_stem`, as text (a stem of a `&str` path is always valid
/// UTF-8).
#[verifier::external_body]
pub(crate) fn file_stem(path: &str) -> (r: Option<String>)
    ensures
        match r {
            Some(s) => path_file_stem(path@) == Some(s@),
            None => path_file_stem(path@) is None,
        },
{
    std::path::Path::new(path).file_stem().and_then(|s| s.to_str()).map(String::from)
}

/// `Path::extension`, as text.
#[verifier::external_body]
pub(crate) fn extension(path: &str) -> (r: Option<String>)
    ensures
        match r {
            Some(s) => path_extension(path@) == Some(s@),
            None => path_extension(path@) is None,
        },
{
    std::path::Path::new(path).extension().and_then(|s| s.to_str()).map(String::from)
}

/// `Path::parent`, as text.
#[verifier::external_body]
pub(crate) fn parent(path: &str) -> (r: Option<String>)
    ensures
        match r {
            Some(s) => path_parent(path@) == Some(s@),
            None => path_parent(path@) is None,
        },
{
    std::path::Path::new(path).parent().and_then(|p| p.to_str()).map(String::from)
}

/// The path beside `video` named after its stem with `suffix` appended:
/// `<parent>/<stem><suffix>`, where a path without a stem counts as
/// "recording" and one without a parent as ".".
pub open spec fn sibling_path(video: Seq<char>, suffix: Seq<char>) -> Seq<char> {
    let stem = match path_file_stem(video) {
        Some(s) => s,
        None => "recording"@,
    };
    let dir = match path_parent(video) {
        Some(p) => p,
        None => "."@,
    };
    path_join_spec(dir, stem + suffix)
}

/// `<parent>/<stem><suffix>` beside `video` (see `sibling_path`).
pub fn sibling_with_suffix(video: &str, suffix: &str) -> (r: String)
    ensures
        r@ == sibling_path(video@, suffix@),
{
    let mut name = match file_stem(video) {
        Some(s) => s,
        None => String::from_str("recording"),
    };
    name.append(suffix);
    let dir = match parent(video) {
        Some(p) => p,
        None => String::from_str("."),
    };
    path_join(dir.as_str(), name.as_str())
}

/// The WAV file that a recording's microphone audio goes to:
/// `<parent>/<stem>_audio.wav`.
pub fn audio_output_path(video: &str) -> (r: String)
    ensures
        r@ == sibling_path(video@, "_audio.wav"@),
{
    sibling_with_suffix(video, "_audio.wav")
}

/// The file that the video and its audio are muxed into:
/// `<parent>/<stem>_final.<ext>`, the extension "mp4" when the video has
/// none.
pub fn muxed_output_path(video: &str) -> (r: String)
    ensures
        r@ == sibling_path(
            video@,
            "_final."@ + match path_extension(video@) {
                Some(e) => e,
                None => "mp4"@,
            },
        ),
{
    let mut suffix = String::from_str("_final.");
    match extension(video) {
        Some(e) => suffix.append(e.as_str()),
        None => suffix.append("mp4"),
    }
    sibling_with_suffix(video, suffix.as_str())
}

/// What `Path::with_file_name` gives: the path with its file name replaced
/// by (or, without one, extended with) `name`.
pub uninterp spec fn path_with_file_name(p: Seq<char>, name: Seq<char>) -> Seq<char>;

/// What `Path::with_extension` gives: the path with its extension replaced
/// by (or, without one, extended with) `ext`.
pub uninterp spec fn path_with_extension(p: Seq<char>, ext: Seq<char>) -> Seq<char>;

/// `Path::with_file_name`, as text.
#[verifier::external_body]
pub(crate) fn with_file_name(path: &str, name: &str) -> (r: String)
    ensures
        r@ == path_with_file_name(path@, name@),
{
    std::path::Path::new(path).with_file_name(name).to_string_lossy().into_owned()
}

/// `Path::with_extension`, as text. `PathBuf::set_extension` panics on an
/// extension that holds a path separator (`/`, and a backslash on Windows),
/// so such extensions are not accepted.
#[verifier::external_body]
pub(crate) fn with_extension(path: &str, ext: &str) -> (r: String)
    requires
        !ext@.contains('/'),
        !ext@.contains('\\'),
    ensures
        r@ == path_with_extension(path@, ext@),
{
    std::path::Path::new(path).with_extension(ext).to_string_lossy().into_owned()
}

} // verus!
