//! Audio extensions and the MIME types served for them.
use vstd::prelude::*;
use crate::text::{eq_ignore_ascii_case, same_ignoring_ascii_case};

verus! {

/// MIME type for a file extension, compared without regard to ASCII case;
/// an extension outside the table is served as MPEG audio. No character but
/// an ASCII letter lower-cases onto a letter of the table's entries, so the
/// ASCII comparison decides as a full Unicode lower-casing would.
pub open spec fn mime_of(ext: Seq<char>) -> Seq<char> {
    if same_ignoring_ascii_case(ext, "mp3"@) {
        "audio/mpeg"@
    } else if same_ignoring_ascii_case(ext, "wav"@) {
        "audio/wav"@
    } else if same_ignoring_ascii_case(ext, "ogg"@) {
        "audio/ogg"@
    } else if same_ignoring_ascii_case(ext, "flac"@) {
        "audio/flac"@
    } else if same_ignoring_ascii_case(ext, "m4a"@) {
        "audio/mp4"@
    } else if same_ignoring_ascii_case(ext, "aac"@) {
        "audio/aac"@
    } else if same_ignoring_ascii_case(ext, "wma"@) {
        "audio/x-ms-wma"@
    } else {
        "audio/mpeg"@
    }
}

/// The extension is one of the recognised audio formats, in any ASCII case.
pub open spec fn is_audio_ext(ext: Seq<char>) -> bool {
    ||| same_ignoring_ascii_case(ext, "mp3"@)
    ||| same_ignoring_ascii_case(ext, "wav"@)
    ||| same_ignoring_ascii_case(ext, "ogg"@)
    ||| same_ignoring_ascii_case(ext, "flac"@)
    ||| same_ignoring_ascii_case(ext, "m4a"@)
    ||| same_ignoring_ascii_case(ext, "aac"@)
    ||| same_ignoring_ascii_case(ext, "wma"@)
}

/// MIME type used to play a file with the given extension.
pub fn get_mime_type(extension: &str) -> (r: &'static str)
    ensures
        r@ == mime_of(extension@),
{
    if eq_ignore_ascii_case(extension, "mp3") {
        "audio/mpeg"
    } else if eq_ignore_ascii_case(extension, "wav") {
        "audio/wav"
    } else if eq_ignore_ascii_case(extension, "ogg") {
        "audio/ogg"
    } else if eq_ignore_ascii_case(extension, "flac") {
        "audio/flac"
    } else if eq_ignore_ascii_case(extension, "m4a") {
        "audio/mp4"
    } else if eq_ignore_ascii_case(extension, "aac") {
        "audio/aac"
    } else if eq_ignore_ascii_case(extension, "wma") {
        "audio/x-ms-wma"
    } else {
        "audio/mpeg"
    }
}

/// Whether files with this extension are picked up as audio.
pub fn is_audio_extension(extension: &str) -> (r: bool)
    ensures
        r == is_audio_ext(extension@),
{
    eq_ignore_ascii_case(extension, "mp3") || eq_ignore_ascii_case(extension, "wav")
        || eq_ignore_ascii_case(extension, "ogg") || eq_ignore_ascii_case(extension, "flac")
        || eq_ignore_ascii_case(extension, "m4a") || eq_ignore_ascii_case(extension, "aac")
        || eq_ignore_ascii_case(extension, "wma")
}

} // verus!
