//! Whole-file contents packaged for transport to the player.
use vstd::prelude::*;
use base64::Engine;
use vstd::string::StringExecFns;
use crate::mime::{get_mime_type, mime_of};
use crate::path::{extension_of, file_name, file_name_of, split_extension};

verus! {

/// A file's contents as printable text, with its MIME type and name.
#[derive(Debug, PartialEq, Eq)]
pub struct FileBuffer {
    /// The bytes in standard, padded base64.
    pub buffer: String,
    pub mime_type: String,
    pub name: String,
}

/// The standard base64 alphabet's padded encoding of `b`.
pub uninterp spec fn base64_of(b: Seq<u8>) -> Seq<char>;

/// Relies on base64's `STANDARD.encode`: the padded standard encoding, four
/// characters for each started group of three bytes. It panics only when that
/// length overflows `usize`, which the bound rules out.
#[verifier::external_body]
fn encode_base64(bytes: &Vec<u8>) -> (r: String)
    requires
        bytes@.len() <= usize::MAX / 2,
    ensures
        r@ == base64_of(bytes@),
        r@.len() == 4 * ((bytes@.len() + 2) / 3),
{
    base64::engine::general_purpose::STANDARD.encode(bytes)
}

/// The text of an optional string.
pub open spec fn text_view(s: Option<String>) -> Option<Seq<char>> {
    match s {
        Some(t) => Some(t@),
        None => None,
    }
}

/// Name reported for a file: its file name, or `unknown` when it has none.
pub open spec fn buffer_name(file_name: Option<Seq<char>>) -> Seq<char> {
    match file_name {
        Some(n) => n,
        None => "unknown"@,
    }
}

/// MIME type for a file: from its extension, or as for `mp3` when it has none.
pub open spec fn buffer_mime(file_name: Option<Seq<char>>) -> Seq<char> {
    match file_name {
        Some(n) => match extension_of(n) {
            Some(e) => mime_of(e),
            None => mime_of("mp3"@),
        },
        None => mime_of("mp3"@),
    }
}

/// Packages already encoded contents with the name and type of the file
/// whose file name (if any) is given.
pub fn buffer_from_parts(file_name: Option<String>, encoded: String) -> (r: FileBuffer)
    ensures
        r.buffer@ == encoded@,
        r.name@ == buffer_name(text_view(file_name)),
        r.mime_type@ == buffer_mime(text_view(file_name)),
{
    match file_name {
        Some(n) => {
            let (_stem, ext) = split_extension(n.as_str());
            let mime = match ext {
                Some(e) => get_mime_type(e.as_str()),
                None => get_mime_type("mp3"),
            };
            FileBuffer { buffer: encoded, mime_type: String::from_str(mime), name: n }
        },
        None => FileBuffer {
            buffer: encoded,
            mime_type: String::from_str(get_mime_type("mp3")),
            name: String::from_str("unknown"),
        },
    }
}

/// The transport record for the contents `bytes` read from `file_path`.
pub fn file_buffer(file_path: &str, bytes: &Vec<u8>) -> (r: FileBuffer)
    requires
        bytes@.len() <= isize::MAX,
    ensures
        r.buffer@ == base64_of(bytes@),
        r.name@ == buffer_name(file_name_of(file_path@)),
        r.mime_type@ == buffer_mime(file_name_of(file_path@)),
{
    let encoded = encode_base64(bytes);
    let name = file_name(file_path);
    proof {
        assert(text_view(name) == file_name_of(file_path@));
    }
    buffer_from_parts(name, encoded)
}

/// The transport record for the file at `file_path`, given its contents, or
/// nothing when the file does not exist (`contents` is `None`).
pub fn read_file_buffer(file_path: &str, contents: Option<Vec<u8>>) -> (r: Option<FileBuffer>)
    requires
        contents matches Some(b) ==> b@.len() <= isize::MAX,
    ensures
        contents is None <==> r is None,
        contents matches Some(b) ==> r matches Some(f) && f.buffer@ == base64_of(b@) && f.name@
            == buffer_name(file_name_of(file_path@)) && f.mime_type@ == buffer_mime(
            file_name_of(file_path@),
        ),
{
    match contents {
        Some(bytes) => Some(file_buffer(file_path, &bytes)),
        None => None,
    }
}

} // verus!
