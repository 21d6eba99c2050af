//! Track metadata inferred from a file's name.
use vstd::prelude::*;
use vstd::string::StrSliceExecFns;
use vstd::string::StringExecFns;
use crate::text::{all_ascii_digits, is_all_ascii_digits, trim, trimmed_range};
use crate::path::{file_name, file_name_of, split_extension, stem_of};

verus! {

/// Descriptive record of one audio file.
#[derive(Debug, PartialEq, Eq)]
pub struct FileInfo {
    pub title: String,
    pub artist: String,
    /// File name including its extension.
    pub name: String,
    /// Size in bytes, absent when the file could not be examined.
    pub size: Option<u64>,
}

/// Artist given to tracks whose name does not name one.
pub open spec fn unknown_artist() -> Seq<char> {
    "Unknown Artist"@
}

/// The separator ` - ` starts at index `i` of `s`.
pub open spec fn separator_at(s: Seq<char>, i: int) -> bool {
    &&& 0 <= i
    &&& i + 3 <= s.len()
    &&& s[i] == ' '
    &&& s[i + 1] == '-'
    &&& s[i + 2] == ' '
}

/// Index of the first separator ` - ` in `s` at or after `i`, or -1.
pub open spec fn first_separator_from(s: Seq<char>, i: int) -> int
    decreases s.len() - i,
{
    if i < 0 || i + 3 > s.len() {
        -1
    } else if separator_at(s, i) {
        i
    } else {
        first_separator_from(s, i + 1)
    }
}

/// Artist and title read from a file-name stem. Without a separator ` - ` the
/// whole stem is the title; otherwise the trimmed text around the first
/// separator gives artist and title, and a left part made of ASCII digits only
/// is a track number, not an artist.
pub open spec fn inferred_artist_title(stem: Seq<char>) -> (Seq<char>, Seq<char>) {
    let i = first_separator_from(stem, 0);
    if i < 0 {
        (unknown_artist(), stem)
    } else {
        let left = trim(stem.subrange(0, i));
        let right = trim(stem.subrange(i + 3, stem.len() as int));
        if all_ascii_digits(left) {
            (unknown_artist(), right)
        } else {
            (left, right)
        }
    }
}

proof fn lemma_first_separator_range(s: Seq<char>, i: int)
    ensures
        first_separator_from(s, i) == -1 || (i <= first_separator_from(s, i)
            && separator_at(s, first_separator_from(s, i))),
    decreases s.len() - i,
{
    if !(i < 0 || i + 3 > s.len()) && !separator_at(s, i) {
        lemma_first_separator_range(s, i + 1);
    }
}

fn find_separator(s: &str) -> (r: Option<usize>)
    ensures
        match r {
            Some(i) => first_separator_from(s@, 0) == i as int,
            None => first_separator_from(s@, 0) == -1,
        },
{
    let n = s.unicode_len();
    let mut i: usize = 0;
    while n >= 3 && i <= n - 3
        invariant
            n == s@.len(),
            i <= n,
            first_separator_from(s@, 0) == first_separator_from(s@, i as int),
        decreases n - i,
    {
        if s.get_char(i) == ' ' && s.get_char(i + 1) == '-' && s.get_char(i + 2) == ' ' {
            return Some(i);
        }
        i = i + 1;
    }
    None
}

/// Artist and title for a file-name stem.
pub fn infer_artist_title(stem: &str) -> (r: (String, String))
    ensures
        (r.0@, r.1@) == inferred_artist_title(stem@),
{
    match find_separator(stem) {
        None => (String::from_str("Unknown Artist"), String::from_str(stem)),
        Some(i) => {
            proof {
                lemma_first_separator_range(stem@, 0);
            }
            let n = stem.unicode_len();
            let left = trimmed_range(stem, 0, i);
            let right = trimmed_range(stem, i + 3, n);
            if is_all_ascii_digits(left.as_str()) {
                (String::from_str("Unknown Artist"), right)
            } else {
                (left, right)
            }
        },
    }
}

/// The record for a file called `name` (extension included) of the given size.
pub fn file_info_for_name(name: &str, size: Option<u64>) -> (r: FileInfo)
    ensures
        r.name@ == name@,
        (r.artist@, r.title@) == inferred_artist_title(stem_of(name@)),
        r.size == size,
{
    let (stem, _ext) = split_extension(name);
    let (artist, title) = infer_artist_title(stem.as_str());
    FileInfo { title, artist, name: String::from_str(name), size }
}

/// The record for the file at `file_path`, whose size was looked up by the
/// caller. Fails only when the path has no file name.
pub fn get_file_info(file_path: &str, size: Option<u64>) -> (r: Result<FileInfo, String>)
    ensures
        match file_name_of(file_path@) {
            Some(n) => r matches Ok(info) && info.name@ == n && (info.artist@, info.title@)
                == inferred_artist_title(stem_of(n)) && info.size == size,
            None => r matches Err(e) && e@ == "path has no file name: "@ + file_path@,
        },
{
    match file_name(file_path) {
        Some(n) => Ok(file_info_for_name(n.as_str(), size)),
        None => {
            let mut e = String::from_str("path has no file name: ");
            e.append(file_path);
            Err(e)
        },
    }
}

} // verus!
