//! File names, stems and extensions of path strings.
use vstd::prelude::*;
use vstd::string::StrSliceExecFns;
use vstd::string::StringExecFns;

verus! {

/// What `std::path::Path::file_name` gives for a path, as text.
pub uninterp spec fn file_name_of(p: Seq<char>) -> Option<Seq<char>>;

/// Relies on std::path::Path::file_name: the final component of the path, or
/// nothing when the path has none (it is empty, a root, or ends in `..`).
#[verifier::external_body]
pub(crate) fn file_name(path: &str) -> (r: Option<String>)
    ensures
        match r {
            Some(n) => file_name_of(path@) == Some(n@),
            None => file_name_of(path@) is None,
        },
{
    std::path::Path::new(path).file_name()?.to_str().map(String::from)
}

/// Index of the last `.` in `s`, or -1 when there is none.
pub open spec fn last_dot(s: Seq<char>) -> int
    decreases s.len(),
{
    if s.len() == 0 {
        -1
    } else if s.last() == '.' {
        s.len() - 1
    } else {
        last_dot(s.drop_last())
    }
}

/// The file name without its extension: everything before the last `.`, unless
/// that dot is the first character or there is no dot at all.
pub open spec fn stem_of(name: Seq<char>) -> Seq<char> {
    if last_dot(name) > 0 {
        name.subrange(0, last_dot(name))
    } else {
        name
    }
}

/// The text after the last `.` of a file name, present only when that dot is
/// not the first character.
pub open spec fn extension_of(name: Seq<char>) -> Option<Seq<char>> {
    if last_dot(name) > 0 {
        Some(name.subrange(last_dot(name) + 1, name.len() as int))
    } else {
        None
    }
}

proof fn lemma_last_dot_range(s: Seq<char>)
    ensures
        -1 <= last_dot(s) < s.len(),
        last_dot(s) >= 0 ==> s[last_dot(s)] == '.',
    decreases s.len(),
{
    if s.len() > 0 && s.last() != '.' {
        lemma_last_dot_range(s.drop_last());
    }
}

/// Position of the last `.` in a file name.
fn find_last_dot(name: &str) -> (r: usize)
    ensures
        r as int == last_dot(name@) + 1,
{
    let mut i: usize = name.unicode_len();
    assert(name@.subrange(0, i as int) =~= name@);
    while i > 0
        invariant
            i <= name@.len(),
            last_dot(name@) == last_dot(name@.subrange(0, i as int)),
        decreases i,
    {
        if name.get_char(i - 1) == '.' {
            return i;
        }
        assert(name@.subrange(0, i as int).drop_last() =~= name@.subrange(0, i - 1));
        i = i - 1;
    }
    0
}

/// Splits a file name into its stem and its extension, if it has one.
pub fn split_extension(name: &str) -> (r: (String, Option<String>))
    ensures
        r.0@ == stem_of(name@),
        match r.1 {
            Some(e) => extension_of(name@) == Some(e@),
            None => extension_of(name@) is None,
        },
{
    proof {
        lemma_last_dot_range(name@);
        assert(name@.subrange(0, name@.len() as int) =~= name@);
    }
    let d = find_last_dot(name);
    if d > 1 {
        let n = name.unicode_len();
        let stem = String::from_str(name.substring_char(0, d - 1));
        let ext = String::from_str(name.substring_char(d, n));
        (stem, Some(ext))
    } else {
        (String::from_str(name), None)
    }
}

} // verus!
