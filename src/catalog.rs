//! Selection and ordering of the audio files found in a folder.
use vstd::prelude::*;
use vstd::seq_lib::to_multiset_insert;
use vstd::string::StrSliceExecFns;
use crate::mime::{is_audio_ext, is_audio_extension};
use crate::path::{extension_of, file_name, file_name_of, split_extension};

verus! {

/// `a` comes before or equals `b` when strings are compared code point by code point.
pub open spec fn text_le(a: Seq<char>, b: Seq<char>) -> bool
    decreases a.len(),
{
    if a.len() == 0 {
        true
    } else if b.len() == 0 {
        false
    } else if a[0] != b[0] {
        (a[0] as int) < (b[0] as int)
    } else {
        text_le(a.drop_first(), b.drop_first())
    }
}

/// Of any two texts, one comes before or equals the other.
pub proof fn lemma_text_le_total(a: Seq<char>, b: Seq<char>)
    ensures
        text_le(a, b) || text_le(b, a),
    decreases a.len(),
{
    if a.len() > 0 && b.len() > 0 && a[0] == b[0] {
        lemma_text_le_total(a.drop_first(), b.drop_first());
    }
}

/// The text order is transitive.
pub proof fn lemma_text_le_transitive(a: Seq<char>, b: Seq<char>, c: Seq<char>)
    requires
        text_le(a, b),
        text_le(b, c),
    ensures
        text_le(a, c),
    decreases a.len(),
{
    if a.len() > 0 && b.len() > 0 && c.len() > 0 && a[0] == b[0] && b[0] == c[0] {
        lemma_text_le_transitive(a.drop_first(), b.drop_first(), c.drop_first());
    }
}

/// Whether `a` comes before or equals `b` in code point order.
pub fn text_less_or_equal(a: &str, b: &str) -> (r: bool)
    ensures
        r == text_le(a@, b@),
{
    let na = a.unicode_len();
    let nb = b.unicode_len();
    let mut i: usize = 0;
    assert(a@.skip(0) =~= a@);
    assert(b@.skip(0) =~= b@);
    while i < na && i < nb && a.get_char(i) == b.get_char(i)
        invariant
            na == a@.len(),
            nb == b@.len(),
            i <= na,
            i <= nb,
            text_le(a@, b@) == text_le(a@.skip(i as int), b@.skip(i as int)),
        decreases na - i,
    {
        assert(a@.skip(i as int).drop_first() =~= a@.skip(i + 1));
        assert(b@.skip(i as int).drop_first() =~= b@.skip(i + 1));
        i = i + 1;
    }
    if i == na {
        true
    } else if i == nb {
        false
    } else {
        (a.get_char(i) as u32) < (b.get_char(i) as u32)
    }
}

/// The path's file name has an extension of a recognised audio format.
pub open spec fn is_audio_path(p: Seq<char>) -> bool {
    match file_name_of(p) {
        Some(n) => match extension_of(n) {
            Some(e) => is_audio_ext(e),
            None => false,
        },
        None => false,
    }
}

/// Whether the file at `path` is picked up as audio.
pub fn has_audio_extension(path: &str) -> (r: bool)
    ensures
        r == is_audio_path(path@),
{
    match file_name(path) {
        Some(n) => {
            let (_stem, ext) = split_extension(n.as_str());
            match ext {
                Some(e) => is_audio_extension(e.as_str()),
                None => false,
            }
        },
        None => false,
    }
}

/// Each path comes before or equals every later one.
pub open spec fn sorted_by_text(s: Seq<String>) -> bool {
    forall|i: int, j: int| 0 <= i < j < s.len() ==> text_le(#[trigger] s[i]@, #[trigger] s[j]@)
}

/// The audio paths among `paths`, in the order given.
pub open spec fn audio_paths(paths: Seq<String>) -> Seq<String> {
    paths.filter(audio_path_pred())
}

/// The selection test on strings.
pub open spec fn audio_path_pred() -> spec_fn(String) -> bool {
    |p: String| is_audio_path(p@)
}

/// Inserts `p` into the sorted list `r`, keeping it sorted.
fn insert_sorted(r: &mut Vec<String>, p: String)
    requires
        sorted_by_text(old(r)@),
    ensures
        final(r)@.to_multiset() == old(r)@.to_multiset().insert(p),
        sorted_by_text(final(r)@),
{
    broadcast use vstd::seq_lib::group_to_multiset_ensures;

    let mut pos: usize = 0;
    while pos < r.len() && text_less_or_equal(r[pos].as_str(), p.as_str())
        invariant
            pos <= r@.len(),
            forall|k: int| 0 <= k < pos ==> text_le(#[trigger] r@[k]@, p@),
        decreases r@.len() - pos,
    {
        pos = pos + 1;
    }
    proof {
        if pos < r@.len() {
            lemma_text_le_total(r@[pos as int]@, p@);
            assert forall|j: int| pos <= j < r@.len() implies text_le(p@, #[trigger] r@[j]@) by {
                if j > pos {
                    lemma_text_le_transitive(p@, r@[pos as int]@, r@[j]@);
                }
            }
        }
        to_multiset_insert(r@, pos as int, p);
        r@.insert_ensures(pos as int, p);
    }
    let ghost old_r = r@;
    r.insert(pos, p);
    assert(r@ =~= old_r.insert(pos as int, p));
    assert forall|a: int, b: int| 0 <= a < b < r@.len() implies text_le(
        #[trigger] r@[a]@,
        #[trigger] r@[b]@,
    ) by {
        if a < pos && b == pos {
        } else if a < pos && b > pos {
            assert(r@[b] == old_r[b - 1]);
        } else if a == pos {
            assert(r@[b] == old_r[b - 1]);
        } else if a > pos {
            assert(r@[a] == old_r[a - 1]);
            assert(r@[b] == old_r[b - 1]);
        }
    }
}

/// The paths among `paths` whose extension names an audio format, in
/// ascending code point order; every other path is dropped.
pub fn select_audio_files(paths: &Vec<String>) -> (r: Vec<String>)
    ensures
        r@.to_multiset() == audio_paths(paths@).to_multiset(),
        sorted_by_text(r@),
{
    broadcast use vstd::seq_lib::group_to_multiset_ensures;

    let mut r: Vec<String> = Vec::new();
    let mut i: usize = 0;
    proof {
        reveal(Seq::filter);
        assert(audio_paths(paths@.subrange(0, 0)) =~= Seq::<String>::empty());
        assert(r@ =~= Seq::<String>::empty());
    }
    while i < paths.len()
        invariant
            i <= paths@.len(),
            r@.to_multiset() == audio_paths(paths@.subrange(0, i as int)).to_multiset(),
            sorted_by_text(r@),
        decreases paths@.len() - i,
    {
        let p = &paths[i];
        proof {
            assert(paths@.subrange(0, i + 1) =~= paths@.subrange(0, i as int).push(*p));
            paths@.subrange(0, i as int).lemma_filter_push(*p, audio_path_pred());
        }
        let ghost before = paths@.subrange(0, i as int);
        assert(audio_path_pred()(*p) == is_audio_path(p@));
        if has_audio_extension(p.as_str()) {
            assert(audio_paths(paths@.subrange(0, i + 1)) == audio_paths(before).push(*p));
            proof {
                vstd::seq_lib::to_multiset_build(audio_paths(before), *p);
            }
            insert_sorted(&mut r, p.clone());
        } else {
            assert(audio_paths(paths@.subrange(0, i + 1)) == audio_paths(before));
        }
        i = i + 1;
    }
    proof {
        assert(paths@.subrange(0, paths@.len() as int) =~= paths@);
    }
    r
}

} // verus!
