//! Pure path-string logic: the last segment of a path, its parent
//! directory, and the document-extension allow-list.
//!
//! Paths are treated as plain character sequences with `/` as the
//! separator; nothing here touches a filesystem.

use vstd::prelude::*;
use crate::text::str_eq;

verus! {

/// Index of the last occurrence of `c` in `s`, or `-1` if `c` is absent.
pub open spec fn last_occurrence(s: Seq<char>, c: char) -> int
    decreases s.len(),
{
    if s.len() == 0 {
        -1
    } else if s[s.len() - 1] == c {
        s.len() - 1
    } else {
        last_occurrence(s.drop_last(), c)
    }
}

/// `last_occurrence` lies in range, points at `c`, and nothing after it is `c`.
pub proof fn lemma_last_occurrence(s: Seq<char>, c: char)
    ensures
        -1 <= last_occurrence(s, c) < s.len(),
        last_occurrence(s, c) >= 0 ==> s[last_occurrence(s, c)] == c,
        forall|k: int| last_occurrence(s, c) < k < s.len() ==> s[k] != c,
    decreases s.len(),
{
    if s.len() > 0 && s[s.len() - 1] != c {
        lemma_last_occurrence(s.drop_last(), c);
        assert forall|k: int| last_occurrence(s, c) < k < s.len() implies s[k] != c by {
            if k < s.len() - 1 {
                assert(s.drop_last()[k] == s[k]);
            }
        }
    }
}

/// A position holding `c` with no later occurrence is the last occurrence.
pub proof fn lemma_last_occurrence_at(s: Seq<char>, c: char, m: int)
    requires
        0 <= m < s.len(),
        s[m] == c,
        forall|k: int| m < k < s.len() ==> s[k] != c,
    ensures
        last_occurrence(s, c) == m,
    decreases s.len(),
{
    if m < s.len() - 1 {
        lemma_last_occurrence_at(s.drop_last(), c, m);
    }
}

/// Index of the last `c` in `s`, found by scanning from the end.
fn find_last(s: &str, c: char) -> (r: Option<usize>)
    ensures
        match r {
            Some(i) => i < s@.len() && last_occurrence(s@, c) == i,
            None => last_occurrence(s@, c) == -1,
        },
{
    let n: usize = s.unicode_len();
    let mut j: usize = n;
    while j > 0
        invariant
            j <= n,
            n == s@.len(),
            forall|k: int| j <= k < n ==> s@[k] != c,
        decreases j,
    {
        if s.get_char(j - 1) == c {
            proof {
                lemma_last_occurrence_at(s@, c, j - 1);
            }
            return Some(j - 1);
        }
        j = j - 1;
    }
    proof {
        lemma_last_occurrence(s@, c);
    }
    None
}

/// The segment of `p` after its last separator, or the fallback `"Unknown"`
/// when that segment is empty (empty path, or path ending in a separator).
pub open spec fn file_name_spec(p: Seq<char>) -> Seq<char> {
    let i = last_occurrence(p, '/');
    if i + 1 == p.len() {
        "Unknown"@
    } else {
        p.subrange(i + 1, p.len() as int)
    }
}

/// Everything before the last separator of `p`: empty when `p` has no
/// separator, `"/"` when the last separator is the leading one.
pub open spec fn directory_spec(p: Seq<char>) -> Seq<char> {
    let i = last_occurrence(p, '/');
    if i < 0 {
        Seq::empty()
    } else if i == 0 {
        "/"@
    } else {
        p.subrange(0, i)
    }
}

/// The segment of `p` after its last separator, possibly empty.
pub open spec fn base_name(p: Seq<char>) -> Seq<char> {
    p.subrange(last_occurrence(p, '/') + 1, p.len() as int)
}

/// The extension of `p`: what follows the last `.` of the final segment,
/// provided that `.` is neither absent nor the segment's first character
/// (a leading dot marks a hidden file, not an extension).
pub open spec fn extension_spec(p: Seq<char>) -> Option<Seq<char>> {
    let name = base_name(p);
    let d = last_occurrence(name, '.');
    if d <= 0 {
        None
    } else {
        Some(name.subrange(d + 1, name.len() as int))
    }
}

/// Whether `p` carries one of the accepted document extensions, compared
/// case-sensitively: `pdf`, `xdp`, `fdf`, `xfdf`.
pub open spec fn is_allowed_extension(p: Seq<char>) -> bool {
    match extension_spec(p) {
        Some(e) => e == "pdf"@ || e == "xdp"@ || e == "fdf"@ || e == "xfdf"@,
        None => false,
    }
}

/// Extract the file name from a full path, `"Unknown"` if there is none.
pub fn get_file_name(path: String) -> (r: String)
    ensures
        r@ == file_name_spec(path@),
{
    let s = path.as_str();
    let n: usize = s.unicode_len();
    match find_last(s, '/') {
        Some(i) => {
            if i + 1 == n {
                String::from_str("Unknown")
            } else {
                String::from_str(s.substring_char(i + 1, n))
            }
        },
        None => {
            if n == 0 {
                String::from_str("Unknown")
            } else {
                proof {
                    assert(path@.subrange(0, n as int) =~= path@);
                }
                path
            }
        },
    }
}

/// The parent directory of a file path, empty if there is none.
pub fn get_file_directory(path: String) -> (r: String)
    ensures
        r@ == directory_spec(path@),
{
    let s = path.as_str();
    match find_last(s, '/') {
        Some(i) => {
            if i == 0 {
                String::from_str("/")
            } else {
                String::from_str(s.substring_char(0, i))
            }
        },
        None => String::new(),
    }
}

/// Whether `path` ends in one of the accepted document extensions.
pub fn has_allowed_extension(path: &str) -> (b: bool)
    ensures
        b == is_allowed_extension(path@),
{
    let n: usize = path.unicode_len();
    let start: usize = match find_last(path, '/') {
        Some(i) => i + 1,
        None => 0,
    };
    let name = path.substring_char(start, n);
    assert(name@ == base_name(path@));
    let m: usize = name.unicode_len();
    match find_last(name, '.') {
        Some(d) => {
            if d == 0 {
                false
            } else {
                let ext = name.substring_char(d + 1, m);
                str_eq(ext, "pdf") || str_eq(ext, "xdp") || str_eq(ext, "fdf") || str_eq(
                    ext,
                    "xfdf",
                )
            }
        },
        None => false,
    }
}

} // verus!
