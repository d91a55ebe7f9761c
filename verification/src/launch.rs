//! Launch-argument ingestion: parsing the process argument list and
//! resolving it, together with OS file-association payloads, into at most
//! one open-request for the presentation layer.
//!
//! The launch surface: every positional argument is a file path; the one
//! named option (`-p` / `--page`) carries a positive page number that
//! applies to the first file.  Paths that do not resolve are dropped with
//! no complaint — startup degrades to "no files" rather than failing.
//! By design the argument path applies no extension allow-list (a
//! command-line user may force any file type), while the file-association
//! path does; the two deliberately stay distinct.

use vstd::prelude::*;
use crate::fs_model::{FileSystem, FsFileV, resolve};
use crate::paths::{is_allowed_extension, has_allowed_extension};
use crate::text::str_eq;

verus! {

/// The process argument list, parsed: requested files in their original
/// order, and the optional target page.
#[derive(Debug, Clone, PartialEq, Eq)]
pub struct LaunchArgs {
    pub files: Vec<String>,
    pub page: Option<u32>,
}

/// The view of `LaunchArgs`.
pub struct LaunchArgsV {
    pub files: Seq<Seq<char>>,
    pub page: Option<u32>,
}

impl View for LaunchArgs {
    type V = LaunchArgsV;

    open spec fn view(&self) -> LaunchArgsV {
        LaunchArgsV { files: self.files.deep_view(), page: self.page }
    }
}

/// A validated bundle of canonical file paths (never empty) with an
/// optional positive page number that applies to the first file only.
#[derive(Debug, Clone, PartialEq, Eq)]
pub struct OpenRequest {
    pub files: Vec<String>,
    pub page: Option<u32>,
}

/// The view of an `OpenRequest`.
pub struct OpenRequestV {
    pub files: Seq<Seq<char>>,
    pub page: Option<u32>,
}

impl View for OpenRequest {
    type V = OpenRequestV;

    open spec fn view(&self) -> OpenRequestV {
        OpenRequestV { files: self.files.deep_view(), page: self.page }
    }
}

impl OpenRequest {
    /// An open-request carries at least one file, and its page, when
    /// present, is positive.
    pub open spec fn wf(&self) -> bool {
        self.files@.len() > 0 && (self.page matches Some(p) ==> p >= 1)
    }
}

/// Whether an argument is the page option's flag.
pub open spec fn is_page_flag(a: Seq<char>) -> bool {
    a == "-p"@ || a == "--page"@
}

/// Whether `c` is a decimal digit.
pub open spec fn is_digit(c: char) -> bool {
    '0' <= c && c <= '9'
}

/// The numeric value of a digit character.
pub open spec fn digit_val(c: char) -> int {
    c as int - '0' as int
}

/// Whether every character of `s` is a decimal digit.
pub open spec fn all_digits(s: Seq<char>) -> bool {
    forall|i: int| 0 <= i < s.len() ==> is_digit(s[i])
}

/// The number that the digit string `s` denotes.
pub open spec fn digits_val(s: Seq<char>) -> int
    decreases s.len(),
{
    if s.len() == 0 {
        0
    } else {
        digits_val(s.drop_last()) * 10 + digit_val(s.last())
    }
}

/// A digit string denotes a non-negative number.
pub proof fn lemma_digits_val_nonneg(s: Seq<char>)
    requires
        all_digits(s),
    ensures
        digits_val(s) >= 0,
    decreases s.len(),
{
    if s.len() > 0 {
        assert forall|i: int| 0 <= i < s.drop_last().len() implies is_digit(
            s.drop_last()[i],
        ) by {
            assert(s.drop_last()[i] == s[i]);
        }
        lemma_digits_val_nonneg(s.drop_last());
    }
}

/// What a page-option value denotes: a positive number, written in
/// decimal digits only, that fits the page type.
pub open spec fn parse_page_spec(s: Seq<char>) -> Option<u32> {
    if s.len() > 0 && all_digits(s) && 1 <= digits_val(s) && digits_val(s) <= u32::MAX {
        Some(digits_val(s) as u32)
    } else {
        None
    }
}

/// What parsing the whole argument list yields: `None` on a malformed
/// list (a page flag without a value, a bad or out-of-range value, or the
/// option given twice); otherwise the positional paths in order and the
/// page, if any.
pub open spec fn parse_args_spec(args: Seq<Seq<char>>) -> Option<LaunchArgsV>
    decreases args.len(),
{
    if args.len() == 0 {
        Some(LaunchArgsV { files: Seq::empty(), page: None })
    } else if is_page_flag(args[0]) {
        if args.len() == 1 {
            None
        } else {
            match parse_page_spec(args[1]) {
                None => None,
                Some(n) => match parse_args_spec(args.skip(2)) {
                    None => None,
                    Some(rest) => if rest.page is Some {
                        None
                    } else {
                        Some(LaunchArgsV { files: rest.files, page: Some(n) })
                    },
                },
            }
        }
    } else {
        match parse_args_spec(args.skip(1)) {
            None => None,
            Some(rest) => Some(
                LaunchArgsV { files: seq![args[0]] + rest.files, page: rest.page },
            ),
        }
    }
}

/// How a parsed prefix (files seen so far, page seen so far) combines
/// with the parse of the remaining arguments.
pub open spec fn merge_parse(
    acc_files: Seq<Seq<char>>,
    acc_page: Option<u32>,
    rest: Option<LaunchArgsV>,
) -> Option<LaunchArgsV> {
    match rest {
        None => None,
        Some(r) => if acc_page is Some && r.page is Some {
            None
        } else {
            Some(
                LaunchArgsV {
                    files: acc_files + r.files,
                    page: if acc_page is Some {
                        acc_page
                    } else {
                        r.page
                    },
                },
            )
        },
    }
}

/// Parse a page-option value.
pub fn parse_page(s: &str) -> (r: Option<u32>)
    ensures
        r == parse_page_spec(s@),
{
    let n: usize = s.unicode_len();
    if n == 0 {
        return None;
    }
    let mut acc: u64 = 0;
    let mut i: usize = 0;
    while i < n
        invariant
            i <= n,
            n == s@.len(),
            forall|k: int| 0 <= k < i ==> is_digit(s@[k]),
            acc <= 4294967296,
            digits_val(s@.take(i as int)) > u32::MAX ==> acc == 4294967296,
            digits_val(s@.take(i as int)) <= u32::MAX ==> acc == digits_val(
                s@.take(i as int),
            ),
        decreases n - i,
    {
        let c = s.get_char(i);
        if c < '0' || c > '9' {
            return None;
        }
        let d: u64 = (c as u32 - 48) as u64;
        proof {
            let t0 = s@.take(i as int);
            let t1 = s@.take(i + 1 as int);
            assert(t1.drop_last() =~= t0);
            assert(t1.last() == s@[i as int]);
            assert forall|k: int| 0 <= k < t0.len() implies is_digit(t0[k]) by {
                assert(t0[k] == s@[k]);
            }
            lemma_digits_val_nonneg(t0);
        }
        if acc >= 4294967296 {
            acc = 4294967296;
        } else {
            acc = acc * 10 + d;
            if acc > 4294967295 {
                acc = 4294967296;
            }
        }
        i = i + 1;
    }
    proof {
        assert(s@.take(n as int) =~= s@);
    }
    if acc == 4294967296 || acc == 0 {
        None
    } else {
        Some(acc as u32)
    }
}

/// Parse the process argument list; `None` reports a malformed list.
pub fn parse_launch_args(args: &Vec<String>) -> (r: Option<LaunchArgs>)
    ensures
        match r {
            Some(la) => parse_args_spec(args.deep_view()) == Some(la@) && (
            la.page matches Some(p) ==> p >= 1),
            None => parse_args_spec(args.deep_view()) is None,
        },
{
    let ghost av = args.deep_view();
    let mut files: Vec<String> = Vec::new();
    let mut page: Option<u32> = None;
    let mut i: usize = 0;
    let n: usize = args.len();
    proof {
        assert(av.skip(0) =~= av);
        if let Some(r0) = parse_args_spec(av) {
            assert(Seq::<Seq<char>>::empty() + r0.files =~= r0.files);
        }
        assert(files.deep_view() =~= Seq::<Seq<char>>::empty());
    }
    while i < n
        invariant
            i <= n,
            n == args.len(),
            av == args.deep_view(),
            av.len() == n,
            page matches Some(p) ==> p >= 1,
            parse_args_spec(av) == merge_parse(
                files.deep_view(),
                page,
                parse_args_spec(av.skip(i as int)),
            ),
        decreases n - i,
    {
        let a = &args[i];
        proof {
            assert(av.skip(i as int)[0] == av[i as int]);
            assert(av[i as int] == a@);
        }
        if str_eq(a.as_str(), "-p") || str_eq(a.as_str(), "--page") {
            proof {
                assert(av.skip(i as int).skip(1) =~= av.skip(i + 1 as int));
                if i + 2 <= n {
                    assert(av.skip(i as int).skip(2) =~= av.skip(i + 2 as int));
                    assert(av.skip(i as int)[1] == av[i + 1 as int]);
                }
            }
            if page.is_some() {
                // the option was already given once: every completion fails
                return None;
            }
            if i + 1 >= n {
                return None;
            }
            let value = &args[i + 1];
            proof {
                assert(av[i + 1 as int] == value@);
            }
            match parse_page(value.as_str()) {
                None => {
                    return None;
                },
                Some(p) => {
                    proof {
                        let t = av.skip(i as int);
                        let fd = files.deep_view();
                        match parse_args_spec(av.skip(i + 2 as int)) {
                            None => {
                                assert(parse_args_spec(t) is None);
                            },
                            Some(rest) => {
                                if rest.page is Some {
                                    assert(parse_args_spec(t) is None);
                                } else {
                                    assert(parse_args_spec(t) == Some(
                                        LaunchArgsV { files: rest.files, page: Some(p) },
                                    ));
                                }
                            },
                        }
                    }
                    page = Some(p);
                    i = i + 2;
                },
            }
        } else {
            proof {
                let t = av.skip(i as int);
                let fd = files.deep_view();
                assert(t.skip(1) =~= av.skip(i + 1 as int));
                match parse_args_spec(av.skip(i + 1 as int)) {
                    None => {
                        assert(parse_args_spec(t) is None);
                    },
                    Some(rest) => {
                        assert(parse_args_spec(t) == Some(
                            LaunchArgsV { files: seq![a@] + rest.files, page: rest.page },
                        ));
                        assert(fd + (seq![a@] + rest.files) =~= (fd + seq![a@]) + rest.files);
                    },
                }
            }
            let owned = a.clone();
            let ghost fd_old = files.deep_view();
            files.push(owned);
            proof {
                assert(files.deep_view() =~= fd_old + seq![a@]);
            }
            i = i + 1;
        }
    }
    proof {
        assert(av.skip(n as int) =~= Seq::<Seq<char>>::empty());
        let fd = files.deep_view();
        assert(fd + Seq::<Seq<char>>::empty() =~= fd);
    }
    Some(LaunchArgs { files, page })
}

/// The canonical paths of the requested files that resolve, kept in their
/// original order.
pub open spec fn survivors(files: Seq<FsFileV>, requested: Seq<Seq<char>>) -> Seq<Seq<char>>
    decreases requested.len(),
{
    if requested.len() == 0 {
        Seq::empty()
    } else {
        let prefix = survivors(files, requested.drop_last());
        match resolve(files, requested.last()) {
            Some(f) => prefix.push(f.canonical),
            None => prefix,
        }
    }
}

/// Resolve parsed launch arguments into at most one open-request: paths
/// that do not resolve are dropped, the canonical forms of the rest are
/// kept in order, and the page rides along when anything survived.  No
/// extension allow-list applies here, by design.
pub fn resolve_launch(fs: &FileSystem, args: &LaunchArgs) -> (r: Option<OpenRequest>)
    requires
        args.page matches Some(p) ==> p >= 1,
    ensures
        match r {
            Some(req) => survivors(fs@, args@.files).len() > 0 && req@.files == survivors(
                fs@,
                args@.files,
            ) && req.page == args.page && req.wf(),
            None => survivors(fs@, args@.files).len() == 0,
        },
{
    let ghost av = args@.files;
    let mut out: Vec<String> = Vec::new();
    let mut j: usize = 0;
    let n: usize = args.files.len();
    proof {
        assert(out.deep_view() =~= Seq::<Seq<char>>::empty());
        assert(av.take(0) =~= Seq::<Seq<char>>::empty());
    }
    while j < n
        invariant
            j <= n,
            n == args.files.len(),
            av == args@.files,
            av.len() == n,
            out.deep_view() == survivors(fs@, av.take(j as int)),
        decreases n - j,
    {
        proof {
            assert(av.take(j + 1 as int).drop_last() =~= av.take(j as int));
            assert(av.take(j + 1 as int).last() == av[j as int]);
            assert(av[j as int] == args.files[j as int]@);
        }
        match fs.resolve_exec(args.files[j].as_str()) {
            Some(k) => {
                let ghost out_old = out.deep_view();
                out.push(fs.files[k].canonical.clone());
                proof {
                    assert(out.deep_view() =~= out_old.push(fs@[k as int].canonical));
                }
            },
            None => {},
        }
        j = j + 1;
    }
    proof {
        assert(av.take(n as int) =~= av);
    }
    if out.len() == 0 {
        None
    } else {
        proof {
            assert(out.deep_view().len() == out.len());
        }
        Some(OpenRequest { files: out, page: args.page })
    }
}

/// Turn an OS "open with" payload into an open-request: the path must
/// resolve and its canonical form must carry an allow-listed extension;
/// anything else is dropped silently, there being no caller to tell.
pub fn file_association_request(fs: &FileSystem, payload: &str) -> (r: Option<OpenRequest>)
    ensures
        match r {
            Some(req) => resolve(fs@, payload@) matches Some(f) && is_allowed_extension(
                f.canonical,
            ) && req@.files == seq![f.canonical] && req.page is None && req.wf(),
            None => match resolve(fs@, payload@) {
                Some(f) => !is_allowed_extension(f.canonical),
                None => true,
            },
        },
{
    match fs.resolve_exec(payload) {
        None => None,
        Some(i) => {
            let canonical = fs.files[i].canonical.clone();
            if has_allowed_extension(canonical.as_str()) {
                let mut files: Vec<String> = Vec::new();
                files.push(canonical);
                proof {
                    assert(files.deep_view() =~= seq![fs@[i as int].canonical]);
                }
                Some(OpenRequest { files, page: None })
            } else {
                None
            }
        },
    }
}

} // verus!
