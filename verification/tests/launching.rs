use monight_core::fs_model::{FileSystem, FsFile};
use monight_core::launch::{
    parse_launch_args, parse_page, resolve_launch, file_association_request, LaunchArgs,
};

fn args(xs: &[&str]) -> Vec<String> {
    xs.iter().map(|s| s.to_string()).collect()
}

fn fs_with(paths: &[(&str, &str)]) -> FileSystem {
    FileSystem {
        files: paths
            .iter()
            .map(|(p, c)| FsFile {
                path: p.to_string(),
                canonical: c.to_string(),
                content: Ok(vec![0]),
            })
            .collect(),
    }
}

#[test]
fn parse_collects_files_and_long_page_flag() {
    let parsed = parse_launch_args(&args(&["a.pdf", "--page", "5", "b.pdf"])).unwrap();
    assert_eq!(parsed.files, args(&["a.pdf", "b.pdf"]));
    assert_eq!(parsed.page, Some(5));
}

#[test]
fn parse_accepts_short_page_flag() {
    let parsed = parse_launch_args(&args(&["-p", "3", "x.pdf"])).unwrap();
    assert_eq!(parsed.files, args(&["x.pdf"]));
    assert_eq!(parsed.page, Some(3));
}

#[test]
fn parse_rejects_missing_page_value() {
    assert_eq!(parse_launch_args(&args(&["x.pdf", "-p"])), None);
}

#[test]
fn parse_rejects_non_numeric_page() {
    assert_eq!(parse_launch_args(&args(&["-p", "five"])), None);
}

#[test]
fn parse_rejects_zero_page() {
    assert_eq!(parse_launch_args(&args(&["-p", "0"])), None);
}

#[test]
fn parse_rejects_repeated_page_flag() {
    assert_eq!(parse_launch_args(&args(&["-p", "1", "--page", "2"])), None);
}

#[test]
fn parse_of_empty_list_is_empty() {
    let parsed = parse_launch_args(&Vec::new()).unwrap();
    assert!(parsed.files.is_empty());
    assert_eq!(parsed.page, None);
}

#[test]
fn page_value_parses_exactly() {
    assert_eq!(parse_page("5"), Some(5));
    assert_eq!(parse_page("4294967295"), Some(4294967295));
    assert_eq!(parse_page("4294967296"), None);
    assert_eq!(parse_page(""), None);
    assert_eq!(parse_page("12a"), None);
}

#[test]
fn resolver_drops_missing_file_and_keeps_page() {
    let fs = fs_with(&[("/valid.pdf", "/valid.pdf")]);
    let la = LaunchArgs {
        files: args(&["/valid.pdf", "/missing.pdf"]),
        page: Some(5),
    };
    let req = resolve_launch(&fs, &la).unwrap();
    assert_eq!(req.files, args(&["/valid.pdf"]));
    assert_eq!(req.page, Some(5));
}

#[test]
fn resolver_with_zero_survivors_produces_no_request() {
    let fs = fs_with(&[]);
    let la = LaunchArgs {
        files: args(&["/missing.pdf"]),
        page: Some(2),
    };
    assert_eq!(resolve_launch(&fs, &la), None);
}

#[test]
fn resolver_canonicalizes_and_keeps_argument_order() {
    let fs = fs_with(&[("b.pdf", "/cwd/b.pdf"), ("a.pdf", "/cwd/a.pdf")]);
    let la = LaunchArgs {
        files: args(&["b.pdf", "a.pdf"]),
        page: None,
    };
    let req = resolve_launch(&fs, &la).unwrap();
    assert_eq!(req.files, args(&["/cwd/b.pdf", "/cwd/a.pdf"]));
    assert_eq!(req.page, None);
}

#[test]
fn resolver_applies_no_extension_allow_list() {
    let fs = fs_with(&[("/notes.txt", "/notes.txt")]);
    let la = LaunchArgs {
        files: args(&["/notes.txt"]),
        page: None,
    };
    let req = resolve_launch(&fs, &la).unwrap();
    assert_eq!(req.files, args(&["/notes.txt"]));
}

#[test]
fn association_accepts_allow_listed_file() {
    let fs = fs_with(&[("/x.pdf", "/x.pdf")]);
    let req = file_association_request(&fs, "/x.pdf").unwrap();
    assert_eq!(req.files, args(&["/x.pdf"]));
    assert_eq!(req.page, None);
}

#[test]
fn association_drops_unsupported_extension() {
    let fs = fs_with(&[("/x.txt", "/x.txt")]);
    assert_eq!(file_association_request(&fs, "/x.txt"), None);
}

#[test]
fn association_drops_unresolvable_path() {
    let fs = fs_with(&[]);
    assert_eq!(file_association_request(&fs, "/x.pdf"), None);
}

#[test]
fn association_checks_extension_of_canonical_path() {
    let fs = fs_with(&[("/alias.pdf", "/real/target.txt")]);
    assert_eq!(file_association_request(&fs, "/alias.pdf"), None);
}
