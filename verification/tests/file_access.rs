use monight_core::errors::FileError;
use monight_core::fs_model::{FileSystem, FsFile};

fn entry(path: &str, canonical: &str, content: Result<Vec<u8>, &str>) -> FsFile {
    FsFile {
        path: path.to_string(),
        canonical: canonical.to_string(),
        content: content.map_err(|e| e.to_string()),
    }
}

fn sample_fs() -> FileSystem {
    FileSystem {
        files: vec![
            entry("/docs/report.pdf", "/docs/report.pdf", Ok(vec![1, 2, 3])),
            entry("/docs/notes.txt", "/docs/notes.txt", Ok(vec![9])),
            entry("/docs/locked.pdf", "/docs/locked.pdf", Err("permission denied")),
            entry("/link/form.xfdf", "/real/form.xfdf", Ok(vec![7, 7])),
            entry("/real/form.xfdf", "/real/form.xfdf", Ok(vec![7, 7])),
        ],
    }
}

#[test]
fn validate_rejects_extension_outside_allow_list_even_when_present() {
    let fs = sample_fs();
    assert_eq!(
        fs.validate("/docs/notes.txt"),
        Err(FileError::UnsupportedType)
    );
}

#[test]
fn validate_rejects_extension_outside_allow_list_when_absent() {
    let fs = sample_fs();
    assert_eq!(fs.validate("/nowhere.docx"), Err(FileError::UnsupportedType));
}

#[test]
fn validate_reports_missing_allow_listed_path_as_not_found() {
    let fs = sample_fs();
    assert_eq!(fs.validate("/docs/gone.pdf"), Err(FileError::NotFound));
}

#[test]
fn validate_is_case_sensitive_about_extensions() {
    let fs = FileSystem {
        files: vec![entry("/a/DOC.PDF", "/a/DOC.PDF", Ok(vec![1]))],
    };
    assert_eq!(fs.validate("/a/DOC.PDF"), Err(FileError::UnsupportedType));
}

#[test]
fn validate_treats_leading_dot_as_no_extension() {
    let fs = FileSystem {
        files: vec![entry("/a/.pdf", "/a/.pdf", Ok(vec![1]))],
    };
    assert_eq!(fs.validate("/a/.pdf"), Err(FileError::UnsupportedType));
}

#[test]
fn validate_returns_canonical_path() {
    let fs = sample_fs();
    assert_eq!(fs.validate("/link/form.xfdf"), Ok("/real/form.xfdf".to_string()));
}

#[test]
fn load_surfaces_read_failure_with_detail() {
    let fs = sample_fs();
    assert_eq!(
        fs.load("/docs/locked.pdf"),
        Err(FileError::IoError("permission denied".to_string()))
    );
}

#[test]
fn validate_and_load_returns_full_content() {
    let fs = sample_fs();
    assert_eq!(fs.validate_and_load("/docs/report.pdf"), Ok(vec![1, 2, 3]));
}

#[test]
fn validate_and_load_follows_canonicalization() {
    let fs = sample_fs();
    assert_eq!(fs.validate_and_load("/link/form.xfdf"), Ok(vec![7, 7]));
}

#[test]
fn validate_and_load_never_yields_bytes_when_validation_fails() {
    let fs = sample_fs();
    assert_eq!(
        fs.validate_and_load("/docs/notes.txt"),
        Err(FileError::UnsupportedType)
    );
    assert_eq!(
        fs.validate_and_load("/docs/gone.pdf"),
        Err(FileError::NotFound)
    );
}
