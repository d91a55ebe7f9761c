use monight_core::paths::{get_file_name, get_file_directory};

#[test]
fn test_get_file_name() {
    assert_eq!(
        get_file_name("/path/to/document.pdf".to_string()),
        "document.pdf"
    );
}

#[test]
fn test_get_file_directory() {
    assert_eq!(
        get_file_directory("/path/to/document.pdf".to_string()),
        "/path/to"
    );
}

#[test]
fn file_name_of_nested_path() {
    assert_eq!(get_file_name("/a/b/doc.pdf".to_string()), "doc.pdf");
}

#[test]
fn directory_of_nested_path() {
    assert_eq!(get_file_directory("/a/b/doc.pdf".to_string()), "/a/b");
}

#[test]
fn directory_of_bare_name_is_empty() {
    assert_eq!(get_file_directory("doc.pdf".to_string()), "");
}

#[test]
fn file_name_of_bare_name_is_itself() {
    assert_eq!(get_file_name("doc.pdf".to_string()), "doc.pdf");
}

#[test]
fn file_name_of_empty_path_falls_back() {
    assert_eq!(get_file_name(String::new()), "Unknown");
}

#[test]
fn file_name_of_trailing_separator_falls_back() {
    assert_eq!(get_file_name("/a/b/".to_string()), "Unknown");
}

#[test]
fn directory_of_file_under_root() {
    assert_eq!(get_file_directory("/doc.pdf".to_string()), "/");
}
