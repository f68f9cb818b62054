use hm_pi::file_io::{
    listed_names, map_io_error, named_file_path, sort_names_case_insensitive, validate_filename,
    DirEntryInfo, FileIoError,
};

#[test]
fn test_filename_validation() {
    // Valid names
    assert!(validate_filename("my_profile").is_ok());
    assert!(validate_filename("Profile-123").is_ok());
    assert!(validate_filename("Test Profile").is_ok());
    assert!(validate_filename("profile_2024_01_07").is_ok());

    // Invalid: empty
    assert!(validate_filename("").is_err());

    // Invalid: path traversal
    assert!(validate_filename("/etc/passwd").is_err());
    assert!(validate_filename("../secret").is_err());
    assert!(validate_filename("foo/bar").is_err());
    assert!(validate_filename("foo\\bar").is_err());

    // Invalid: reserved names
    assert!(validate_filename(".").is_err());
    assert!(validate_filename("..").is_err());

    // Invalid: whitespace issues
    assert!(validate_filename(" profile").is_err());
    assert!(validate_filename("profile ").is_err());
    assert!(validate_filename("  ").is_err());

    // Invalid: dangerous characters
    assert!(validate_filename("profile\0name").is_err());
    assert!(validate_filename("profile<name").is_err());
    assert!(validate_filename("profile>name").is_err());
    assert!(validate_filename("profile:name").is_err());
    assert!(validate_filename("profile\"name").is_err());
    assert!(validate_filename("profile|name").is_err());
    assert!(validate_filename("profile?name").is_err());
    assert!(validate_filename("profile*name").is_err());

    // Invalid: too long
    let long_name = "a".repeat(250);
    assert!(validate_filename(&long_name).is_err());
}

fn validation_message(name: &str) -> String {
    match validate_filename(name) {
        Err(FileIoError::Validation { message }) => message,
        other => panic!("expected a validation error for {:?}, got {:?}", name, other),
    }
}

#[test]
fn filename_errors_name_the_first_rule_broken() {
    assert_eq!(validation_message(""), "Name cannot be empty");
    assert_eq!(validation_message(&"a".repeat(241)), "Name too long (maximum 240 characters)");
    assert_eq!(validation_message(" x"), "Name cannot start or end with whitespace");
    assert_eq!(validation_message("x\t"), "Name cannot start or end with whitespace");
    assert_eq!(validation_message("."), "Invalid name");
    assert_eq!(validation_message(".."), "Invalid name");
    assert_eq!(
        validation_message("a/b"),
        "Name cannot contain path separators ('/' or '\\')"
    );
    assert_eq!(validation_message("a\0b"), "Name cannot contain null bytes");
    assert_eq!(validation_message("a:b<c"), "Name cannot contain ':'");
    assert_eq!(validation_message("a\u{7}b"), "Name cannot contain control characters");
    // Too long is checked before the characters.
    assert_eq!(
        validation_message(&format!("{}/", "a".repeat(240))),
        "Name too long (maximum 240 characters)"
    );
}

#[test]
fn filename_length_counts_utf8_bytes() {
    assert!(validate_filename(&"a".repeat(240)).is_ok());
    // 121 two-byte characters are 242 bytes.
    assert!(validate_filename(&"é".repeat(120)).is_ok());
    assert_eq!(
        validation_message(&"é".repeat(121)),
        "Name too long (maximum 240 characters)"
    );
}

#[test]
fn file_io_error_messages() {
    let e = FileIoError::Io { path: "/x/y".to_string(), source: "denied".to_string() };
    assert_eq!(e.message(), "I/O error at /x/y: denied");
    let e = FileIoError::NotFound { path: "/x/y".to_string() };
    assert_eq!(e.message(), "File not found: /x/y");
    let e = FileIoError::Serde { path: "/c.json".to_string(), source: "eof".to_string() };
    assert_eq!(e.message(), "Failed to parse JSON at /c.json: eof");
    let e = FileIoError::Validation { message: "bad".to_string() };
    assert_eq!(e.message(), "Validation error: bad");
}

#[test]
fn io_errors_are_classified() {
    match map_io_error("/p".to_string(), true, "gone".to_string()) {
        FileIoError::NotFound { path } => assert_eq!(path, "/p"),
        other => panic!("unexpected {:?}", other),
    }
    match map_io_error("/p".to_string(), false, "denied".to_string()) {
        FileIoError::Io { path, source } => {
            assert_eq!(path, "/p");
            assert_eq!(source, "denied");
        }
        other => panic!("unexpected {:?}", other),
    }
}

#[test]
fn named_files_live_in_their_directory() {
    assert_eq!(
        named_file_path("/home/op/hm-pi-data/weld-profiles", "steel 3mm", "json").unwrap(),
        "/home/op/hm-pi-data/weld-profiles/steel 3mm.json"
    );
    assert_eq!(named_file_path("dir/", "a", "json").unwrap(), "dir/a.json");
    match named_file_path("dir", "../etc", "json") {
        Err(FileIoError::Validation { message }) => {
            assert_eq!(message, "Name cannot contain path separators ('/' or '\\')")
        }
        other => panic!("unexpected {:?}", other),
    }
}

fn entry(name: &str, is_file: bool) -> DirEntryInfo {
    DirEntryInfo { file_name: name.to_string(), is_file }
}

#[test]
fn listing_keeps_valid_files_with_the_extension() {
    let entries = vec![
        entry("steel.json", true),
        entry("notes.txt", true),
        entry("subdir.json", false),
        entry(".json", true),
        entry("archive.tar.json", true),
        entry("bad:name.json", true),
        entry(" padded.json", true),
        entry("noext", true),
        entry("trailing.", true),
    ];
    assert_eq!(listed_names(&entries, "json"), vec!["archive.tar", "steel"]);
}

#[test]
fn listing_is_case_insensitive_and_stable() {
    let entries = vec![
        entry("beta.json", true),
        entry("B.json", true),
        entry("alpha.json", true),
        entry("a.json", true),
        entry("Alpha.json", true),
    ];
    // "alpha" and "Alpha" compare equal and keep their directory order.
    assert_eq!(
        listed_names(&entries, "json"),
        vec!["a", "alpha", "Alpha", "B", "beta"]
    );
}

#[test]
fn sorting_lower_cases_before_comparing() {
    let names = vec!["B".to_string(), "a".to_string(), "C".to_string()];
    assert_eq!(sort_names_case_insensitive(names), vec!["a", "B", "C"]);
    let empty: Vec<String> = Vec::new();
    assert!(sort_names_case_insensitive(empty).is_empty());
}
