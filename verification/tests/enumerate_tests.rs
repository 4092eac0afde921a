use lookup_scan::enumerate::{
    add_extension, directory_path, entry_line, entry_of, entry_of_texts, enumerate, report,
    search_outcome, ChildEntry, EnumerationError, PathEntry,
};
use std::path::{Path, PathBuf};
use tempfile::{Builder, NamedTempFile, TempDir};

fn names_found(dir: &str, suffix: &str, case_sensitive: bool) -> Vec<String> {
    let search = match enumerate(dir, suffix, case_sensitive) {
        Ok(search) => search,
        Err(e) => panic!("{}", e.describe()),
    };
    assert_eq!(search.pattern, format!("{}{}", dir, suffix));
    assert_eq!(search.case_sensitive, case_sensitive);
    let mut names: Vec<String> = Vec::new();
    for item in search.paths {
        match entry_of(item) {
            Ok(found) => {
                let path = PathBuf::from(found.path);
                names.push(path.file_name().unwrap().to_str().unwrap().to_string());
            }
            Err(e) => panic!("{}", e.describe()),
        }
    }
    names.sort();
    names
}

fn new_file(dir: &Path, stem: &str, extension: &str) -> NamedTempFile {
    Builder::new().prefix(stem).suffix(extension).rand_bytes(0).tempfile_in(dir).unwrap()
}

fn picture_directory() -> (TempDir, Vec<NamedTempFile>) {
    let dir = Builder::new().prefix("pictures").tempdir().unwrap();
    let files = vec![
        new_file(dir.path(), "a", ".PNG"),
        new_file(dir.path(), "b", ".png"),
        new_file(dir.path(), "c", ".txt"),
    ];
    (dir, files)
}

#[test]
fn directory_path_trims_the_line() {
    assert_eq!(directory_path("  /home/user/pictures \n"), "/home/user/pictures");
    assert_eq!(directory_path("/media\r\n"), "/media");
    assert_eq!(directory_path("my pictures\n"), "my pictures");
    assert_eq!(directory_path("\n"), "");
}

#[test]
fn add_extension_appends_the_suffix() {
    assert_eq!(add_extension(String::from("/media"), "/**/*.png"), "/media/**/*.png");
    assert_eq!(add_extension(String::new(), "/**/*.png"), "/**/*.png");
    assert_eq!(add_extension(String::from("dir"), ""), "dir");
}

#[test]
fn enumerate_without_case_finds_both_pictures() {
    let (dir, _files) = picture_directory();
    let root = dir.path().to_str().unwrap();
    assert_eq!(names_found(root, "/**/*.png", false), vec!["a.PNG", "b.png"]);
}

#[test]
fn enumerate_with_case_finds_the_lower_case_picture_only() {
    let (dir, _files) = picture_directory();
    let root = dir.path().to_str().unwrap();
    assert_eq!(names_found(root, "/**/*.png", true), vec!["b.png"]);
    assert_eq!(names_found(root, "/**/*.PNG", true), vec!["a.PNG"]);
}

#[test]
fn enumerate_descends_into_nested_directories() {
    let (dir, _files) = picture_directory();
    let nested = Builder::new().prefix("nested").rand_bytes(0).tempdir_in(dir.path()).unwrap();
    let _d = new_file(nested.path(), "d", ".Png");
    let _e = new_file(nested.path(), "e", ".jpg");
    let root = dir.path().to_str().unwrap();
    assert_eq!(names_found(root, "/**/*.png", false), vec!["a.PNG", "b.png", "d.Png"]);
    assert_eq!(names_found(root, "/*.png", false), vec!["a.PNG", "b.png"]);
}

#[test]
fn enumerate_takes_the_directory_as_trimmed_from_a_line() {
    let (dir, _files) = picture_directory();
    let line = format!("  {} \n", dir.path().to_str().unwrap());
    let root = directory_path(&line);
    assert_eq!(names_found(&root, "/**/*.txt", false), vec!["c.txt"]);
}

#[test]
fn enumerate_of_a_missing_directory_is_empty() {
    let names = names_found("/tmp/lookup_scan_no_such_directory", "/**/*.png", false);
    assert!(names.is_empty());
}

#[test]
fn enumerate_refuses_a_malformed_pattern() {
    match enumerate("/tmp/pictures", "/**b", false) {
        Ok(_) => panic!("the pattern should be refused"),
        Err(EnumerationError::Pattern { position, message }) => {
            let fault = glob::Pattern::new("/tmp/pictures/**b").unwrap_err();
            assert_eq!(position, fault.pos);
            assert_eq!(message, fault.msg);
        }
        Err(other) => panic!("{}", other.describe()),
    }
}

#[test]
fn enumerate_refuses_a_malformed_directory_name() {
    let outcome = enumerate("/tmp/[", "/**/*.png", false);
    match outcome {
        Err(e) => {
            let fault = glob::Pattern::new("/tmp/[/**/*.png").unwrap_err();
            assert_eq!(e.describe(), fault.to_string());
        }
        Ok(_) => panic!("the pattern should be refused"),
    }
}

#[test]
fn search_outcome_keeps_the_fault() {
    let pattern = String::from("/tmp/[");
    match search_outcome(pattern, false, Err((4, String::from("invalid range pattern")))) {
        Err(EnumerationError::Pattern { position, message }) => {
            assert_eq!(position, 4);
            assert_eq!(message, "invalid range pattern");
        }
        _ => panic!("a fault should stay a fault"),
    }
}

#[test]
fn search_outcome_records_the_request() {
    let pattern = String::from("/media/**/*.png");
    let paths = glob::glob_with(&pattern, glob::MatchOptions::new()).unwrap();
    match search_outcome(pattern, true, Ok(paths)) {
        Ok(search) => {
            assert_eq!(search.pattern, "/media/**/*.png");
            assert!(search.case_sensitive);
        }
        Err(e) => panic!("{}", e.describe()),
    }
}

#[test]
fn enumerate_records_the_pattern_and_the_case() {
    match enumerate("/media/pictures", "/**/*.png", false) {
        Ok(search) => {
            assert_eq!(search.pattern, "/media/pictures/**/*.png");
            assert!(!search.case_sensitive);
        }
        Err(e) => panic!("{}", e.describe()),
    }
    match enumerate("", "*.txt", true) {
        Ok(search) => {
            assert_eq!(search.pattern, "*.txt");
            assert!(search.case_sensitive);
        }
        Err(e) => panic!("{}", e.describe()),
    }
}

#[test]
fn enumerate_fails_exactly_where_the_pattern_does_not_compile() {
    let suffixes = ["/**/*.png", "/**b", "/a**", "/[", "/[a-", "/*", "", "/", "//", "/***", "/a/[!b]?"];
    for suffix in suffixes {
        let pattern = format!("/tmp/pictures{}", suffix);
        let compiled = glob::glob_with(&pattern, glob::MatchOptions::new());
        match (enumerate("/tmp/pictures", suffix, true), compiled) {
            (Ok(search), Ok(_)) => assert_eq!(search.pattern, pattern),
            (Err(EnumerationError::Pattern { position, message }), Err(fault)) => {
                assert_eq!(position, fault.pos, "on {:?}", pattern);
                assert_eq!(message, fault.msg, "on {:?}", pattern);
            }
            _ => panic!("unexpected outcome on {:?}", pattern),
        }
    }
}

#[test]
fn entry_of_keeps_the_path_of_a_match() {
    match entry_of(Ok(PathBuf::from("/media/pictures/kittens.png"))) {
        Ok(found) => assert_eq!(found.path, "/media/pictures/kittens.png"),
        Err(e) => panic!("{}", e.describe()),
    }
}

#[test]
fn entry_of_texts_makes_a_glob_error_of_a_failure() {
    let texts = Err((String::from("/media/locked"), String::from("Permission denied")));
    match entry_of_texts(texts) {
        Err(EnumerationError::Glob { path, message }) => {
            assert_eq!(path, "/media/locked");
            assert_eq!(message, "Permission denied");
        }
        _ => panic!("a failure should stay a failure"),
    }
}

#[test]
fn describe_writes_each_kind_of_error() {
    let io = EnumerationError::Io { message: String::from("stream closed") };
    assert_eq!(io.describe(), "stream closed");
    let pattern = EnumerationError::Pattern {
        position: 12,
        message: String::from("recursive wildcards must form a single path component"),
    };
    assert_eq!(
        pattern.describe(),
        "Pattern syntax error near position 12: recursive wildcards must form a single path component"
    );
    let unreadable = EnumerationError::Glob {
        path: String::from("/media/locked"),
        message: String::from("Permission denied (os error 13)"),
    };
    assert_eq!(
        unreadable.describe(),
        "attempting to read `/media/locked` resulted in an error: Permission denied (os error 13)"
    );
    let time = EnumerationError::SystemTime { message: String::from("clock went backwards") };
    assert_eq!(time.describe(), "clock went backwards");
}

#[test]
fn report_goes_on_after_a_failed_entry() {
    let entries = vec![
        Ok(PathEntry { path: String::from("/media/open/a.PNG") }),
        Err(EnumerationError::Glob {
            path: String::from("/media/locked"),
            message: String::from("Permission denied (os error 13)"),
        }),
        Ok(PathEntry { path: String::from("/media/other/b.png") }),
    ];
    let lines = report(&entries);
    assert_eq!(
        lines,
        vec![
            "/media/open/a.PNG",
            "attempting to read `/media/locked` resulted in an error: Permission denied (os error 13)",
            "/media/other/b.png",
        ]
    );
    assert_eq!(entry_line(&entries[1]), lines[1]);
}

#[test]
fn report_of_nothing_is_empty() {
    assert!(report(&Vec::new()).is_empty());
}

#[test]
fn listing_line_shows_flag_size_and_name() {
    let child = ChildEntry { read_only: false, size: 2048, name: String::from("kittens.png") };
    assert_eq!(child.listing_line(), "is read only: false, size: 2048 bytes, filename: kittens.png");
    let locked = ChildEntry { read_only: true, size: 0, name: String::from("notes.txt") };
    assert_eq!(locked.listing_line(), "is read only: true, size: 0 bytes, filename: notes.txt");
}
