use simple_protocols::fs::{read, root_entries, Entry, FsError};

const BUILD: &str = "fn main() {\n\tprintln!(\"cargo:rerun-if-changed=build.rs\");\n}\n";

fn file(name: &str, contents: &str) -> Entry {
    Entry::File { name: name.to_string(), contents: contents.to_string() }
}

fn dir(name: &str, entries: Vec<Entry>) -> Entry {
    Entry::Directory { name: name.to_string(), entries }
}

fn tree() -> Entry {
    dir(
        "",
        vec![
            file("build.rs", BUILD),
            dir(
                "src",
                vec![
                    file("fs.rs", "//! A fake file system\n// This is part of this file.\n"),
                    file("main.rs", "fn main() {}\n"),
                    dir(
                        "services",
                        vec![file("echo.rs", "// echo\n"), file("gopher.rs", "// gopher\n")],
                    ),
                ],
            ),
            dir("tests", vec![file("echo.rs", "// test\n")]),
        ],
    )
}

#[test]
fn read_this() {
    let fs = tree();
    let file = read(&fs, b"/src/fs.rs").unwrap();
    assert!(file.is_file());
    assert_eq!(file.name(), "fs.rs");

    let Entry::File { contents, .. } = file else {
        unreachable!();
    };

    assert!(contents.contains("This is part of this file."));
}

#[test]
fn read_build() {
    let fs = tree();
    let file = read(&fs, b"/build.rs").unwrap();
    assert!(file.is_file());
    assert_eq!(file.name(), "build.rs");

    let Entry::File { contents, .. } = file else {
        unreachable!();
    };

    assert_eq!(contents, BUILD);
}

#[test]
fn read_no_target() {
    let fs = tree();
    assert!(read(&fs, b"/target").is_err());
}

#[test]
fn read_dir() {
    let fs = tree();
    let dir = read(&fs, b"/src/services/").unwrap();
    assert!(dir.is_directory());
    assert_eq!(dir.name(), "services");

    let Ok(Entry::Directory { entries, .. }) = read(&fs, b"/src") else {
        panic!();
    };

    assert!(entries.iter().any(|e| e.name() == dir.name()));
}

#[test]
fn read_nothing() {
    let fs = tree();
    let entry = read(&fs, b"/src/foo/bar.rs");
    assert!(matches!(entry, Err(FsError::NotFound(_))));
}

#[test]
fn read_nonabsolute() {
    let fs = tree();
    let entry = read(&fs, b"./fs.rs");
    assert!(matches!(entry, Err(FsError::NonAbsolutePath(_))));
}

#[test]
fn read_invalid() {
    let fs = tree();
    let entry = read(&fs, b"/this is not a valid path in this context.txt");
    assert!(matches!(entry, Err(FsError::InvalidPath(_))));
}

#[test]
fn root_has_root_entries() {
    let fs = tree();
    let Entry::Directory { name, entries } = &fs else {
        panic!();
    };
    assert_eq!(name, "");
    assert_eq!(entries, root_entries(&fs));
}

#[test]
fn read_root_and_errors_keep_the_path() {
    let fs = tree();
    assert_eq!(read(&fs, b"/").unwrap(), &fs);
    assert_eq!(read(&fs, b""), Err(FsError::NonAbsolutePath(vec![])));
    assert_eq!(read(&fs, b"/src/fs.rs/x"), Err(FsError::NotFound(b"/src/fs.rs/x".to_vec())));
    assert_eq!(read(&fs, b"/a b"), Err(FsError::InvalidPath(b"/a b".to_vec())));
    assert_eq!(read(&fs, b"//"), Err(FsError::NotFound(b"//".to_vec())));
}

#[test]
fn read_first_of_equal_names() {
    let fs = dir("", vec![file("a", "first"), file("a", "second")]);
    let Ok(Entry::File { contents, .. }) = read(&fs, b"/a") else {
        panic!();
    };
    assert_eq!(contents, "first");
}

#[test]
fn error_texts_show_the_path() {
    assert_eq!(FsError::NonAbsolutePath(b"./fs.rs".to_vec()).message(), "Path is not absolute: './fs.rs'");
    assert_eq!(FsError::InvalidPath(b"/a b".to_vec()).message(), "Invalid file name: '/a b'");
    assert_eq!(FsError::NotFound(b"/x\xff".to_vec()).message(), "File not found: '/x\u{fffd}'");
    assert_eq!(FsError::NotFound(b"/x".to_vec()).message_with("y"), "File not found: 'y'");
}
