use rusty_logger::config::{get_file_params, LogFileConfig};
use rusty_logger::paths::{file_name, get_file_name, get_log_directory, has_file_name};
use std::path::Path;

const SAMPLES: [&str; 34] = [
    "",
    ".",
    "..",
    "/",
    "//",
    "./",
    "../",
    "a",
    ".a",
    "a.",
    "..a",
    "...",
    "a/b",
    "a/b/",
    "a/b//",
    "a/b/.",
    "a/b/./",
    "a/b/..",
    "a/../b",
    "/a",
    "/a/",
    "/.",
    "/..",
    "./a",
    "./.",
    "././a/./.",
    "log/test.log",
    "daily/log.log",
    "log.log",
    "/var/log/app/out.log",
    "dir.with.dots/file",
    "sp ace/na me.txt",
    "caf\u{e9}/na\u{ef}ve.log",
    "a/\u{1f600}",
];

#[test]
fn file_name_agrees_with_std_path() {
    for sample in SAMPLES {
        let expected = Path::new(sample)
            .file_name()
            .and_then(|name| name.to_str())
            .map(|name| name.to_string());
        assert_eq!(file_name(sample), expected, "{:?}", sample);
        assert_eq!(has_file_name(sample), expected.is_some(), "{:?}", sample);
        if let Some(name) = expected {
            assert_eq!(get_file_name(sample), name, "{:?}", sample);
        }
    }
}

#[test]
fn file_name_examples() {
    assert_eq!(get_file_name("daily/log.log"), "log.log");
    assert_eq!(get_file_name("log.log"), "log.log");
    assert_eq!(get_file_name("/usr/bin/"), "bin");
    assert_eq!(get_file_name("foo.txt/."), "foo.txt");
    assert_eq!(get_file_name("foo.txt/.//"), "foo.txt");
    assert_eq!(file_name("foo.txt/.."), None);
    assert_eq!(file_name("/"), None);
    assert_eq!(file_name(""), None);
}

#[test]
fn file_name_is_idempotent() {
    for sample in SAMPLES {
        if let Some(name) = file_name(sample) {
            assert_eq!(file_name(&name), Some(name.clone()), "{:?}", sample);
            assert!(!name.contains('/'));
        }
    }
}

fn directory_by_splitting(output: &str) -> String {
    let pieces: Vec<&str> = output.split('/').collect();
    let directory = pieces[..pieces.len() - 1].join("/");
    if directory.is_empty() {
        "./logs".to_string()
    } else {
        directory
    }
}

#[test]
fn directory_is_what_stands_before_the_last_separator() {
    for sample in SAMPLES {
        assert_eq!(get_log_directory(sample), directory_by_splitting(sample), "{:?}", sample);
        assert!(!get_log_directory(sample).is_empty());
    }
}

#[test]
fn directory_examples() {
    assert_eq!(get_log_directory("daily/log.log"), "daily");
    assert_eq!(get_log_directory("a/b/c.log"), "a/b");
    assert_eq!(get_log_directory("/var/log/app/out.log"), "/var/log/app");
    assert_eq!(get_log_directory("a//b"), "a/");
    assert_eq!(get_log_directory("log.log"), "./logs");
    assert_eq!(get_log_directory("/log.log"), "./logs");
    assert_eq!(get_log_directory(""), "./logs");
    assert_eq!(get_log_directory("a/"), "a");
}

#[test]
fn file_params_of_the_default_file() {
    let file = LogFileConfig::new(None, None);
    assert_eq!(file.filename, "log/logs.log");
    assert_eq!(file.rotate, "never");
    let (directory, prefix) = get_file_params(&file);
    assert_eq!(directory, "log");
    assert_eq!(prefix, "logs.log");
}

#[test]
fn splitting_undoes_joining() {
    for directory in ["a", "a/b", "/var/log", ".", "..", "a//b", "x/"] {
        for name in ["log.log", "n", ".hidden", "...", "a.b.c", "sp ace"] {
            let joined = format!("{}/{}", directory, name);
            assert_eq!(get_log_directory(&joined), directory, "{:?}", joined);
            assert_eq!(file_name(&joined), Some(name.to_string()), "{:?}", joined);
        }
    }
}
