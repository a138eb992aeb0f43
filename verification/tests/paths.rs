use tmuxify::paths::{backup_path, base_name_of, join, names_file, parent};
use tmuxify::text::{decimal, last_segment_of, same_text};

#[test]
fn join_puts_one_separator_between() {
    assert_eq!(join("/work/proj", ".envrc"), "/work/proj/.envrc");
    assert_eq!(join("/work/proj/", ".envrc"), "/work/proj/.envrc");
    assert_eq!(join("", ".envrc"), ".envrc");
    assert_eq!(join("/", ".envrc"), "/.envrc");
    assert_eq!(join("rel", "a/b"), "rel/a/b");
}

#[test]
fn join_lets_a_rooted_leaf_stand() {
    assert_eq!(join("/work/proj", "/etc/x"), "/etc/x");
    assert_eq!(join("", "/"), "/");
}

#[test]
fn last_segment_follows_the_last_slash() {
    assert_eq!(last_segment_of("/bin/zsh"), "zsh");
    assert_eq!(last_segment_of("zsh"), "zsh");
    assert_eq!(last_segment_of("/bin/"), "");
    assert_eq!(last_segment_of(""), "");
    assert_eq!(last_segment_of("a/b/c.txt"), "c.txt");
}

#[test]
fn names_file_wants_a_real_name() {
    assert!(names_file("/a/b.txt"));
    assert!(names_file(".envrc"));
    assert!(names_file("/a/..."));
    assert!(names_file("/a/"));
    assert!(names_file("/a/."));
    assert!(names_file("a/.//./"));
    assert!(!names_file(""));
    assert!(!names_file("/"));
    assert!(!names_file("/."));
    assert!(!names_file("/a/.."));
    assert!(!names_file("."));
    assert!(!names_file("./."));
    assert!(!names_file(".."));
}

#[test]
fn parent_is_the_directory_of_the_last_segment() {
    assert_eq!(parent("/home/u/.tmuxp/s.yaml"), "/home/u/.tmuxp");
    assert_eq!(parent("/file"), "/");
    assert_eq!(parent(".tmuxp.yaml"), "");
    assert_eq!(parent("rel/.tmuxp.yaml"), "rel");
    assert_eq!(parent(""), "");
    assert_eq!(parent("/"), "");
}

#[test]
fn parent_sets_aside_what_does_not_count() {
    assert_eq!(parent("a/b/"), "a");
    assert_eq!(parent("a/b/."), "a");
    assert_eq!(parent("a//b"), "a");
    assert_eq!(parent("a/./b"), "a");
    assert_eq!(parent("//b"), "/");
    assert_eq!(parent("./b"), ".");
    assert_eq!(parent("../b"), "..");
    assert_eq!(parent("/a/.."), "/a");
}

#[test]
fn backup_path_appends_mark_and_stamp() {
    assert_eq!(
        backup_path("/p/.envrc", "20240131_235959"),
        "/p/.envrc.backup.20240131_235959"
    );
    assert_eq!(backup_path(".tmuxp.yaml", "x"), ".tmuxp.yaml.backup.x");
    assert_eq!(backup_path("a/b/", "x"), "a/b.backup.x");
    assert_eq!(backup_path("a/b/.", "x"), "a/b.backup.x");
}

#[test]
fn base_name_sets_trailing_slashes_aside() {
    assert_eq!(base_name_of("/home/u/proj"), Some("proj".to_string()));
    assert_eq!(base_name_of("/home/u/proj///"), Some("proj".to_string()));
    assert_eq!(base_name_of("proj"), Some("proj".to_string()));
    assert_eq!(base_name_of("/work/proj/."), Some("proj".to_string()));
    assert_eq!(base_name_of("/work/proj/./"), Some("proj".to_string()));
    assert_eq!(base_name_of("/work/.proj"), Some(".proj".to_string()));
    assert_eq!(base_name_of("/work/proj."), Some("proj.".to_string()));
    assert_eq!(base_name_of("/"), None);
    assert_eq!(base_name_of(""), None);
    assert_eq!(base_name_of("/a/.."), None);
    assert_eq!(base_name_of("."), None);
}

#[test]
fn decimal_writes_numbers() {
    assert_eq!(decimal(0), "0");
    assert_eq!(decimal(7), "7");
    assert_eq!(decimal(10), "10");
    assert_eq!(decimal(1234567890), "1234567890");
    assert_eq!(decimal(u128::MAX), "340282366920938463463374607431768211455");
}

#[test]
fn same_text_compares_characters() {
    assert!(same_text("zsh", "zsh"));
    assert!(!same_text("zsh", "Zsh"));
    assert!(!same_text("zsh", "zs"));
    assert!(same_text("", ""));
}

const SAMPLES: [&str; 28] = [
    "", "/", "//", ".", "..", "./.", "/.", "a", "a/", "a//", "a/.", "a/./", "a/..", "a/b",
    "a//b", "a/./b", "a/b/.", "/a", "/a/b/", "./a", "../a", "//a", "/./a", "a.", ".a", "a/.b",
    "/work/proj/.tmuxp.yaml", "rel dir/x y",
];

#[test]
fn names_agree_with_the_standard_library() {
    for sample in SAMPLES.iter() {
        let expected = std::path::Path::new(sample)
            .file_name()
            .map(|name| name.to_string_lossy().into_owned());
        assert_eq!(base_name_of(sample), expected, "file name of {:?}", sample);
        assert_eq!(names_file(sample), expected.is_some(), "file name of {:?}", sample);
    }
}

#[test]
fn parents_agree_with_the_standard_library() {
    for sample in SAMPLES.iter() {
        let expected = std::path::Path::new(sample)
            .parent()
            .map(|dir| dir.to_string_lossy().into_owned())
            .unwrap_or_default();
        assert_eq!(parent(sample), expected, "parent of {:?}", sample);
    }
}

#[test]
fn joins_agree_with_the_standard_library() {
    for base in SAMPLES.iter() {
        for leaf in SAMPLES.iter() {
            let expected = std::path::Path::new(base).join(leaf).to_string_lossy().into_owned();
            assert_eq!(join(base, leaf), expected, "{:?} joined with {:?}", base, leaf);
        }
    }
}

#[test]
fn backups_agree_with_the_standard_library() {
    for sample in SAMPLES.iter() {
        let path = std::path::Path::new(sample);
        if let Some(name) = path.file_name() {
            let dir = path.parent().unwrap_or_else(|| std::path::Path::new("."));
            let expected = dir.join(format!("{}.backup.s", name.to_string_lossy()));
            let given = backup_path(sample, "s");
            assert_eq!(
                std::path::Path::new(&given),
                expected.as_path(),
                "backup of {:?}",
                sample
            );
        }
    }
}
