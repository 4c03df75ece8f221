use rust_download_subtitles::output::{
    folder_step, gave_up_message, FileOutcome, FileSearch, FileStep,
};
use std::collections::HashMap;

#[test]
fn the_first_name_has_no_number() {
    let search = FileSearch::new("Show S01E01 2020".to_string());
    assert_eq!(search.candidate(), "Show S01E01 2020");
}

#[test]
fn an_empty_file_is_kept() {
    let mut search = FileSearch::new("a".to_string());
    assert_eq!(search.step(FileOutcome::Opened { len: 0 }), FileStep::Keep);
    assert_eq!(search.candidate(), "a");
}

#[test]
fn a_file_with_contents_is_not_touched() {
    let mut search = FileSearch::new("a".to_string());
    assert_eq!(search.step(FileOutcome::Opened { len: 1 }), FileStep::TryNext);
    assert_eq!(search.candidate(), "a_1");
    assert_eq!(search.step(FileOutcome::Refused), FileStep::TryNext);
    assert_eq!(search.candidate(), "a_2");
    assert_eq!(search.step(FileOutcome::Opened { len: 0 }), FileStep::Keep);
}

#[test]
fn a_hundred_names_are_tried() {
    let mut search = FileSearch::new("a".to_string());
    let mut names = vec![search.candidate()];
    while search.step(FileOutcome::Refused) == FileStep::TryNext {
        names.push(search.candidate());
    }
    assert_eq!(names.len(), 100);
    assert_eq!(names[0], "a");
    assert_eq!(names[10], "a_10");
    assert_eq!(names[99], "a_99");
    for i in 0..names.len() {
        for j in 0..i {
            assert_ne!(names[i], names[j]);
        }
    }
    assert_eq!(search.step(FileOutcome::Opened { len: 5 }), FileStep::GiveUp);
    assert_eq!(search.step(FileOutcome::Opened { len: 0 }), FileStep::Keep);
}

#[test]
fn the_text_of_giving_up() {
    assert_eq!(
        gave_up_message(),
        "Giving up after 100 tries to create output files. Is there any problem with the output volume?"
    );
}

#[test]
fn a_folder_that_cannot_be_made() {
    assert_eq!(folder_step(true), FileStep::TryNext);
    assert_eq!(folder_step(false), FileStep::GiveUp);
}

#[test]
fn files_have_an_extension() {
    let file = |name: &str, extension: &str| FileSearch::new(name.to_string()).file(extension);
    assert_eq!(file("Show S01E01 2020", "srt"), Some("Show S01E01 2020.srt".to_string()));
    assert_eq!(file("Mr. Robot S01E01 2015", "srt"), Some("Mr.srt".to_string()));
    assert_eq!(file("a.b.c", "d.e"), Some("a.b.d.e".to_string()));
    assert_eq!(file("a.", "x"), Some("a.x".to_string()));
    assert_eq!(file(".a", "x"), Some(".a.x".to_string()));
    assert_eq!(file("...", "x"), Some("...x".to_string()));
    assert_eq!(file("..x", "srt"), Some("..srt".to_string()));
    assert_eq!(
        file("CSI: Miami S01E01 2002", "srt"),
        Some("CSI: Miami S01E01 2002.srt".to_string())
    );
    assert_eq!(file("V: Mr. X S01E01 1984", "srt"), Some("V: Mr.srt".to_string()));
    assert_eq!(file("AC/DC S01E01 2020", "srt"), Some("AC/DC S01E01 2020.srt".to_string()));
    assert_eq!(file("a.b/c", "srt"), Some("a.b/c.srt".to_string()));
    assert_eq!(file("a/.b", "srt"), Some("a/.b.srt".to_string()));
    assert_eq!(file("name", "a:b"), Some("name.a:b".to_string()));
    assert_eq!(file("a", ".srt"), Some("a..srt".to_string()));
    assert_eq!(file("a.b", ""), Some("a".to_string()));
    assert_eq!(file("a", ""), Some("a".to_string()));
    assert_eq!(file("\u{e9}.\u{e9}", "\u{4e2d}"), Some("\u{e9}.\u{4e2d}".to_string()));
}

#[test]
fn files_are_those_of_the_standard_library() {
    let names = [
        "a", "a.", "a.b", "a.b.c", ".a", ".a.b", "...", "..x", ".x.", "a..b", "a:", "ab:", "a:b",
        "a:b.c", "CSI: Miami S01E01 2002", "CSI: N.Y. S01E01 2004", "a.b: c", "V: x", "a/b",
        "a.b/c", "a.b/c.d", "a/.b", "a/.b.c", "a/..b", "/a", "/a.b", "a//b.c", "a/./b", "a/../b.c",
        "\u{e9}.\u{e9}", " ", "a/ ",
    ];
    for name in names {
        for extension in ["srt", "", "x.y", ".x", "a:b", "\u{4e2d}"] {
            match FileSearch::new(name.to_string()).file(extension) {
                Some(file) => {
                    let mut expected = std::path::Path::new("folder").join(name);
                    expected.set_extension(extension);
                    let path = std::path::Path::new("folder").join(&file);
                    assert_eq!(path.as_os_str(), expected.as_os_str());
                }
                None => assert_eq!(name, "a:"),
            }
        }
    }
}

#[test]
fn files_that_depend_on_the_machine() {
    let file = |name: &str, extension: &str| FileSearch::new(name.to_string()).file(extension);
    for name in [
        "", ".", "..", "/", "a/", "a/.", "a/..", "a\\b", "\\", "C:", "C:.x", "C:..", "//a/b",
    ] {
        assert_eq!(file(name, "srt"), None);
    }
    for extension in ["com/x", "a\\b"] {
        assert_eq!(file("name", extension), None);
    }
}

/// Creates a file in a folder, given the lengths of the files in it.
fn create(folder: &mut HashMap<String, u64>, file_name: &str, extension: &str) -> Option<String> {
    let mut search = FileSearch::new(file_name.to_string());
    loop {
        let file = search.file(extension).unwrap();
        let len = *folder.entry(file.clone()).or_insert(0);
        match search.step(FileOutcome::Opened { len }) {
            FileStep::Keep => return Some(file),
            FileStep::TryNext => continue,
            FileStep::GiveUp => return None,
        }
    }
}

#[test]
fn serial_numbers_are_taken_in_turn() {
    let mut folder = HashMap::new();
    for k in 0..100 {
        let expected = if k == 0 { "a.srt".to_string() } else { format!("a_{}.srt", k) };
        assert_eq!(create(&mut folder, "a", "srt"), Some(expected.clone()));
        folder.insert(expected, 7);
    }
    assert_eq!(create(&mut folder, "a", "srt"), None);
    assert_eq!(folder.len(), 100);
}

#[test]
fn an_empty_file_is_taken_again() {
    let mut folder = HashMap::new();
    folder.insert("a.srt".to_string(), 3);
    assert_eq!(create(&mut folder, "a", "srt"), Some("a_1.srt".to_string()));
    assert_eq!(create(&mut folder, "a", "srt"), Some("a_1.srt".to_string()));
    assert_eq!(folder["a_1.srt"], 0);
}
