use filesort::FileEntry;
use filesort::plan_custom_sort;
use filesort::plan_sort;

fn entry(name: &str, extension: Option<&str>) -> FileEntry {
    FileEntry {
        name: name.to_owned(),
        extension: extension.map(|e| e.to_owned()),
    }
}

#[test]
fn one_file_per_category_level_two() {
    let files = vec![
        entry("a.png", Some("png")),
        entry("b.mp4", Some("mp4")),
        entry("c.mp3", Some("mp3")),
        entry("d.pdf", Some("pdf")),
        entry("e.zip", Some("zip")),
        entry("f.rs", Some("rs")),
    ];
    let plan = plan_sort(&files, 2, false);
    assert_eq!(plan.len(), 6);
    let expected = [
        ("a.png", "image/png"),
        ("b.mp4", "video/mp4"),
        ("c.mp3", "audio/mp3"),
        ("d.pdf", "document/pdf"),
        ("e.zip", "archive/zip"),
        ("f.rs", "code/rs"),
    ];
    for (m, (name, dest)) in plan.iter().zip(expected.iter()) {
        assert_eq!(m.file_name, *name);
        assert_eq!(m.dest_subdir, *dest);
    }
    for i in 0..plan.len() {
        for j in 0..plan.len() {
            if i != j {
                assert_ne!(plan[i].dest_subdir, plan[j].dest_subdir);
            }
        }
    }
}

#[test]
fn plan_skips_entries_without_extension() {
    let files = vec![
        entry("README", None),
        entry("a.gif", Some("gif")),
        entry("Makefile", None),
    ];
    let plan = plan_sort(&files, 3, true);
    assert_eq!(plan.len(), 1);
    assert_eq!(plan[0].file_name, "a.gif");
    assert_eq!(plan[0].dest_subdir, "image/animated/gif");
}

#[test]
fn plan_routes_unknown_extensions_to_other() {
    let files = vec![entry("weird.xyz", Some("xyz"))];
    let plan = plan_sort(&files, 2, false);
    assert_eq!(plan.len(), 1);
    assert_eq!(plan[0].dest_subdir, "other");
}

#[test]
fn custom_sort_keeps_only_the_target_extension() {
    let files = vec![
        entry("notes.txt", Some("txt")),
        entry("a.png", Some("png")),
        entry("todo.txt", Some("txt")),
        entry("README", None),
        entry("txt", None),
    ];
    let names = plan_custom_sort(&files, "txt");
    assert_eq!(names, vec!["notes.txt".to_owned(), "todo.txt".to_owned()]);
}

#[test]
fn custom_sort_of_nothing_matching_is_empty() {
    let files = vec![entry("a.png", Some("png")), entry("b", None)];
    let names = plan_custom_sort(&files, "txt");
    assert!(names.is_empty());
}
