use filesort::get_subdir_by_extension;

#[test]
fn unclassified_resolves_to_other() {
    for nesting_level in 1..=3u8 {
        for use_alt in [false, true] {
            assert_eq!(get_subdir_by_extension("xyz", nesting_level, use_alt), "other");
            assert_eq!(get_subdir_by_extension("", nesting_level, use_alt), "other");
            assert_eq!(get_subdir_by_extension("PNG", nesting_level, use_alt), "other");
        }
    }
}

#[test]
fn resolve_is_deterministic() {
    for nesting_level in 1..=3u8 {
        for use_alt in [false, true] {
            for ext in ["gif", "qt", "mp4", "png", "xyz"] {
                let first = get_subdir_by_extension(ext, nesting_level, use_alt);
                let second = get_subdir_by_extension(ext, nesting_level, use_alt);
                assert_eq!(first, second);
            }
        }
    }
}

#[test]
fn level_one_is_bare_category() {
    for use_alt in [false, true] {
        assert_eq!(get_subdir_by_extension("gif", 1, use_alt), "image");
        assert_eq!(get_subdir_by_extension("qt", 1, use_alt), "video");
        assert_eq!(get_subdir_by_extension("mp4", 1, use_alt), "video");
        assert_eq!(get_subdir_by_extension("zip", 1, use_alt), "archive");
    }
}

#[test]
fn default_entry_level_two_under_either_flag() {
    assert_eq!(get_subdir_by_extension("mp4", 2, true), "video/mp4");
    assert_eq!(get_subdir_by_extension("mp4", 2, false), "video/mp4");
    assert_eq!(get_subdir_by_extension("png", 2, true), "image/png");
    assert_eq!(get_subdir_by_extension("png", 2, false), "image/png");
}

#[test]
fn gif_with_alternate_name() {
    assert_eq!(get_subdir_by_extension("gif", 1, false), "image");
    assert_eq!(get_subdir_by_extension("gif", 2, false), "image/gif");
    assert_eq!(get_subdir_by_extension("gif", 2, true), "image/animated");
    assert_eq!(get_subdir_by_extension("gif", 3, true), "image/animated/gif");
}

#[test]
fn qt_with_sort_directory() {
    assert_eq!(get_subdir_by_extension("qt", 2, false), "video/quicktime");
    assert_eq!(get_subdir_by_extension("qt", 3, true), "video/quicktime");
    assert_eq!(get_subdir_by_extension("qt", 2, true), "video/quicktime");
    assert_eq!(get_subdir_by_extension("qt", 3, false), "video/quicktime");
}

#[test]
fn mp4_with_neither_option() {
    for nesting_level in 2..=3u8 {
        for use_alt in [false, true] {
            assert_eq!(get_subdir_by_extension("mp4", nesting_level, use_alt), "video/mp4");
        }
    }
}

#[test]
fn levels_two_and_three_collapse_without_alternate() {
    for ext in ["gif", "qt", "mp4", "rs", "nonsense"] {
        assert_eq!(
            get_subdir_by_extension(ext, 2, false),
            get_subdir_by_extension(ext, 3, false)
        );
    }
}
