use obs_engine::profile::{ends_with, fold, ignore_file, is_scene_file, obs_setting_folder};

#[test]
fn the_file_managers_mark_is_ignored_in_any_case() {
    assert!(ignore_file(".DS_Store"));
    assert!(ignore_file(".ds_store"));
    assert!(ignore_file(".DS_STORE"));
    assert!(ignore_file(".dS_sToRe"));
}

#[test]
fn other_names_are_not_ignored() {
    assert!(!ignore_file(""));
    assert!(!ignore_file("DS_Store"));
    assert!(!ignore_file(".DS_Store "));
    assert!(!ignore_file(".DS-Store"));
    assert!(!ignore_file(".DS_Stor\u{e9}"));
    // only ASCII letters fold: the long s is no `s`
    assert!(!ignore_file(".DS_Store".replace('S', "\u{17f}").as_str()));
    assert!(!ignore_file("Untitled"));
}

#[test]
fn ignore_file_agrees_with_the_standard_library() {
    for name in [".DS_Store", ".ds_STORE", ".DS_Store.bak", "a", ".DS@Store", ".DS`Store", ".DS[Store"] {
        assert_eq!(ignore_file(name), name.eq_ignore_ascii_case(".DS_Store"));
    }
}

#[test]
fn fold_lowers_ascii_capitals_only() {
    assert_eq!(fold('A'), 'a' as u32);
    assert_eq!(fold('Z'), 'z' as u32);
    assert_eq!(fold('a'), 'a' as u32);
    assert_eq!(fold('@'), '@' as u32);
    assert_eq!(fold('['), '[' as u32);
    assert_eq!(fold('É'), 'É' as u32);
}

#[test]
fn scene_collections_are_json_files_and_their_backups() {
    assert!(is_scene_file("Untitled.json"));
    assert!(is_scene_file("Untitled.json.bak"));
    assert!(is_scene_file(".json"));
    assert!(!is_scene_file("Untitled.JSON"));
    assert!(!is_scene_file("Untitled.json.tmp"));
    assert!(!is_scene_file("json"));
    assert!(!is_scene_file(""));
    assert!(!is_scene_file("Untitled.bak"));
}

#[test]
fn ends_with_compares_the_tail() {
    assert!(ends_with("abc", "bc"));
    assert!(ends_with("abc", ""));
    assert!(ends_with("abc", "abc"));
    assert!(!ends_with("abc", "xabc"));
    assert!(!ends_with("abc", "ab"));
    assert!(ends_with("grüße", "üße"));
}

#[test]
fn the_setting_folder_lies_under_the_home_directory() {
    assert_eq!(
        obs_setting_folder("/Users/me"),
        "/Users/me/Library/Application Support/obs-studio"
    );
}
