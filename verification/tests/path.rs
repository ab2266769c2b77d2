use obs_engine::path::{expand_home, module_paths, replace};
use obs_engine::video::Platform;

fn pair(a: &str, b: &str) -> (String, String) {
    (a.to_string(), b.to_string())
}

#[test]
fn replace_every_occurrence_from_the_left() {
    assert_eq!(replace("a$HOME/b$HOME", "$HOME", "/root"), "a/root/b/root");
    assert_eq!(replace("aaa", "aa", "b"), "ba");
    assert_eq!(replace("abc", "abcd", "x"), "abc");
    assert_eq!(replace("", "x", "y"), "");
    assert_eq!(replace("$HOM$HOME", "$HOME", "~"), "$HOM~");
    assert_eq!(replace("grüße", "ü", "ue"), "grueße");
}

#[test]
fn replace_agrees_with_the_standard_library() {
    let cases = [
        ("$HOME$HOME", "$HOME", ""),
        ("x$$HOME", "$HOME", "h"),
        ("ababab", "aba", "c"),
        ("no match here", "zz", "y"),
        ("ends with pat", "pat", "PAT"),
    ];
    for (text, pattern, with) in cases {
        assert_eq!(replace(text, pattern, with), text.replace(pattern, with));
    }
}

#[test]
fn replace_with_an_empty_pattern_changes_nothing() {
    assert_eq!(replace("abc", "", "x"), "abc");
}

#[test]
fn expand_home_writes_out_a_leading_tilde() {
    assert_eq!(expand_home("~/Applications/OBS.app/Contents", "/Users/me"), "/Users/me/Applications/OBS.app/Contents");
    assert_eq!(expand_home("~/", "/Users/me"), "/Users/me/");
}

#[test]
fn expand_home_leaves_other_tildes_alone() {
    assert_eq!(expand_home("~", "/Users/me"), "~");
    assert_eq!(expand_home("/a/~/b", "/Users/me"), "/a/~/b");
    assert_eq!(expand_home("~x/b", "/Users/me"), "~x/b");
}

#[test]
fn expand_home_writes_out_every_home_token() {
    assert_eq!(
        expand_home("$HOME/Library/Application Support/obs-studio", "/Users/me"),
        "/Users/me/Library/Application Support/obs-studio"
    );
    assert_eq!(expand_home("$HOME:$HOME", "/h"), "/h:/h");
    assert_eq!(expand_home("~/$HOME", "/h"), "/h//h");
}

#[test]
fn expand_home_of_a_plain_prefix_is_the_prefix() {
    assert_eq!(expand_home("/prefix", "/Users/me"), "/prefix");
    assert_eq!(expand_home("", "/Users/me"), "");
}

#[test]
fn bundle_layout_has_the_two_directories() {
    assert_eq!(
        module_paths("/prefix", "/Users/me", Platform::MacOs),
        vec![pair(
            "/prefix/PlugIns/%module%.plugin/Contents/MacOS",
            "/prefix/PlugIns/%module%.plugin/Contents/Resources"
        )]
    );
}

#[test]
fn flat_layout() {
    assert_eq!(
        module_paths("C:/obs-studio", "C:/Users/me", Platform::Windows),
        vec![pair("C:/obs-studio/obs-plugins/64bit", "C:/obs-studio/data/obs-plugins/%module%")]
    );
}

#[test]
fn linux_layout_has_both_conventions_in_order() {
    assert_eq!(
        module_paths("~/obs", "/home/me", Platform::Linux),
        vec![
            pair("/home/me/obs/lib/obs-plugins", "/home/me/obs/share/obs/obs-plugins/%module%"),
            pair("/home/me/obs/obs-plugins/64bit", "/home/me/obs/data/obs-plugins/%module%"),
        ]
    );
}
