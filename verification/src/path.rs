//! Where the engine looks for modules: the plugin layout of each platform
//! under an installation prefix.

use vstd::prelude::*;
use vstd::string::*;

use crate::video::Platform;

verus! {

/// `text` with every occurrence of `pattern` replaced by `with`, found
/// from the left and never overlapping. An empty pattern occurs nowhere.
pub open spec fn replaced(text: Seq<char>, pattern: Seq<char>, with: Seq<char>) -> Seq<char>
    decreases text.len(),
{
    if pattern.len() == 0 || text.len() < pattern.len() {
        text
    } else if text.subrange(0, pattern.len() as int) == pattern {
        with + replaced(text.subrange(pattern.len() as int, text.len() as int), pattern, with)
    } else {
        seq![text[0]] + replaced(text.subrange(1, text.len() as int), pattern, with)
    }
}

/// `prefix` with the home directory written out: a leading `~/` stands for
/// `home` and a slash, and after that every `$HOME` stands for `home`.
pub open spec fn expanded(prefix: Seq<char>, home: Seq<char>) -> Seq<char> {
    let rooted = if "~/"@.is_prefix_of(prefix) {
        home + "/"@ + prefix.skip(2)
    } else {
        prefix
    };
    replaced(rooted, "$HOME"@, home)
}

/// The pairs of module directory and module data directory that the
/// plugin layout of `platform` puts under `root`. In a data directory
/// `%module%` stands for the name of the module being loaded.
pub open spec fn module_dirs(root: Seq<char>, platform: Platform) -> Seq<(Seq<char>, Seq<char>)> {
    match platform {
        Platform::MacOs => seq![
            (
                root + "/PlugIns/%module%.plugin/Contents/MacOS"@,
                root + "/PlugIns/%module%.plugin/Contents/Resources"@,
            ),
        ],
        Platform::Windows => seq![
            (root + "/obs-plugins/64bit"@, root + "/data/obs-plugins/%module%"@),
        ],
        Platform::Linux => seq![
            (root + "/lib/obs-plugins"@, root + "/share/obs/obs-plugins/%module%"@),
            (root + "/obs-plugins/64bit"@, root + "/data/obs-plugins/%module%"@),
        ],
    }
}

/// Text shorter than the pattern holds no occurrence of it.
proof fn lemma_replaced_short(text: Seq<char>, pattern: Seq<char>, with: Seq<char>)
    requires
        text.len() < pattern.len(),
    ensures
        replaced(text, pattern, with) == text,
{
}

/// Whether `pattern` stands in `text` at offset `at`, where `n` and `m` are
/// the lengths of the two.
pub(crate) fn occurs_at(text: &str, pattern: &str, at: usize, n: usize, m: usize) -> (r: bool)
    requires
        n == text@.len(),
        m == pattern@.len(),
        at + m <= n,
    ensures
        r == (text@.subrange(at as int, at + m) == pattern@),
{
    let mut k: usize = 0;
    while k < m
        invariant
            k <= m,
            at + m <= n,
            n == text@.len(),
            m == pattern@.len(),
            forall|j: int| 0 <= j < k ==> text@[at + j] == pattern@[j],
        decreases m - k,
    {
        if text.get_char(at + k) != pattern.get_char(k) {
            return false;
        }
        k += 1;
    }
    assert(text@.subrange(at as int, at + m) =~= pattern@);
    true
}

/// `text` with every occurrence of `pattern` replaced by `with`.
pub fn replace(text: &str, pattern: &str, with: &str) -> (r: String)
    ensures
        r@ == replaced(text@, pattern@, with@),
{
    let n = text.unicode_len();
    let m = pattern.unicode_len();
    if m == 0 {
        return text.to_owned();
    }
    let mut out = String::new();
    let mut i: usize = 0;
    assert(text@.subrange(0, n as int) =~= text@);
    while i < n
        invariant
            i <= n,
            m > 0,
            n == text@.len(),
            m == pattern@.len(),
            out@ + replaced(text@.subrange(i as int, n as int), pattern@, with@) == replaced(
                text@,
                pattern@,
                with@,
            ),
        decreases n - i,
    {
        let ghost rest = text@.subrange(i as int, n as int);
        if n - i >= m && occurs_at(text, pattern, i, n, m) {
            assert(rest.subrange(0, m as int) =~= text@.subrange(i as int, i + m));
            assert(rest.subrange(m as int, rest.len() as int) =~= text@.subrange(
                i + m,
                n as int,
            ));
            out.append(with);
            i += m;
        } else {
            assert(rest.subrange(1, rest.len() as int) =~= text@.subrange(i + 1, n as int));
            if n - i >= m {
                assert(rest.subrange(0, m as int) =~= text@.subrange(i as int, i + m));
            } else {
                proof {
                    lemma_replaced_short(rest, pattern@, with@);
                    lemma_replaced_short(text@.subrange(i + 1, n as int), pattern@, with@);
                }
            }
            let one = text.substring_char(i, i + 1);
            out.append(one);
            i += 1;
        }
    }
    out
}

/// `prefix` with the home directory written out.
pub fn expand_home(prefix: &str, home: &str) -> (r: String)
    ensures
        r@ == expanded(prefix@, home@),
{
    proof {
        reveal_strlit("~/");
    }
    let n = prefix.unicode_len();
    let tilde = "~/";
    let rooted = if n >= 2 && occurs_at(prefix, tilde, 0, n, 2) {
        let mut text = home.to_owned();
        text.append("/");
        text.append(prefix.substring_char(2, n));
        text
    } else {
        prefix.to_owned()
    };
    replace(rooted.as_str(), "$HOME", home)
}

/// The module directory pairs of `platform` under `prefix`, with the home
/// directory written out.
pub fn module_paths(prefix: &str, home: &str, platform: Platform) -> (r: Vec<(String, String)>)
    ensures
        r@.len() == module_dirs(expanded(prefix@, home@), platform).len(),
        forall|i: int|
            0 <= i < r@.len() ==> {
                &&& (#[trigger] r@[i]).0@ == module_dirs(expanded(prefix@, home@), platform)[i].0
                &&& r@[i].1@ == module_dirs(expanded(prefix@, home@), platform)[i].1
            },
{
    let root = expand_home(prefix, home);
    let mut pairs: Vec<(String, String)> = Vec::new();
    match platform {
        Platform::MacOs => {
            pairs.push(
                (
                    root.clone().concat("/PlugIns/%module%.plugin/Contents/MacOS"),
                    root.clone().concat("/PlugIns/%module%.plugin/Contents/Resources"),
                ),
            );
        },
        Platform::Windows => {
            pairs.push(
                (
                    root.clone().concat("/obs-plugins/64bit"),
                    root.clone().concat("/data/obs-plugins/%module%"),
                ),
            );
        },
        Platform::Linux => {
            pairs.push(
                (
                    root.clone().concat("/lib/obs-plugins"),
                    root.clone().concat("/share/obs/obs-plugins/%module%"),
                ),
            );
            pairs.push(
                (
                    root.clone().concat("/obs-plugins/64bit"),
                    root.clone().concat("/data/obs-plugins/%module%"),
                ),
            );
        },
    }
    pairs
}

/// Text without the first character of the pattern holds no occurrence of
/// the pattern.
proof fn lemma_replaced_without_first(text: Seq<char>, pattern: Seq<char>, with: Seq<char>)
    requires
        pattern.len() > 0,
        !text.contains(pattern[0]),
    ensures
        replaced(text, pattern, with) == text,
    decreases text.len(),
{
    if text.len() >= pattern.len() {
        let rest = text.subrange(1, text.len() as int);
        assert forall|i: int| 0 <= i < rest.len() implies rest[i] != pattern[0] by {}
        lemma_replaced_without_first(rest, pattern, with);
    }
}

/// A prefix that names no home directory, neither by a leading `~/` nor by
/// a `$` anywhere, stands for itself whatever the home directory is. So
/// under the prefix `/prefix` the bundle layout has the one pair
/// `/prefix/PlugIns/%module%.plugin/Contents/MacOS` and
/// `/prefix/PlugIns/%module%.plugin/Contents/Resources`.
pub proof fn lemma_plain_prefix_stands_for_itself(prefix: Seq<char>, home: Seq<char>)
    requires
        !"~/"@.is_prefix_of(prefix),
        !prefix.contains('$'),
    ensures
        expanded(prefix, home) == prefix,
        module_dirs(expanded(prefix, home), Platform::MacOs) == seq![
            (
                prefix + "/PlugIns/%module%.plugin/Contents/MacOS"@,
                prefix + "/PlugIns/%module%.plugin/Contents/Resources"@,
            ),
        ],
{
    reveal_strlit("$HOME");
    lemma_replaced_without_first(prefix, "$HOME"@, home);
}

} // verus!
