//! Names in the settings folder of an installed engine.

use vstd::prelude::*;
use vstd::string::*;

use crate::path::{occurs_at, replace, replaced};

verus! {

/// A character with the letters `A` to `Z` folded onto `a` to `z`.
pub open spec fn spec_fold(c: char) -> u32 {
    if 'A' <= c <= 'Z' {
        (c as u32 + 32) as u32
    } else {
        c as u32
    }
}

/// Whether two texts are the same but for the case of ASCII letters.
pub open spec fn same_but_for_case(a: Seq<char>, b: Seq<char>) -> bool {
    &&& a.len() == b.len()
    &&& forall|i: int| 0 <= i < a.len() ==> spec_fold(a[i]) == spec_fold(b[i])
}

/// Whether `text` ends with `suffix`.
pub open spec fn spec_ends_with(text: Seq<char>, suffix: Seq<char>) -> bool {
    &&& suffix.len() <= text.len()
    &&& text.subrange(text.len() - suffix.len(), text.len() as int) == suffix
}

/// A character with the letters `A` to `Z` folded onto `a` to `z`.
#[verifier::when_used_as_spec(spec_fold)]
pub fn fold(c: char) -> (r: u32)
    ensures
        r == spec_fold(c),
{
    let code = c as u32;
    if 'A' <= c && c <= 'Z' {
        code + 32
    } else {
        code
    }
}

/// Whether `text` ends with `suffix`.
pub fn ends_with(text: &str, suffix: &str) -> (r: bool)
    ensures
        r == spec_ends_with(text@, suffix@),
{
    let n = text.unicode_len();
    let m = suffix.unicode_len();
    m <= n && occurs_at(text, suffix, n - m, n, m)
}

/// Where an installed engine keeps its settings under the home directory
/// `home`.
pub fn obs_setting_folder(home: &str) -> (r: String)
    ensures
        r@ == replaced("$HOME/Library/Application Support/obs-studio"@, "$HOME"@, home@),
{
    replace("$HOME/Library/Application Support/obs-studio", "$HOME", home)
}

/// Whether a directory entry of this name is no profile and no scene
/// collection but the file manager's own: `.DS_Store`, in any case.
pub fn ignore_file(name: &str) -> (r: bool)
    ensures
        r == same_but_for_case(name@, ".DS_Store"@),
{
    proof {
        reveal_strlit(".DS_Store");
    }
    let mark = ".DS_Store";
    let n = name.unicode_len();
    if n != 9 {
        return false;
    }
    let mut i: usize = 0;
    while i < n
        invariant
            i <= n,
            n == 9,
            n == name@.len(),
            mark@ == ".DS_Store"@,
            mark@.len() == 9,
            forall|j: int| 0 <= j < i ==> spec_fold(name@[j]) == spec_fold(mark@[j]),
        decreases n - i,
    {
        if fold(name.get_char(i)) != fold(mark.get_char(i)) {
            return false;
        }
        i += 1;
    }
    true
}

/// Whether a directory entry of this name is a scene collection: a JSON
/// file, or the backup of one.
pub fn is_scene_file(name: &str) -> (r: bool)
    ensures
        r == (spec_ends_with(name@, ".json"@) || spec_ends_with(name@, ".json.bak"@)),
{
    ends_with(name, ".json") || ends_with(name, ".json.bak")
}

} // verus!
