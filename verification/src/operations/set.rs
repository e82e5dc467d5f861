//! `tinty set`: the older way of applying a Base16 scheme to each item,
//! copying the item's theme file into the data dir and running its hook.
use crate::config::ConfigItem;
use crate::paths::{file_extension, file_stem, split_file_name};
use crate::text::{cat, cat3, replace_all, str_eq, str_replace};
use vstd::prelude::*;

verus! {

/// The theme file (by stem) `tinty set` looks for: `base16-<scheme>`.
pub fn set_target_theme(scheme_name: &str) -> (res: String)
    ensures
        res@ == "base16-"@ + scheme_name@,
{
    cat("base16-", scheme_name)
}

/// The first of `names` (an item's theme files) whose stem is `target`.
pub fn find_set_theme(names: &Vec<String>, target: &str) -> (res: Option<usize>)
    ensures
        match res {
            Some(i) => i < names.len() && file_stem(names@[i as int]@) == target@
                && forall|j: int| 0 <= j < i ==> file_stem(#[trigger] names@[j]@) != target@,
            None => forall|j: int| 0 <= j < names.len() ==> file_stem(#[trigger] names@[j]@) != target@,
        },
{
    let n = names.len();
    let mut i: usize = 0;
    while i < n
        invariant
            n == names.len(),
            i <= n,
            forall|j: int| 0 <= j < i ==> file_stem(#[trigger] names@[j]@) != target@,
        decreases n - i,
    {
        let (stem, _) = split_file_name(names[i].as_str());
        if str_eq(stem.as_str(), target) {
            return Some(i);
        }
        i = i + 1;
    }
    None
}

/// The name an item's theme file `found` is copied under by `tinty set`:
/// `<item>-<themes dir>-file.<extension>` (the extension empty when there is
/// none).
pub open spec fn set_copy_name(item: ConfigItem, found: Seq<char>) -> Seq<char> {
    item.name@ + seq!['-'] + item.themes_dir@ + "-file."@ + match file_extension(found) {
        Some(e) => e,
        None => Seq::empty(),
    }
}

/// The name an item's theme file `found` is copied under.
pub fn set_theme_file_name(item: &ConfigItem, found: &str) -> (res: String)
    ensures
        res@ == set_copy_name(*item, found@),
{
    let (_, ext) = split_file_name(found);
    proof {
        reveal_strlit("-");
    }
    let mut s = cat3(item.name.as_str(), "-", item.themes_dir.as_str());
    s.append("-file.");
    match ext {
        Some(e) => s.append(e.as_str()),
        None => {},
    }
    proof {
        assert(s@ =~= set_copy_name(*item, found@));
    }
    s
}

/// An item's hook with `%f` replaced by the theme file's path.
pub fn set_hook_script(hook: &str, theme_path: &str) -> (res: String)
    ensures
        res@ == replace_all(hook@, seq!['%', 'f'], theme_path@),
{
    proof {
        reveal_strlit("%f");
        assert("%f"@ =~= seq!['%', 'f']);
    }
    str_replace(hook, "%f", theme_path)
}

/// The complaint when an item's themes directory is missing.
pub fn themes_missing_message() -> (res: String)
    ensures
        res@ == "Themes files are missing, try running `tinty setup` or `tinty update` and try again."@,
{
    "Themes files are missing, try running `tinty setup` or `tinty update` and try again.".to_string()
}

/// The notice printed when an item has no theme file for the scheme.
pub fn set_missing_theme_message(item_name: &str) -> (res: String)
    ensures
        res@ == "Theme does not exists for "@ + item_name@
            + ". Try running `tinty update` or submit an issue on https://github.com/tinted-theming/tinty"@,
{
    cat3("Theme does not exists for ", item_name, ". Try running `tinty update` or submit an issue on https://github.com/tinted-theming/tinty")
}

} // verus!
