//! The path classifier: decides whether a dotted path denotes the legacy
//! `core::str::from_utf8` family. Only the first and last segments matter.

use vstd::prelude::*;

verus! {

/// The four targeted leaf names.
pub open spec fn is_from_utf8_name(name: Seq<char>) -> bool {
    ||| name == "from_utf8"@
    ||| name == "from_utf8_mut"@
    ||| name == "from_utf8_unchecked"@
    ||| name == "from_utf8_unchecked_mut"@
}

/// A legacy path: non-empty, rooted at the module `core`, and ending in
/// one of the four targeted leaf names.
pub open spec fn is_legacy_path(segments: Seq<Seq<char>>) -> bool {
    &&& segments.len() > 0
    &&& segments.first() == "core"@
    &&& is_from_utf8_name(segments.last())
}

/// Compares a segment name against a fixed name.
fn name_eq(s: &String, name: &str) -> (r: bool)
    ensures
        r == (s@ == name@),
{
    let other = String::from_str(name);
    *s == other
}

/// Whether `symbol` is one of the four targeted leaf names.
pub fn is_from_utf8(symbol: &String) -> (r: bool)
    ensures
        r == is_from_utf8_name(symbol@),
{
    name_eq(symbol, "from_utf8") || name_eq(symbol, "from_utf8_mut")
        || name_eq(symbol, "from_utf8_unchecked") || name_eq(symbol, "from_utf8_unchecked_mut")
}

/// Whether a path, given as its segment names in order, is a legacy path.
/// Total: an empty sequence is simply not a match.
pub fn should_lint_on_path(segments: &Vec<String>) -> (r: bool)
    ensures
        r == is_legacy_path(segments.deep_view()),
{
    if segments.len() == 0 {
        return false;
    }
    let module = &segments[0];
    if !name_eq(module, "core") {
        return false;
    }
    let func = &segments[segments.len() - 1];
    is_from_utf8(func)
}

} // verus!
