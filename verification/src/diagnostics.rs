//! Diagnostics addressed to the host's reporting sink, and the exact texts
//! the rule builds: headline messages, the canonical legacy import text,
//! and the `std::str` replacement.

use crate::syntax::Span;
use vstd::prelude::*;

verus! {

/// What a diagnostic proposes beyond its headline message.
pub enum Advice {
    /// A machine-applicable fix: replace the diagnostic's span with
    /// `replacement`, introduced by `suggestion`.
    Fix { suggestion: String, replacement: String },
    /// Advisory only: a help text, with no replacement offered.
    Help { help: String },
}

/// A diagnostic for the host to report: where, the headline message, and
/// the advice attached to it.
pub struct Diagnostic {
    pub span: Span,
    pub message: String,
    pub advice: Advice,
}

/// The canonical rewrite target for a leaf name: `std::str::<leaf>`.
pub open spec fn std_replacement(leaf: Seq<char>) -> Seq<char> {
    "std::str::"@ + leaf
}

/// The exact source text of a simple legacy single import of a leaf name:
/// `core::str::<leaf>`. Only an import written exactly so is rewritten
/// automatically.
pub open spec fn canonical_core_text(leaf: Seq<char>) -> Seq<char> {
    "core::str::"@ + leaf
}

/// Headline for a flagged import of a leaf name.
pub open spec fn import_message(leaf: Seq<char>) -> Seq<char> {
    "importing legacy `core::str::"@ + leaf + "` function"@
}

/// Suggestion text introducing the automatic rewrite of an import.
pub open spec fn import_fix_suggestion() -> Seq<char> {
    "consider instead importing the item from `std`"@
}

/// Help text for a legacy import whose source text is irregular, naming
/// the `std::str` item to import instead.
pub open spec fn import_help(leaf: Seq<char>) -> Seq<char> {
    "consider instead importing the item from `"@ + std_replacement(leaf) + "`"@
}

/// Headline for a flagged call.
pub open spec fn call_message() -> Seq<char> {
    "usage of legacy `core::str::from_utf8` function"@
}

/// Suggestion text introducing the automatic rewrite of a call's callee.
pub open spec fn call_fix_suggestion() -> Seq<char> {
    "try instead"@
}

/// Builds `std::str::<leaf>` for a leaf name.
pub fn render_std_replacement(leaf: &String) -> (r: String)
    ensures
        r@ == std_replacement(leaf@),
{
    String::from_str("std::str::").concat(leaf.as_str())
}

} // verus!
