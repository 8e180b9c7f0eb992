//! The rule's guarantees, stated once over the spec functions that the
//! checkers' contracts use.

use crate::classify::is_legacy_path;
use crate::rule::{call_lints, import_lints};
use crate::syntax::{CallExpr, ImportItem};
use crate::version::{rule_active, Version};
use vstd::prelude::*;

verus! {

/// The classifier, spelled out: a path is legacy iff it is non-empty, its
/// first segment is `core`, and its last segment is one of the four
/// targeted names; every other path, the empty one included, is not.
pub proof fn lemma_classifier_characterization(segments: Seq<Seq<char>>)
    ensures
        is_legacy_path(segments) <==> (segments.len() > 0 && segments.first() == "core"@ && (
        segments.last() == "from_utf8"@ || segments.last() == "from_utf8_mut"@ || segments.last()
            == "from_utf8_unchecked"@ || segments.last() == "from_utf8_unchecked_mut"@)),
{
}

/// Version gating: when the configured minimum version does not reach the
/// threshold, neither checker emits a diagnostic, whatever the node holds.
pub proof fn lemma_version_gate(
    msrv: Version,
    item: ImportItem,
    call: CallExpr,
    in_external_macro: bool,
)
    requires
        !rule_active(msrv),
    ensures
        !import_lints(msrv, item, in_external_macro),
        !call_lints(msrv, call, in_external_macro),
{
}

/// Macro exclusion: a node that originates from an external macro
/// expansion is never flagged, whatever the version gate says.
pub proof fn lemma_macro_exclusion(msrv: Version, item: ImportItem, call: CallExpr)
    ensures
        !import_lints(msrv, item, true),
        !call_lints(msrv, call, true),
{
}

/// Imports that do not bind a single name — grouped and wildcard forms —
/// are never flagged, whatever their path.
pub proof fn lemma_non_single_import_excluded(
    msrv: Version,
    item: ImportItem,
    in_external_macro: bool,
)
    requires
        !(item.kind is Single),
    ensures
        !import_lints(msrv, item, in_external_macro),
{
}

/// A path not rooted at the module `core` — `std::str::from_utf8` among
/// them — is never a legacy path.
pub proof fn lemma_foreign_root_not_legacy(segments: Seq<Seq<char>>)
    requires
        segments.len() == 0 || segments.first() != "core"@,
    ensures
        !is_legacy_path(segments),
{
}

/// Idempotence of the rewrite: both forms a fix or help text steers the
/// user to — a path rooted at `std` and a bare path rooted at `str` — are
/// not legacy paths, so running the rule over already-rewritten code
/// matches nothing.
pub proof fn lemma_rewritten_path_not_legacy(segments: Seq<Seq<char>>)
    requires
        segments.len() > 0,
        segments.first() == "std"@ || segments.first() == "str"@,
    ensures
        !is_legacy_path(segments),
{
    reveal_strlit("std");
    reveal_strlit("str");
    reveal_strlit("core");
    assert(("std"@).len() == 3);
    assert(("str"@).len() == 3);
    assert(("core"@).len() == 4);
    assert(segments.first() != "core"@);
}

} // verus!
