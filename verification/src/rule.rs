//! The rule itself: two stateless entry points, one for `use` items and
//! one for call expressions, each a decision tree
//! version gate -> provenance filter -> path classifier -> diagnostic.

use crate::classify::{is_legacy_path, should_lint_on_path};
use crate::diagnostics::{
    call_fix_suggestion, call_message, canonical_core_text, import_fix_suggestion, import_help,
    import_message, render_std_replacement, std_replacement, Advice, Diagnostic,
};
use crate::syntax::{CallExpr, Callee, ImportItem, ImportKind};
use crate::version::{rule_active, str_from_utf8_threshold, Version};
use vstd::prelude::*;

verus! {

/// The rule. It holds only the compilation unit's configured
/// minimum-supported version, captured once at construction; every check
/// is otherwise stateless.
pub struct LegacyStrFromUtf8 {
    pub msrv: Version,
}

/// The import checker emits a diagnostic exactly on these inputs: the rule
/// is active, the import binds a single name, the node is not
/// macro-expanded, and the path is legacy.
pub open spec fn import_lints(msrv: Version, item: ImportItem, in_external_macro: bool) -> bool {
    &&& rule_active(msrv)
    &&& item.kind is Single
    &&& !in_external_macro
    &&& is_legacy_path(item.segments.deep_view())
}

/// The call checker emits a diagnostic exactly on these inputs: the rule
/// is active, the node is not macro-expanded, and the callee is a resolved
/// legacy path.
pub open spec fn call_lints(msrv: Version, call: CallExpr, in_external_macro: bool) -> bool {
    &&& rule_active(msrv)
    &&& !in_external_macro
    &&& call.callee matches Callee::Resolved(segments) && is_legacy_path(segments.deep_view())
}

impl LegacyStrFromUtf8 {
    pub fn new(msrv: Version) -> (rule: Self)
        ensures
            rule.msrv == msrv,
    {
        LegacyStrFromUtf8 { msrv }
    }

    /// The import checker. `in_external_macro` is the host's provenance
    /// verdict on the item's span, and `path_text` the source text the
    /// host fetched for the path's span.
    ///
    /// A diagnostic is returned iff the input matches (`import_lints`);
    /// when one is, it names the path's span, carries the import headline,
    /// and offers a machine-applicable rewrite to `std::str::<leaf>`
    /// exactly when the path's source text is the canonical
    /// `core::str::<leaf>` form, a help text naming that target otherwise.
    pub fn check_item(&self, item: &ImportItem, in_external_macro: bool, path_text: &String) -> (d:
        Option<Diagnostic>)
        ensures
            d is Some <==> import_lints(self.msrv, *item, in_external_macro),
            d matches Some(diag) ==> ({
                let leaf = item.segments.deep_view().last();
                &&& diag.span == item.span
                &&& diag.message@ == import_message(leaf)
                &&& (path_text@ == canonical_core_text(leaf) ==> (diag.advice matches Advice::Fix {
                    suggestion,
                    replacement,
                } && suggestion@ == import_fix_suggestion() && replacement@ == std_replacement(
                    leaf,
                )))
                &&& (path_text@ != canonical_core_text(leaf) ==> (diag.advice
                    matches Advice::Help { help } && help@ == import_help(leaf)))
            }),
    {
        let threshold = str_from_utf8_threshold();
        if !self.msrv.meets(&threshold) {
            return None;
        }
        match &item.kind {
            ImportKind::Single(_) => {},
            _ => { return None; },
        }
        if in_external_macro {
            return None;
        }
        if !should_lint_on_path(&item.segments) {
            return None;
        }
        let func = &item.segments[item.segments.len() - 1];
        let message = String::from_str("importing legacy `core::str::").concat(
            func.as_str(),
        ).concat("` function");
        let canonical = String::from_str("core::str::").concat(func.as_str());
        let replacement = render_std_replacement(func);
        if *path_text == canonical {
            Some(
                Diagnostic {
                    span: item.span,
                    message,
                    advice: Advice::Fix {
                        suggestion: String::from_str(
                            "consider instead importing the item from `std`",
                        ),
                        replacement,
                    },
                },
            )
        } else {
            let help = String::from_str("consider instead importing the item from `").concat(
                replacement.as_str(),
            ).concat("`");
            Some(Diagnostic { span: item.span, message, advice: Advice::Help { help } })
        }
    }

    /// The call checker. `in_external_macro` is the host's provenance
    /// verdict on the callee's span.
    ///
    /// A diagnostic is returned iff the input matches (`call_lints`); when
    /// one is, it names the callee's span alone (the argument list is left
    /// untouched), carries the call headline, and always offers a
    /// machine-applicable rewrite of the callee to `std::str::<leaf>`.
    pub fn check_expr(&self, call: &CallExpr, in_external_macro: bool) -> (d: Option<Diagnostic>)
        ensures
            d is Some <==> call_lints(self.msrv, *call, in_external_macro),
            d matches Some(diag) ==> (call.callee matches Callee::Resolved(segments)
                && diag.span == call.callee_span && diag.message@ == call_message()
                && (diag.advice matches Advice::Fix { suggestion, replacement } && suggestion@
                == call_fix_suggestion() && replacement@ == std_replacement(
                segments.deep_view().last(),
            ))),
    {
        let threshold = str_from_utf8_threshold();
        if !self.msrv.meets(&threshold) {
            return None;
        }
        if in_external_macro {
            return None;
        }
        let segments = match &call.callee {
            Callee::Resolved(segments) => segments,
            Callee::Unresolved => { return None; },
        };
        if !should_lint_on_path(segments) {
            return None;
        }
        let func = &segments[segments.len() - 1];
        let replacement = render_std_replacement(func);
        Some(
            Diagnostic {
                span: call.callee_span,
                message: String::from_str("usage of legacy `core::str::from_utf8` function"),
                advice: Advice::Fix { suggestion: String::from_str("try instead"), replacement },
            },
        )
    }
}

} // verus!
