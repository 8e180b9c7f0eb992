//! The syntax nodes the host traversal hands to the rule, reduced to the
//! plain values the rule actually reads: segment names in order, the import
//! shape, and source spans.

use vstd::prelude::*;

verus! {

/// A half-open range of byte positions in the source text. A diagnostic
/// addresses its proposed replacement by such a range; the rule never
/// mutates source itself.
#[derive(Clone, Copy, PartialEq, Eq, Structural, Debug)]
pub struct Span {
    pub lo: u64,
    pub hi: u64,
}

/// How a `use` item binds names: exactly the shapes the rule distinguishes.
pub enum ImportKind {
    /// An import binding exactly one name, possibly under a rename.
    Single(Option<String>),
    /// A grouped import listing several leaf names.
    Group(Vec<String>),
    /// A wildcard import.
    Wildcard,
}

/// A `use` item as the host hands it over: the path's segment names in
/// order (first = module root, last = leaf), the import shape, and the
/// span of the path.
pub struct ImportItem {
    pub segments: Vec<String>,
    pub kind: ImportKind,
    pub span: Span,
}

/// The callee of a call expression: a path already resolved to concrete
/// segment names, or anything else (generic, unresolved), which the rule
/// ignores.
pub enum Callee {
    Resolved(Vec<String>),
    Unresolved,
}

/// A call expression as the host hands it over. The argument list is never
/// examined, so it is not part of the model; `callee_span` covers the
/// callee alone, so a fix rewrites only the callee text and leaves the
/// arguments untouched.
pub struct CallExpr {
    pub callee: Callee,
    pub callee_span: Span,
}

} // verus!
