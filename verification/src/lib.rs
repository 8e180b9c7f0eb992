//! A source-analysis rule that flags fully-qualified uses of the legacy
//! `core::str::from_utf8` family and proposes the canonical `std::str`
//! re-exports instead.
//!
//! The host traversal hands each syntax node over as plain values
//! ([`syntax`]); the rule decides, statelessly, whether to emit a
//! [`diagnostics::Diagnostic`], gated by a minimum-supported-version
//! threshold ([`version`]) and by macro-expansion provenance.

pub mod classify;
pub mod diagnostics;
pub mod laws;
pub mod rule;
pub mod syntax;
pub mod version;
