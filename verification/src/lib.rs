//! Optimization core for an arithmetic-constraint-system compiler.
//!
//! The crate models a flattened constraint program (`ir`, over the field
//! of `field`), a generic overridable tree-rewrite framework over it
//! (`folder`), and the five-pass optimization pipeline built on that
//! framework: redefinition elimination (`redefinition`), tautology
//! elimination (`tautology`), canonicalization (`canonical`,
//! `canonicalizer`), directive pruning (`directive`) and duplicate
//! elimination (`duplicate`), composed by `optimizer`. The laws of
//! canonical form live in `semantics`; that no pass gains or loses a
//! satisfying assignment is proved in `preserve`.
//!
//! The equivalent fallible rewrite framework over the pre-flattening
//! typed AST is `typed` and `result_folder`, with its identity,
//! fail-fast and fatal-invariant laws in `typed_laws`.

pub mod canonical;
pub mod canonicalizer;
pub mod directive;
pub mod duplicate;
pub mod field;
pub mod folder;
pub mod ir;
pub mod optimizer;
pub mod preserve;
pub mod redefinition;
pub mod result_folder;
pub mod semantics;
pub mod tautology;
pub mod typed;
pub mod typed_laws;
