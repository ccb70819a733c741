//! Compilation of type annotations into predicates that are tested at run time.
//!
//! A type annotation such as `list[int]`, `dict[str, int]`, `tuple[int, ...]`
//! or `int | str` arrives as an already parsed tree whose identifiers carry
//! their bindings. The compiler evaluates the tree to a canonical type
//! descriptor, caches it on the annotation site exactly once, and on demand
//! promotes it into the module's long-lived store, unless it is the wildcard,
//! for which no check is needed at run time.

pub mod span;
pub mod error;
pub mod ty;
pub mod value;
pub mod type_compiled;
pub mod syntax;
pub mod evaluation;
pub mod compiler;
pub mod metadata;
pub mod laws;
