//! Core data structures of a module-browsing application: a generic keyed
//! storage tree with path-addressed lookup and mutation, an expansion-state
//! overlay for folding trees in a user interface, and a section-based line
//! scanner that splits a text stream into tagged sections.

pub mod module;
pub mod sectioned_lines;
pub mod storage_tree;
pub mod tag;
