//! A compiler core for a compact class/interface description language that
//! targets a reference-counted, single-inheritance native object system.
//!
//! The crate takes a syntax tree (`ast`), builds a typed class model (`hir`),
//! plans the class-struct layout of every class (`layout`) and emits the
//! source text of the binary-compatible object types (`gen`).

pub mod ast;
pub mod checking;
pub mod errors;
pub mod gen;
pub mod glib_utils;
pub mod hir;
pub mod layout;
