//! A verified core for a small markdown static site generator.
//!
//! Documents are parsed into a stream of structural events; the library
//! filters and rewrites that stream (metadata blocks extracted, handler
//! blocks dispatched by name, code blocks colorized, glyph tokens in text
//! substituted), parses the extracted page metadata, composes the final
//! page from a skeleton by placeholder substitution, and computes the
//! output layout. Filesystem reads and writes, and the task scheduling
//! around them, live outside the library and hand it plain values.

use vstd::prelude::*;

pub mod bytes;
pub mod assets;
pub mod config;
pub mod errors;
pub mod events;
pub mod glyphs;
pub mod handlers;
pub mod paths;
pub mod records;
pub mod meta;
pub mod scan;
pub mod site;
pub mod template;

verus! {

} // verus!
