//! A verified interface-model core: it canonicalizes semantic types,
//! converts declarations from two front-end grammars into one intermediate
//! representation, aggregates them into a queryable component interface,
//! and derives the flat, checksum-protected foreign-function layer.

mod text;

pub mod ast;
pub mod attributes;
pub mod checksum;
pub mod component;
pub mod enum_;
pub mod error;
pub mod ffi;
mod frontend;
pub mod function;
pub mod object;
pub mod record;
pub mod types;
