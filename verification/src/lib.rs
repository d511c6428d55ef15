//! Sanitizer for parsed source trees: resets every location attribute to an
//! empty sentinel while leaving the semantic structure and content of the
//! tree untouched, so that machine-generated code can be handed to
//! interactive tooling without its synthetic locations colliding with those
//! of hand-written source.
//!
//! The tree lives in [`ast`], its mathematical model in [`model`], and the
//! abstraction between the two in [`view`].  [`erase`] specifies what
//! sanitization does, [`sanitize`] implements it, and [`cleared`], [`shape`]
//! and [`laws`] state and prove its laws: every cleared location attribute
//! of the output equals the empty sentinel, sanitizing twice equals
//! sanitizing once, and the tree's structure and content are preserved.

use vstd::prelude::*;
use crate::ast::{ParsedModule, ParseError};
use crate::view::view_parsed_module;
use crate::erase::erase_parsed_module;
use crate::sanitize::empty_parsed_module;

pub mod ast;
pub mod model;
pub mod view;
pub mod erase;
pub mod sanitize;
pub mod cleared;
pub mod shape;
pub mod laws;

verus! {

/// The facade over a parsing stage: takes the tree and diagnostics the
/// parser produced together with the mode flag, and sanitizes the tree
/// exactly when `empty_spans` is set.  The diagnostics are passed through
/// unchanged in either mode, and in the unsanitized mode the tree comes
/// back exactly as it went in.
pub fn sanitize_program(module: ParsedModule, errors: Vec<ParseError>, empty_spans: bool) -> (r: (
    ParsedModule,
    Vec<ParseError>,
))
    ensures
        empty_spans ==> view_parsed_module(r.0) == erase_parsed_module(
            view_parsed_module(module),
        ),
        !empty_spans ==> r.0 == module,
        r.1 == errors,
{
    if empty_spans {
        let sanitized = empty_parsed_module(&module);
        (sanitized, errors)
    } else {
        (module, errors)
    }
}


} // verus!
