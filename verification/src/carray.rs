//! Conversion of C array definitions into Rust constants.
//!
//! The co-processor's patches are published as C sources that define
//! arrays of numbers. The functions here read such a source as bytes:
//! they strip the comments, find the array definitions, parse the numbers
//! and render Rust constants. Reading and writing files is left to the
//! caller.

pub mod array;
pub mod lex;
pub mod name;
pub mod number;
pub mod render;

use array::{arrays_of, parse_c_arrays, views};
use lex::{strip_comments, stripped};
use render::{render, rendered};
use vstd::prelude::*;

verus! {

/// Converts a C source into Rust source that defines its arrays as
/// constants. There is no result for a source that defines no array.
pub fn convert(input: &[u8], alias_patch: bool) -> (r: Option<Vec<u8>>)
    ensures
        r is None <==> arrays_of(stripped(input@)).len() == 0,
        r matches Some(out) ==> out@ == rendered(arrays_of(stripped(input@))),
{
    let source = strip_comments(input);
    let arrays = parse_c_arrays(source.as_slice(), alias_patch);
    assert(views(arrays@).len() == arrays@.len());
    if arrays.len() == 0 {
        None
    } else {
        Some(render(&arrays))
    }
}

} // verus!
