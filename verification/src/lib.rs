//! Semantic core of the Kiro language: the abstract syntax tree, the shared
//! semantic-tracking rules, a reference interpreter, and an ahead-of-time
//! compiler that lowers the same tree to target-language source text.

use vstd::prelude::*;

pub mod ast;
pub mod compiler;
pub mod interpreter;
pub mod laws;
pub mod semantics;
pub mod tables;
pub mod types;

verus! {

/// Named error value of the host-glue contract: an external function either
/// returns a tagged value or an error carrying one of these names.
pub struct KiroError {
    pub name: String,
}

impl KiroError {
    pub fn new(name: &str) -> (r: Self)
        ensures
            r.name@ == name@,
    {
        KiroError { name: String::from_str(name) }
    }
}

} // verus!
