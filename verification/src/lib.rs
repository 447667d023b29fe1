//! Command-line front end for a text-decoding tool: resolves the input text
//! (inline or from a file) and derives the run configuration from the parsed
//! command-line options.

use vstd::prelude::*;

pub mod cli;
pub mod config;

verus! {

} // verus!
