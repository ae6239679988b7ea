//! Options for the password-generation subcommand.

use vstd::prelude::*;

verus! {

/// Which character classes to draw from, and how long the password is.
#[derive(Debug, Clone, Copy)]
pub struct GenPassOpts {
    pub length: u8,
    pub upper: bool,
    pub lower: bool,
    pub number: bool,
    pub symbol: bool,
}

} // verus!
