//! The chains of evolution.
//!
//! A chain is one line of text: the names of the species from the first to
//! the last stage, and between two names what it takes to evolve.

use crate::text::{lines, lines_of, strings_view};
use vstd::prelude::*;

verus! {

/// Loads the chains of evolution of the first generation from the text
/// that holds one chain in each line.
pub fn load_evos(data: &str) -> (evo_chains: Vec<String>)
    ensures
        strings_view(evo_chains@) == lines_of(data@),
{
    lines(data)
}

/// Loads the chains of evolution of the second generation from the text
/// that holds one chain in each line.
pub fn load_gsc_evos(data: &str) -> (evo_chains: Vec<String>)
    ensures
        strings_view(evo_chains@) == lines_of(data@),
{
    lines(data)
}

} // verus!
