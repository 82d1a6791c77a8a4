//! The moves that a species learns as it gains levels.

use crate::names::{find_named, get_numbered, is_first_named, numbered, Named};
use vstd::prelude::*;

verus! {

/// The moves that one species learns by levelling up: a table whose first
/// row is the header.
#[derive(Debug)]
pub struct Learnset {
    pub ndex: String,
    pub pokemon: String,
    pub by_leveling_up: Vec<Vec<String>>,
}

impl Named for Learnset {
    open spec fn spec_name(&self) -> Seq<char> {
        self.pokemon@
    }

    fn name(&self) -> (name: &str) {
        self.pokemon.as_str()
    }
}

/// Contains the learnsets of the 151 species of the first generation, in
/// the order of the index.
pub struct RbyLearnsets {
    sets: Vec<Learnset>,
}

impl View for RbyLearnsets {
    type V = Seq<Learnset>;

    closed spec fn view(&self) -> Seq<Learnset> {
        self.sets@
    }
}

impl RbyLearnsets {
    /// Creates a new instance from the learnsets in the order of the index.
    pub fn new(entries: Vec<Learnset>) -> (sets: RbyLearnsets)
        ensures
            sets@ == entries@,
    {
        RbyLearnsets { sets: entries }
    }

    /// The learnsets in the order of the index.
    pub fn sets(&self) -> (sets: &Vec<Learnset>)
        ensures
            sets@ == self@,
    {
        &self.sets
    }

    /// Returns a reference to the learnset of the species with this name.
    pub fn get_pokemon(&self, name: &str) -> (found: Option<&Learnset>)
        ensures
            is_first_named(self@, name@, found),
    {
        find_named(&self.sets, name)
    }

    /// Returns a reference to the learnset of the species with this number
    /// in the index.
    pub fn get_ndex(&self, ndex: usize) -> (found: Option<&Learnset>)
        ensures
            match found {
                Some(l) => numbered(self@, ndex as int) == Some(*l),
                None => numbered(self@, ndex as int) is None,
            },
    {
        get_numbered(&self.sets, ndex)
    }
}

/// Contains the learnsets of the 251 species of the second generation, in
/// the order of the index.
pub struct GscLearnsets {
    sets: Vec<Learnset>,
}

impl View for GscLearnsets {
    type V = Seq<Learnset>;

    closed spec fn view(&self) -> Seq<Learnset> {
        self.sets@
    }
}

impl GscLearnsets {
    /// Creates a new instance from the learnsets in the order of the index.
    pub fn new(entries: Vec<Learnset>) -> (sets: GscLearnsets)
        ensures
            sets@ == entries@,
    {
        GscLearnsets { sets: entries }
    }

    /// The learnsets in the order of the index.
    pub fn sets(&self) -> (sets: &Vec<Learnset>)
        ensures
            sets@ == self@,
    {
        &self.sets
    }

    /// Returns a reference to the learnset of the species with this name.
    pub fn get_pokemon(&self, name: &str) -> (found: Option<&Learnset>)
        ensures
            is_first_named(self@, name@, found),
    {
        find_named(&self.sets, name)
    }

    /// Returns a reference to the learnset of the species with this number
    /// in the index.
    pub fn get_ndex(&self, ndex: usize) -> (found: Option<&Learnset>)
        ensures
            match found {
                Some(l) => numbered(self@, ndex as int) == Some(*l),
                None => numbered(self@, ndex as int) is None,
            },
    {
        get_numbered(&self.sets, ndex)
    }
}

/// Contains learnsets in the order of the index.
pub struct Learnsets {
    sets: Vec<Learnset>,
}

impl View for Learnsets {
    type V = Seq<Learnset>;

    closed spec fn view(&self) -> Seq<Learnset> {
        self.sets@
    }
}

impl Learnsets {
    /// Creates a new instance from the learnsets in the order of the index.
    pub fn new(entries: Vec<Learnset>) -> (sets: Learnsets)
        ensures
            sets@ == entries@,
    {
        Learnsets { sets: entries }
    }

    /// The learnsets in the order of the index.
    pub fn sets(&self) -> (sets: &Vec<Learnset>)
        ensures
            sets@ == self@,
    {
        &self.sets
    }
}

} // verus!
