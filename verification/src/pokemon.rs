//! The species and their base stats.

use crate::names::{find_named, get_numbered, is_first_named, numbered, Named};
use crate::stats::BaseStats;
use vstd::prelude::*;

verus! {

/// A species of the first generation with its types and base stats.
#[derive(Debug)]
pub struct RbyPokemon {
    pub ndex: i32,
    pub name: String,
    pub type1: String,
    pub type2: String,
    pub hp: i32,
    pub attack: i32,
    pub defense: i32,
    pub speed: i32,
    pub special: i32,
}

impl Named for RbyPokemon {
    open spec fn spec_name(&self) -> Seq<char> {
        self.name@
    }

    fn name(&self) -> (name: &str) {
        self.name.as_str()
    }
}

/// The 151 species of the first generation in the order of the index.
pub struct RbyPokedex {
    pokemon: Vec<RbyPokemon>,
}

impl View for RbyPokedex {
    type V = Seq<RbyPokemon>;

    closed spec fn view(&self) -> Seq<RbyPokemon> {
        self.pokemon@
    }
}

impl RbyPokedex {
    /// Makes the index from the records of the species in the order of
    /// their numbers.
    pub fn new(records: Vec<RbyPokemon>) -> (dex: RbyPokedex)
        ensures
            dex@ == records@,
    {
        RbyPokedex { pokemon: records }
    }

    /// Returns a reference to the species with this name.
    pub fn get_pokemon(&self, name: &str) -> (found: Option<&RbyPokemon>)
        ensures
            is_first_named(self@, name@, found),
    {
        find_named(&self.pokemon, name)
    }

    /// Returns a reference to the species with this number in the index.
    pub fn get_ndex(&self, ndex: usize) -> (found: Option<&RbyPokemon>)
        ensures
            match found {
                Some(p) => numbered(self@, ndex as int) == Some(*p),
                None => numbered(self@, ndex as int) is None,
            },
    {
        get_numbered(&self.pokemon, ndex)
    }
}

/// A species of the second generation with its types and base stats.
#[derive(Debug)]
pub struct GscPokemon {
    pub ndex: i32,
    pub name: String,
    pub type1: String,
    pub type2: String,
    pub hp: i32,
    pub attack: i32,
    pub defense: i32,
    pub special_attack: i32,
    pub special_defense: i32,
    pub speed: i32,
}

impl Named for GscPokemon {
    open spec fn spec_name(&self) -> Seq<char> {
        self.name@
    }

    fn name(&self) -> (name: &str) {
        self.name.as_str()
    }
}

/// The 251 species of the second generation in the order of the index.
pub struct GscPokedex {
    pokemon: Vec<GscPokemon>,
}

impl View for GscPokedex {
    type V = Seq<GscPokemon>;

    closed spec fn view(&self) -> Seq<GscPokemon> {
        self.pokemon@
    }
}

impl GscPokedex {
    /// Makes the index from the records of the species in the order of
    /// their numbers.
    pub fn new(records: Vec<GscPokemon>) -> (dex: GscPokedex)
        ensures
            dex@ == records@,
    {
        GscPokedex { pokemon: records }
    }

    /// Returns a reference to the species with this name.
    pub fn get_pokemon(&self, name: &str) -> (found: Option<&GscPokemon>)
        ensures
            is_first_named(self@, name@, found),
    {
        find_named(&self.pokemon, name)
    }

    /// Returns a reference to the species with this number in the index.
    pub fn get_ndex(&self, ndex: usize) -> (found: Option<&GscPokemon>)
        ensures
            match found {
                Some(p) => numbered(self@, ndex as int) == Some(*p),
                None => numbered(self@, ndex as int) is None,
            },
    {
        get_numbered(&self.pokemon, ndex)
    }
}

/// A species with its types and base stats.
#[derive(Debug)]
pub struct Pokemon {
    pub ndex: i32,
    pub pokemon: String,
    pub type1: String,
    pub type2: String,
    pub hp: i32,
    pub attack: i32,
    pub defense: i32,
    pub speed: i32,
    pub special: i32,
}

impl Named for Pokemon {
    open spec fn spec_name(&self) -> Seq<char> {
        self.pokemon@
    }

    fn name(&self) -> (name: &str) {
        self.pokemon.as_str()
    }
}

/// Species in the order of the index.
pub struct Pokedex {
    pokemon: Vec<Pokemon>,
}

impl View for Pokedex {
    type V = Seq<Pokemon>;

    closed spec fn view(&self) -> Seq<Pokemon> {
        self.pokemon@
    }
}

impl Pokedex {
    /// Makes the index from the records of the species in the order of
    /// their numbers.
    pub fn new(records: Vec<Pokemon>) -> (dex: Pokedex)
        ensures
            dex@ == records@,
    {
        Pokedex { pokemon: records }
    }

    /// The species in the order of their numbers.
    pub fn species(&self) -> (species: &Vec<Pokemon>)
        ensures
            species@ == self@,
    {
        &self.pokemon
    }
}

/// A line of the table of base stats.
#[derive(Debug)]
pub struct Record {
    pub ndex: i32,
    pub pokemon: String,
    pub types: String,
    pub hp: i32,
    pub attack: i32,
    pub defense: i32,
    pub speed: i32,
    pub special: i32,
    pub total: i32,
}

impl Named for Record {
    open spec fn spec_name(&self) -> Seq<char> {
        self.pokemon@
    }

    fn name(&self) -> (name: &str) {
        self.pokemon.as_str()
    }
}

/// A line of the table of base stats of the first generation.
#[derive(Debug)]
pub struct RbyRecord {
    pub ndex: i32,
    pub pokemon: String,
    pub types: String,
    pub hp: i32,
    pub attack: i32,
    pub defense: i32,
    pub speed: i32,
    pub special: i32,
    pub total: i32,
}

impl Named for RbyRecord {
    open spec fn spec_name(&self) -> Seq<char> {
        self.pokemon@
    }

    fn name(&self) -> (name: &str) {
        self.pokemon.as_str()
    }
}

impl BaseStats {
    /// The base stats of a species.
    pub fn from_record(record: &Pokemon) -> (base: BaseStats)
        ensures
            base.hp == record.hp,
            base.attack == record.attack,
            base.defense == record.defense,
            base.speed == record.speed,
            base.special == record.special,
    {
        BaseStats {
            hp: record.hp,
            attack: record.attack,
            defense: record.defense,
            speed: record.speed,
            special: record.special,
        }
    }
}

} // verus!
