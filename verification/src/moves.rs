//! The moves of the first two generations.

use crate::names::NameMap;
use vstd::prelude::*;
use vstd::string::StringExecFns;

verus! {

/// A move is the skill that is primarily used in a battle, also known as
/// an attack or a technique.
#[derive(Debug)]
pub struct Move {
    pub name: String,
    pub type_: String,
    pub category: String,
    pub power: String,
    pub accuracy: String,
    pub pp: String,
    pub description: String,
}

/// The moves by name.
///
/// The moves stand under their later names, which tell upper from lower
/// case, such as "Poison Powder" for "PoisonPowder". The earlier names
/// are known too.
pub struct Moves {
    data: NameMap<Move>,
    modified_names: NameMap<String>,
}

/// The moves of the second generation by name.
pub type GscMoves = Moves;

/// The earlier names of moves, each with the later name.
pub open spec fn earlier_names() -> Seq<(Seq<char>, Seq<char>)> {
    seq![
        ("AncientPower"@, "Ancient Power"@),
        ("BubbleBeam"@, "Bubble Beam"@),
        ("DoubleSlap"@, "Double Slap"@),
        ("DragonBreath"@, "Dragon Breath"@),
        ("DynamicPunch"@, "Dynamic Punch"@),
        ("ExtremeSpeed"@, "Extreme Speed"@),
        ("Faint Attack"@, "Feint Attack"@),
        ("FeatherDance"@, "Feather Dance"@),
        ("GrassWhistle"@, "Grass Whistle"@),
        ("Hi Jump Kick"@, "High Jump Kick"@),
        ("PoisonPowder"@, "Poison Powder"@),
        ("Sand-Attack"@, "Sand Attack"@),
        ("Selfdestruct"@, "Self-Destruct"@),
        ("SmellingSalt"@, "Smelling Salts"@),
        ("SmokeScreen"@, "Smokescreen"@),
        ("Softboiled"@, "Soft-Boiled"@),
        ("SolarBeam"@, "Solar Beam"@),
        ("SonicBoom"@, "Sonic Boom"@),
        ("ThunderPunch"@, "Thunder Punch"@),
        ("ThunderShock"@, "Thunder Shock"@),
        ("ViceGrip"@, "Vice Grip"@),
        ("Vice Grip"@, "Vise Grip"@),
        ("Conversion2"@, "Conversion 2"@),
    ]
}

/// The texts of a list as characters.
pub open spec fn text_views(texts: Seq<String>) -> Seq<Seq<char>> {
    texts.map_values(|t: String| t@)
}

impl Moves {
    /// The names under which the moves stand, in the order in which they
    /// were put.
    pub closed spec fn keys(&self) -> Seq<Seq<char>> {
        self.data.spec_names()
    }

    /// The moves in the order in which they were put.
    pub closed spec fn moves(&self) -> Seq<Move> {
        self.data.spec_values()
    }

    /// The earlier names of moves.
    pub closed spec fn old_names(&self) -> Seq<Seq<char>> {
        self.modified_names.spec_names()
    }

    /// The later names that stand for the earlier ones.
    pub closed spec fn new_names(&self) -> Seq<String> {
        self.modified_names.spec_values()
    }

    /// The move that stands under `name`, or under the later name of
    /// `name`.
    pub closed spec fn spec_get(&self, name: Seq<char>) -> Option<Move> {
        match self.data.spec_get(name) {
            Some(m) => Some(m),
            None => match self.modified_names.spec_get(name) {
                Some(new_name) => self.data.spec_get(new_name@),
                None => None,
            },
        }
    }

    /// How a name is found: under itself if it stands in the table, else
    /// under its later name.
    pub proof fn lemma_get(&self, name: Seq<char>)
        ensures
            self.spec_get(name) == match crate::names::last_under(self.keys(), self.moves(), name) {
                Some(m) => Some(m),
                None => match crate::names::last_under(self.old_names(), self.new_names(), name) {
                    Some(new_name) => crate::names::last_under(
                        self.keys(),
                        self.moves(),
                        new_name@,
                    ),
                    None => None,
                },
            },
    {
    }

    /// Makes the table from the records of the moves.
    pub fn new(records: Vec<Move>) -> (moves: Moves)
        ensures
            moves.keys() == records@.map_values(|m: Move| m.name@),
            moves.moves() == records@,
            moves.old_names() == earlier_names().map_values(|e: (Seq<char>, Seq<char>)| e.0),
            text_views(moves.new_names()) == earlier_names().map_values(
                |e: (Seq<char>, Seq<char>)| e.1,
            ),
    {
        let ghost all = records@;
        let mut data: NameMap<Move> = NameMap::new();
        let mut i: usize = 0;
        assert(data.spec_names() =~= all.take(0).map_values(|m: Move| m.name@));
        assert(data.spec_values() =~= all.take(0));
        while i < records.len()
            invariant
                i <= records.len(),
                all == records@,
                data.spec_names() == all.take(i as int).map_values(|m: Move| m.name@),
                data.spec_values() == all.take(i as int),
            decreases records.len() - i,
        {
            let record = &records[i];
            let m = Move {
                name: record.name.clone(),
                type_: record.type_.clone(),
                category: record.category.clone(),
                power: record.power.clone(),
                accuracy: record.accuracy.clone(),
                pp: record.pp.clone(),
                description: record.description.clone(),
            };
            assert(m == all[i as int]);
            data = data.insert(record.name.clone(), m);
            proof {
                assert(all.take(i + 1) =~= all.take(i as int).push(all[i as int]));
                assert(all.take(i + 1).map_values(|m: Move| m.name@) =~= all.take(
                    i as int,
                ).map_values(|m: Move| m.name@).push(all[i as int].name@));
            }
            i = i + 1;
        }
        assert(all.take(all.len() as int) =~= all);
        let names: NameMap<String> = NameMap::new();
        let names = add_name(names, "AncientPower", "Ancient Power");
        let names = add_name(names, "BubbleBeam", "Bubble Beam");
        let names = add_name(names, "DoubleSlap", "Double Slap");
        let names = add_name(names, "DragonBreath", "Dragon Breath");
        let names = add_name(names, "DynamicPunch", "Dynamic Punch");
        let names = add_name(names, "ExtremeSpeed", "Extreme Speed");
        let names = add_name(names, "Faint Attack", "Feint Attack");
        let names = add_name(names, "FeatherDance", "Feather Dance");
        let names = add_name(names, "GrassWhistle", "Grass Whistle");
        let names = add_name(names, "Hi Jump Kick", "High Jump Kick");
        let names = add_name(names, "PoisonPowder", "Poison Powder");
        let names = add_name(names, "Sand-Attack", "Sand Attack");
        let names = add_name(names, "Selfdestruct", "Self-Destruct");
        let names = add_name(names, "SmellingSalt", "Smelling Salts");
        let names = add_name(names, "SmokeScreen", "Smokescreen");
        let names = add_name(names, "Softboiled", "Soft-Boiled");
        let names = add_name(names, "SolarBeam", "Solar Beam");
        let names = add_name(names, "SonicBoom", "Sonic Boom");
        let names = add_name(names, "ThunderPunch", "Thunder Punch");
        let names = add_name(names, "ThunderShock", "Thunder Shock");
        let names = add_name(names, "ViceGrip", "Vice Grip");
        let names = add_name(names, "Vice Grip", "Vise Grip");
        let names = add_name(names, "Conversion2", "Conversion 2");
        let moves = Moves { data, modified_names: names };
        proof {
            assert(moves.old_names() =~= earlier_names().map_values(
                |e: (Seq<char>, Seq<char>)| e.0,
            ));
            assert(text_views(moves.new_names()) =~= earlier_names().map_values(
                |e: (Seq<char>, Seq<char>)| e.1,
            ));
        }
        moves
    }

    /// Returns a reference to the move with the given name.
    pub fn get(&self, name: &str) -> (found: Option<&Move>)
        ensures
            match found {
                Some(m) => self.spec_get(name@) == Some(*m),
                None => self.spec_get(name@) is None,
            },
    {
        match self.data.get(name) {
            Some(m) => Some(m),
            None => match self.modified_names.get(name) {
                Some(new_name) => self.data.get(new_name.as_str()),
                None => None,
            },
        }
    }
}

/// Puts the later name of a move under its earlier name.
fn add_name(names: NameMap<String>, old_name: &str, new_name: &str) -> (res: NameMap<String>)
    ensures
        res.spec_names() == names.spec_names().push(old_name@),
        res.spec_values().len() == names.spec_values().len() + 1,
        res.spec_values().drop_last() == names.spec_values(),
        res.spec_values().last()@ == new_name@,
{
    let res = names.insert(String::from_str(old_name), String::from_str(new_name));
    assert(res.spec_values().drop_last() =~= names.spec_values());
    res
}

} // verus!
