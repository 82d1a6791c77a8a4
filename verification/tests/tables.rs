use pokemon_dv_calculator::evos::{load_evos, load_gsc_evos};
use pokemon_dv_calculator::items::{GscItems, Item};
use pokemon_dv_calculator::learnset::{GscLearnsets, Learnset, RbyLearnsets};
use pokemon_dv_calculator::moves::{Move, Moves};
use pokemon_dv_calculator::pokemon::{GscPokedex, GscPokemon, RbyPokedex, RbyPokemon};

fn item(name: &str, description: &str) -> Item {
    Item { name: name.to_string(), description: description.to_string() }
}

fn items() -> GscItems {
    GscItems::new(vec![
        item("Berry", "Restores 10 HP when at 1/2 max HP or less. One-time use."),
        item("Never-Melt Ice", "Holder's Ice-type attacks have 1.1x power."),
        item("Leftovers", "At the end of every turn, holder restores 1/16 of its max HP."),
    ])
}

fn move_(name: &str, type_: &str, category: &str, power: &str, accuracy: &str, pp: &str) -> Move {
    Move {
        name: name.to_string(),
        type_: type_.to_string(),
        category: category.to_string(),
        power: power.to_string(),
        accuracy: accuracy.to_string(),
        pp: pp.to_string(),
        description: format!("{} does something.", name),
    }
}

fn moves() -> Moves {
    Moves::new(vec![
        move_("Pound", "Normal", "Physical", "40", "100", "35"),
        move_("Poison Powder", "Poison", "Non-Damaging", "0", "75", "35"),
        move_("Vise Grip", "Normal", "Physical", "55", "100", "30"),
    ])
}

#[test]
fn get_non_existing_item() {
    let items = items();
    let i = items.get("XXX");

    assert!(i.is_none());
}

#[test]
fn get_item() {
    let items = items();
    let i = items.get("Never-Melt Ice");

    assert!(i.is_some_and(|i| i.description == "Holder's Ice-type attacks have 1.1x power."));
}

#[test]
fn get_old_item() {
    let items = items();
    let i = items.get("NEVERMELTICE");

    assert!(i.is_some_and(|i| i.description == "Holder's Ice-type attacks have 1.1x power."));
}

#[test]
fn get_item_added_to_the_records() {
    let items = items();
    let i = items.get("Lucky Egg").unwrap();
    assert_eq!(i.name, "lucky egg");
    assert_eq!(i.description, "Holder receives 1.5x experience.");
}

#[test]
fn later_record_replaces_earlier() {
    let items = GscItems::new(vec![item("Berry", "first"), item("BERRY", "second")]);
    assert_eq!(items.get("berry").unwrap().description, "second");
    assert_eq!(items.find("berry").unwrap().name, "BERRY");
    // `find` takes the name as it is.
    assert!(items.find("Berry").is_none());
}

#[test]
fn get_non_existing_move() {
    let moves = moves();
    let move_ = moves.get("XXX");

    assert!(move_.is_none());
}

#[test]
fn get_move() {
    let moves = moves();
    let move_ = moves.get("Poison Powder");

    assert!(move_.is_some_and(|m| m.type_ == "Poison"));
}

#[test]
fn get_old_move() {
    let moves = moves();
    let move_ = moves.get("PoisonPowder");

    assert!(move_.is_some_and(|m| m.type_ == "Poison"));
}

#[test]
fn move_names_tell_case() {
    let moves = moves();
    assert!(moves.get("poison powder").is_none());
    // An earlier name leads to the later name once, not twice.
    assert!(moves.get("ViceGrip").is_none());
    assert_eq!(moves.get("Vice Grip").unwrap().power, "55");
}

fn learnset(ndex: &str, pokemon: &str) -> Learnset {
    Learnset {
        ndex: ndex.to_string(),
        pokemon: pokemon.to_string(),
        by_leveling_up: vec![
            vec!["Level".to_string(), "Move".to_string()],
            vec!["1".to_string(), "Pound".to_string()],
        ],
    }
}

#[test]
fn learnsets_by_name_and_number() {
    let sets = RbyLearnsets::new(vec![learnset("001", "Bulbasaur"), learnset("002", "Ivysaur")]);
    assert_eq!(sets.get_pokemon("Ivysaur").unwrap().ndex, "002");
    assert!(sets.get_pokemon("ivysaur").is_none());
    assert_eq!(sets.get_ndex(1).unwrap().pokemon, "Bulbasaur");
    assert_eq!(sets.get_ndex(2).unwrap().pokemon, "Ivysaur");
    assert!(sets.get_ndex(0).is_none());
    assert!(sets.get_ndex(3).is_none());

    let sets = GscLearnsets::new(vec![learnset("152", "Chikorita"), learnset("153", "Chikorita")]);
    assert_eq!(sets.get_pokemon("Chikorita").unwrap().ndex, "152");
    assert_eq!(sets.get_ndex(2).unwrap().ndex, "153");
}

fn rby(ndex: i32, name: &str, hp: i32) -> RbyPokemon {
    RbyPokemon {
        ndex,
        name: name.to_string(),
        type1: "Grass".to_string(),
        type2: "Poison".to_string(),
        hp,
        attack: 49,
        defense: 49,
        speed: 45,
        special: 65,
    }
}

#[test]
fn species_by_name_and_number() {
    let dex = RbyPokedex::new(vec![rby(1, "Bulbasaur", 45), rby(2, "Ivysaur", 60)]);
    assert_eq!(dex.get_pokemon("Ivysaur").unwrap().hp, 60);
    assert!(dex.get_pokemon("Venusaur").is_none());
    assert_eq!(dex.get_ndex(1).unwrap().name, "Bulbasaur");
    assert!(dex.get_ndex(0).is_none());
    assert!(dex.get_ndex(3).is_none());

    let dex = GscPokedex::new(vec![GscPokemon {
        ndex: 1,
        name: "Bulbasaur".to_string(),
        type1: "Grass".to_string(),
        type2: "Poison".to_string(),
        hp: 45,
        attack: 49,
        defense: 49,
        special_attack: 65,
        special_defense: 65,
        speed: 45,
    }]);
    assert_eq!(dex.get_pokemon("Bulbasaur").unwrap().special_defense, 65);
    assert_eq!(dex.get_ndex(1).unwrap().speed, 45);
}

#[test]
fn chains_are_the_lines() {
    let data = "Bulbasaur->16->Ivysaur->32->Venusaur\r\nCaterpie->7->Metapod\n\nMew";
    assert_eq!(
        load_evos(data),
        vec!["Bulbasaur->16->Ivysaur->32->Venusaur", "Caterpie->7->Metapod", "", "Mew"]
    );
    let expected: Vec<String> = data.lines().map(|x| x.to_owned()).collect();
    assert_eq!(load_gsc_evos(data), expected);
    assert_eq!(load_evos("a\n"), vec!["a"]);
    assert_eq!(load_evos("a\r"), vec!["a\r"]);
    assert_eq!(load_evos("\n"), vec![""]);
    assert!(load_evos("").is_empty());
}
