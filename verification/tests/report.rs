use pokemon_dv_calculator::chains::{space_arrows, split_arrows, str_contains};
use pokemon_dv_calculator::fmt::{fmt_learnset, fmt_move, fmt_move_header, fmt_stat_header, fmt_stat_row, LearnsetError};
use pokemon_dv_calculator::glyphs::{DIGIT_GLYPHS, SLASH_GLYPH};
use pokemon_dv_calculator::items::{GscItems, Item};
use pokemon_dv_calculator::layout::{
    FieldName, GscSummary1, GscSummary2, GscSummary3, LayoutError, RbySummary1, RbySummary2,
};
use pokemon_dv_calculator::learnset::{GscLearnsets, Learnset, RbyLearnsets};
use pokemon_dv_calculator::moves::{Move, Moves};
use pokemon_dv_calculator::moveset::{
    chains_naming, fmt_lineage, scan_gsc_summary_2, scan_rby_summary_2, species_in,
};
use pokemon_dv_calculator::ocr::{CharBitmap, CharTable};
use pokemon_dv_calculator::pokemon::{GscPokedex, GscPokemon, RbyPokedex, RbyPokemon};
use pokemon_dv_calculator::position::Position;
use pokemon_dv_calculator::raster::GrayImage;
use pokemon_dv_calculator::report::{
    fmt_stat_report, scan_gsc_summary_1, scan_gsc_summary_3, scan_rby_summary_1, ReportError,
    StatColumn,
};
use pokemon_dv_calculator::scan::Layouts;
use pokemon_dv_calculator::stats::{DvRange, StatVariation};
use pokemon_dv_calculator::utils::{break_lines, read_stats_from_screen, scan_img, Tables};

const ALPHABET: &str = "ABCDEFGHIJKLMNOPQRSTUVWXYZ";
const HYPHEN: u64 = 0x7F << 21;

fn glyph(c: char) -> u64 {
    match c {
        ' ' => 0,
        '/' => SLASH_GLYPH,
        '-' => HYPHEN,
        '0'..='9' => DIGIT_GLYPHS[c as usize - '0' as usize],
        _ => 0x7F | (((ALPHABET.find(c).unwrap() as u64) + 1) << 7),
    }
}

fn table() -> CharTable {
    let mut entries: Vec<(CharBitmap, &'static str)> = Vec::new();
    for c in ALPHABET.chars().chain(" /-0123456789".chars()) {
        let label: &'static str = Box::leak(c.to_string().into_boxed_str());
        entries.push((CharBitmap::from_bits(glyph(c)).unwrap(), label));
    }
    CharTable::from_entries(&entries).unwrap()
}

struct Screen {
    data: Vec<u8>,
}

impl Screen {
    fn new() -> Screen {
        Screen { data: vec![0; 160 * 144] }
    }

    fn glyph(&mut self, x: u32, y: u32, bits: u64) {
        for i in 0..49u32 {
            let ink = if (bits >> i) & 1 == 1 { 255 } else { 0 };
            self.data[((y + i / 7) * 160 + x + i % 7) as usize] = ink;
        }
    }

    fn text(&mut self, pos: &Position, text: &str) {
        for (i, c) in text.chars().enumerate() {
            self.glyph(pos.x + 8 * i as u32, pos.y, glyph(c));
        }
    }

    fn image(&self) -> GrayImage {
        GrayImage::from_raw(160, 144, self.data.clone()).unwrap()
    }
}

fn rby(ndex: i32, name: &str, stats: [i32; 5]) -> RbyPokemon {
    RbyPokemon {
        ndex,
        name: name.to_string(),
        type1: "Electric".to_string(),
        type2: String::new(),
        hp: stats[0],
        attack: stats[1],
        defense: stats[2],
        speed: stats[3],
        special: stats[4],
    }
}

fn gsc(ndex: i32, name: &str, stats: [i32; 6]) -> GscPokemon {
    GscPokemon {
        ndex,
        name: name.to_string(),
        type1: "Grass".to_string(),
        type2: String::new(),
        hp: stats[0],
        attack: stats[1],
        defense: stats[2],
        special_attack: stats[3],
        special_defense: stats[4],
        speed: stats[5],
    }
}

fn move_(name: &str, type_: &str) -> Move {
    Move {
        name: name.to_string(),
        type_: type_.to_string(),
        category: "Physical".to_string(),
        power: "40".to_string(),
        accuracy: "100".to_string(),
        pp: "35".to_string(),
        description: format!("What {} does.", name),
    }
}

fn learnset(ndex: &str, pokemon: &str, moves: &[(&str, &str)]) -> Learnset {
    let mut rows = vec![vec!["Level".to_string(), "Move".to_string()]];
    for (level, name) in moves {
        rows.push(vec![level.to_string(), name.to_string()]);
    }
    Learnset { ndex: ndex.to_string(), pokemon: pokemon.to_string(), by_leveling_up: rows }
}

fn tables() -> Tables {
    Tables {
        chars: table(),
        layouts: Layouts::new(),
        rby_pokedex: RbyPokedex::new(vec![
            rby(1, "Pichu", [20, 40, 15, 60, 35]),
            rby(2, "Pikachu", [35, 55, 30, 90, 50]),
            rby(3, "Raichu", [60, 90, 55, 100, 90]),
        ]),
        rby_learnsets: RbyLearnsets::new(vec![
            learnset("001", "Pichu", &[("1", "THUNDERSHOCK")]),
            learnset("002", "Pikachu", &[("1", "THUNDERSHOCK"), ("9", "THUNDER WAVE")]),
            learnset("003", "Raichu", &[("1", "THUNDERSHOCK")]),
        ]),
        rby_evo_chains: vec![
            "Bulbasaur->16->Ivysaur".to_string(),
            "Pichu->Happiness->Pikachu->Thunder Stone->Raichu".to_string(),
        ],
        rby_moves: Moves::new(vec![move_("THUNDERSHOCK", "Electric"), move_("GROWL", "Normal")]),
        gsc_pokedex: GscPokedex::new(vec![
            gsc(1, "Chikorita", [45, 49, 65, 49, 65, 45]),
            gsc(2, "Bayleef", [60, 62, 80, 63, 80, 60]),
        ]),
        gsc_learnsets: GscLearnsets::new(vec![
            learnset("152", "Chikorita", &[("1", "TACKLE")]),
            learnset("153", "Bayleef", &[("1", "TACKLE")]),
        ]),
        gsc_evo_chains: vec!["Chikorita->16->Bayleef".to_string()],
        gsc_moves: Moves::new(vec![move_("TACKLE", "Normal")]),
        gsc_items: GscItems::new(vec![Item {
            name: "Berry".to_string(),
            description: "Restores 10 HP.".to_string(),
        }]),
    }
}

/// The report of stats as the formats of the standard library give it.
fn expected_stats(ndex: i32, name: &str, level: i32, columns: &[(&str, i32, i32, bool)]) -> String {
    let mut t = format!("#{} {} :L{}\n\n", ndex, name, level);
    t.push_str(&fmt_stat_header());
    let mut variations = Vec::new();
    for (label, base, value, is_hp) in columns {
        let variation = StatVariation::init(&level, base, &0, is_hp);
        let range = DvRange::init(value, &variation).unwrap();
        t.push_str(&format!(
            "{:>4}  {:>4}  {:>5}  {:>3} - {:>2}\n",
            label, base, value, range.min, range.max
        ));
        variations.push(variation);
    }
    t.push_str("\nDV-Value Table\n");
    t.push_str(&format!("{:>3}", "DV"));
    for (label, _, _, _) in columns {
        t.push_str(&format!("  {:>3}", label));
    }
    t.push('\n');
    for i in 0..16 {
        t.push_str(&format!("{:>3}", i));
        for (k, (_, _, value, _)) in columns.iter().enumerate() {
            let stat = variations[k].get(i);
            t.push_str(&format!(" {:>3}{}", stat, if stat == *value { '-' } else { ' ' }));
        }
        t.push('\n');
    }
    t
}

fn rby_summary_1(ndex: &str) -> Screen {
    let layout = RbySummary1::new();
    let mut screen = Screen::new();
    for pos in &layout.slash_positions {
        screen.glyph(pos.x, pos.y, SLASH_GLYPH);
    }
    screen.text(&layout.pkmn_ndex_pos, ndex);
    screen.text(&layout.level_field_pos, "81 ");
    screen.text(&layout.hp_field_pos, "152");
    screen.text(&layout.attack_field_pos, "102");
    screen.text(&layout.defense_field_pos, " 64");
    screen.text(&layout.speed_field_pos, "154");
    screen.text(&layout.special_field_pos, "100");
    screen
}

#[test]
fn stats_of_the_first_generation_are_reported() {
    let tables = tables();
    let img = rby_summary_1("002").image();
    let report =
        scan_rby_summary_1(&img, &tables.layouts.rby_summary_1, &tables.chars, &tables.rby_pokedex);
    let columns = [
        ("HP", 35, 152, true),
        ("ATT", 55, 102, false),
        ("DEF", 30, 64, false),
        ("SPD", 90, 154, false),
        ("SPC", 50, 100, false),
    ];
    let expected = expected_stats(2, "Pikachu", 81, &columns);
    assert_eq!(report, Ok(expected.clone()));
    assert!(expected.starts_with("#2 Pikachu :L81\n\nStat  Base  Value  DV Range\n  HP    35    152"));
    assert!(expected.contains("\nDV-Value Table\n DV   HP  ATT  DEF  SPD  SPC\n  0 147   94 "));
    assert!(expected.contains("\n  3 152- "));
    assert_eq!(tables.scan_screen(&img), Ok(expected));
}

#[test]
fn unknown_species_is_reported() {
    let tables = tables();
    let img = rby_summary_1("004").image();
    assert_eq!(tables.scan_screen(&img), Err(ReportError::NoSpecies { ndex: 4 }));
    let img = rby_summary_1("000").image();
    assert_eq!(tables.scan_screen(&img), Err(ReportError::NoSpecies { ndex: 0 }));
    let img = rby_summary_1(" -1").image();
    assert_eq!(tables.scan_screen(&img), Err(ReportError::NoSpecies { ndex: -1 }));
}

#[test]
fn stat_that_fits_no_dv_is_reported() {
    let tables = tables();
    let layout = RbySummary1::new();
    let mut screen = rby_summary_1("002");
    screen.text(&layout.defense_field_pos, " 61");
    let variation = StatVariation::init(&81, &30, &0, &false);
    let possible = (0..16).any(|dv| variation.get(dv) == 61);
    let report = tables.scan_screen(&screen.image());
    if possible {
        assert!(report.is_ok());
    } else {
        assert_eq!(report, Err(ReportError::NoRange { column: 2 }));
    }
    screen.text(&layout.defense_field_pos, "999");
    assert_eq!(tables.scan_screen(&screen.image()), Err(ReportError::NoRange { column: 2 }));
    screen.text(&layout.hp_field_pos, "  1");
    assert_eq!(tables.scan_screen(&screen.image()), Err(ReportError::NoRange { column: 0 }));
    screen.text(&layout.level_field_pos, " A ");
    assert_eq!(
        tables.scan_screen(&screen.image()),
        Err(ReportError::Layout(LayoutError::Parse { field: FieldName::Level }))
    );
}

#[test]
fn stat_report_of_any_columns() {
    let columns = vec![StatColumn { label: "SPE", base: 15, value: 45, is_hp: false }];
    assert_eq!(
        fmt_stat_report(7, "Squirtle", 100, &columns),
        Ok(expected_stats(7, "Squirtle", 100, &[("SPE", 15, 45, false)]))
    );
    assert_eq!(
        fmt_stat_report(7, "Squirtle", 100, &vec![]),
        Ok(expected_stats(7, "Squirtle", 100, &[]))
    );
    let unfit = vec![
        StatColumn { label: "SPE", base: 15, value: 45, is_hp: false },
        StatColumn { label: "ATT", base: i32::MAX, value: 45, is_hp: false },
    ];
    assert_eq!(fmt_stat_report(7, "Squirtle", 100, &unfit), Err(ReportError::Unfit { column: 1 }));
    // 30 times the level is still within reach, but it is not 45.
    assert_eq!(
        fmt_stat_report(7, "Squirtle", i32::MAX, &unfit),
        Err(ReportError::NoRange { column: 0 })
    );
    let unfit = vec![StatColumn { label: "HP", base: 1000, value: 45, is_hp: true }];
    assert_eq!(
        fmt_stat_report(7, "Squirtle", i32::MAX, &unfit),
        Err(ReportError::Unfit { column: 0 })
    );
    assert_eq!(fmt_stat_row("SPE", &15, &45, &DvRange { min: 5, max: 5 }), " SPE    15     45    5 -  5\n");
}

#[test]
fn stats_of_the_second_generation_are_reported() {
    let tables = tables();
    let layout = GscSummary1::new();
    let mut screen = Screen::new();
    screen.glyph(32, 80, SLASH_GLYPH);
    screen.text(&layout.ndex, "001");
    screen.text(&layout.level, "5  ");
    screen.text(&layout.hp, " 20");
    let img = screen.image();
    let expected = expected_stats(1, "Chikorita", 5, &[("HP", 45, 20, true)]);
    assert_eq!(scan_gsc_summary_1(&img, &layout, &tables.chars, &tables.gsc_pokedex), Ok(expected.clone()));
    assert_eq!(tables.scan_screen(&img), Ok(expected));

    let layout = GscSummary3::new();
    let mut screen = Screen::new();
    screen.glyph(16, 96, SLASH_GLYPH);
    screen.text(&layout.ndex, "002");
    screen.text(&layout.level, "50 ");
    screen.text(&layout.attack, " 70");
    screen.text(&layout.defense, " 90");
    screen.text(&layout.spc_attack, " 73");
    screen.text(&layout.spc_defense, " 88");
    screen.text(&layout.speed, " 66");
    let img = screen.image();
    let columns = [
        ("ATT", 62, 70, false),
        ("DEF", 80, 90, false),
        ("SPA", 63, 73, false),
        ("SPD", 80, 88, false),
        ("SPE", 60, 66, false),
    ];
    let expected = expected_stats(2, "Bayleef", 50, &columns);
    assert_eq!(scan_gsc_summary_3(&img, &layout, &tables.chars, &tables.gsc_pokedex), Ok(expected.clone()));
    assert_eq!(tables.scan_screen(&img), Ok(expected));
}

#[test]
fn chains_are_searched_and_split() {
    assert!(str_contains("Pichu->Pikachu", "Pikachu"));
    assert!(str_contains("Pichu->Pikachu", ""));
    assert!(str_contains("Pichu", "Pichu"));
    assert!(!str_contains("Pichu->Pikachu", "Raichu"));
    assert!(!str_contains("Pic", "Pichu"));
    for text in ["", "a", "a->b", "a->", "->", "->a", "a->->b", "-->", "a-b>c", "a->b->c", "-", ">", "ä->ö"] {
        let expected: Vec<String> = text.split("->").map(|p| p.to_string()).collect();
        assert_eq!(split_arrows(text), expected);
        assert_eq!(space_arrows(text), text.replace("->", "   ->   "));
        for pattern in ["", "a", "->", "b->", "ö"] {
            assert_eq!(str_contains(text, pattern), text.contains(pattern));
        }
    }
}

#[test]
fn species_of_the_chains() {
    let chains = vec![
        "Eevee->Water Stone->Vaporeon".to_string(),
        "Bulbasaur->16->Ivysaur".to_string(),
        "Eevee->Thunder Stone->Jolteon".to_string(),
        "Jolteon".to_string(),
    ];
    let own = chains_naming(&chains, "Eevee");
    assert_eq!(own, vec![chains[0].clone(), chains[2].clone()]);
    assert_eq!(species_in(&own), vec!["Eevee", "Vaporeon", "Jolteon"]);
    assert_eq!(chains_naming(&chains, "Jolteon"), vec![chains[2].clone(), chains[3].clone()]);
    assert!(chains_naming(&chains, "Mew").is_empty());
    assert!(species_in(&vec![]).is_empty());
    // A name is found in any part of a chain, also in a longer name.
    assert_eq!(chains_naming(&chains, "Stone").len(), 2);
}

/// The lineage as the formats of the standard library give it.
fn expected_lineage(tables_chains: &[&str], sets: &[&Learnset], moves: &Moves) -> String {
    let mut t = String::from("\nEvo chain(s):\n");
    for chain in tables_chains {
        t.push_str(&format!("{}\n", chain.replace("->", "   ->   ")));
    }
    t.push_str("\n");
    for set in sets {
        t.push_str(&format!("{}\n", fmt_learnset(set, moves).unwrap()));
    }
    t
}

#[test]
fn moves_of_the_first_generation_are_reported() {
    let tables = tables();
    let layout = RbySummary2::new();
    let mut screen = Screen::new();
    screen.glyph(128, 81, SLASH_GLYPH);
    screen.text(&layout.pkmn_ndex_pos, "002");
    screen.text(&layout.move_1, "THUNDERSHOCK");
    screen.text(&layout.move_2, "THUNDER WAVE");
    screen.text(&layout.move_3, "-           ");
    screen.text(&layout.move_4, "-           ");
    let img = screen.image();
    let sets = tables.rby_learnsets.sets();
    let mut expected = format!("{}\n", fmt_move_header());
    expected.push_str(&format!("{}\n", fmt_move(tables.rby_moves.get("THUNDERSHOCK"))));
    expected.push_str(&format!("{}\n", fmt_move(None)));
    expected.push_str("-\n-\n");
    expected.push_str(&expected_lineage(
        &["Pichu->Happiness->Pikachu->Thunder Stone->Raichu"],
        &[&sets[0], &sets[1], &sets[2]],
        &tables.rby_moves,
    ));
    let report = scan_rby_summary_2(
        &img,
        &layout,
        &tables.chars,
        &tables.rby_pokedex,
        &tables.rby_evo_chains,
        &tables.rby_learnsets,
        &tables.rby_moves,
    );
    assert_eq!(report, Ok(expected.clone()));
    assert_eq!(tables.scan_screen(&img), Ok(expected));

    screen.text(&layout.pkmn_ndex_pos, "   ");
    assert_eq!(
        tables.scan_screen(&screen.image()),
        Err(ReportError::Layout(LayoutError::Parse { field: FieldName::Ndex }))
    );
    screen.text(&layout.pkmn_ndex_pos, "009");
    assert_eq!(tables.scan_screen(&screen.image()), Err(ReportError::NoSpecies { ndex: 9 }));
}

#[test]
fn moves_of_the_second_generation_are_reported() {
    let tables = tables();
    let layout = GscSummary2::new();
    let mut screen = Screen::new();
    screen.glyph(136, 88, SLASH_GLYPH);
    screen.text(&layout.ndex, "001");
    screen.text(&layout.level, "5  ");
    screen.text(&layout.item, "BERRY       ");
    screen.text(&layout.move_1, "TACKLE      ");
    screen.text(&layout.move_2, "GROWL       ");
    screen.text(&layout.move_3, "-           ");
    screen.text(&layout.move_4, "-           ");
    let img = screen.image();
    let sets = tables.gsc_learnsets.sets();
    let mut expected = format!("#{} {} :L{}\n\n", 1, "Chikorita", 5);
    expected.push_str("Item:\n");
    expected.push_str(&format!("{:<12}  {}\n\n", "BERRY", "Restores 10 HP."));
    expected.push_str(&format!("{}\n", fmt_move_header()));
    expected.push_str(&format!("{}\n", fmt_move(tables.gsc_moves.get("TACKLE"))));
    expected.push_str(&format!("{}\n", fmt_move(None)));
    expected.push_str("-\n-\n");
    expected.push_str(&expected_lineage(
        &["Chikorita->16->Bayleef"],
        &[&sets[0], &sets[1]],
        &tables.gsc_moves,
    ));
    let report = scan_gsc_summary_2(
        &img,
        &layout,
        &tables.chars,
        &tables.gsc_pokedex,
        &tables.gsc_items,
        &tables.gsc_moves,
        &tables.gsc_evo_chains,
        &tables.gsc_learnsets,
    );
    assert_eq!(report, Ok(expected.clone()));
    assert_eq!(tables.scan_screen(&img), Ok(expected));

    screen.text(&layout.item, "MYSTERY ITEM");
    let report = tables.scan_screen(&screen.image()).unwrap();
    assert!(report.contains("Item:\nMYSTERY ITEM  NO DATA\n\n"));
}

#[test]
fn lineage_needs_every_learnset() {
    let moves = Moves::new(vec![]);
    let chains = vec!["Pichu->Happiness->Pikachu".to_string()];
    let sets = vec![learnset("001", "Pichu", &[("1", "CHARM")])];
    assert_eq!(fmt_lineage("Pichu", &chains, &sets, &moves), Err(ReportError::NoLearnset { index: 1 }));
    let mut broken = learnset("002", "Pikachu", &[]);
    broken.by_leveling_up.push(vec!["1".to_string()]);
    let sets = vec![learnset("001", "Pichu", &[]), broken];
    assert_eq!(
        fmt_lineage("Pikachu", &chains, &sets, &moves),
        Err(ReportError::Learnset { index: 1, cause: LearnsetError::ColumnMismatch })
    );
    // A species that no chain names has no chains and no learnsets.
    assert_eq!(fmt_lineage("Mew", &chains, &sets, &moves), Ok("\nEvo chain(s):\n\n".to_string()));
}

#[test]
fn picture_is_reported() {
    let tables = tables();
    let screen = rby_summary_1("002");
    let (width, height) = (500usize, 400usize);
    let mut gray = vec![30u8; width * height];
    for y in 0..288 {
        for x in 0..320 {
            let text = screen.data[(y / 2) * 160 + x / 2] != 0;
            gray[(50 + y) * width + 60 + x] = if text { 40 } else { 220 };
        }
    }
    let picture = GrayImage::from_raw(width as u32, height as u32, gray.clone()).unwrap();
    let report = scan_img(&picture, &tables).unwrap();
    assert_eq!(report, tables.scan_screen(&screen.image()).unwrap());

    let mut rgba = Vec::new();
    for p in &gray {
        rgba.extend_from_slice(&[*p, *p, *p, 255]);
    }
    let html = read_stats_from_screen(&rgba, width as u32, height as u32, &tables).unwrap();
    assert_eq!(html, report.replace("\n", "<br>"));
    assert_eq!(
        read_stats_from_screen(&rgba, width as u32, height as u32 - 1, &tables),
        Err(ReportError::Dimensions)
    );
    assert_eq!(read_stats_from_screen(&vec![], u32::MAX, 0, &tables), Err(ReportError::Dimensions));
    assert_eq!(read_stats_from_screen(&vec![], 0, 0, &tables), Err(ReportError::NoScreen));

    let dark = GrayImage::from_raw(200, 200, vec![0; 200 * 200]).unwrap();
    assert_eq!(scan_img(&dark, &tables), Err(ReportError::NoScreen));
    let blank = GrayImage::from_raw(160, 144, vec![255; 160 * 144]).unwrap();
    assert_eq!(scan_img(&blank, &tables), Err(ReportError::NotRecognized));
}

#[test]
fn colours_become_their_luminance() {
    let rgba = vec![255, 255, 255, 255, 255, 0, 0, 0, 0, 255, 0, 7, 0, 0, 255, 255, 10, 20, 30, 40, 0, 0, 0, 255];
    let img = GrayImage::from_rgba(3, 2, &rgba).unwrap();
    assert_eq!(img.dimensions(), (3, 2));
    // (2126 * 10 + 7152 * 20 + 722 * 30) / 10000 = 18.596
    assert_eq!(img.as_raw(), &vec![255, 54, 182, 18, 18, 0]);
    assert!(GrayImage::from_rgba(3, 2, &rgba[..23].to_vec()).is_none());
    assert!(GrayImage::from_rgba(2, 2, &rgba).is_none());
}

#[test]
fn line_feeds_become_breaks() {
    assert_eq!(break_lines("a\nb\n\nc"), "a<br>b<br><br>c");
    assert_eq!(break_lines(""), "");
    assert_eq!(break_lines("\n"), "<br>");
    assert_eq!(break_lines("é\r\n"), "é\r<br>");
}
