use pokemon_dv_calculator::fmt::{
    fmt_gsc_learnset, fmt_learnset, fmt_move, fmt_move_header, fmt_stat_header, fmt_stat_row,
    get_pretty_learnset_table, LearnsetError,
};
use pokemon_dv_calculator::format::{
    push_centered, push_left, push_right, push_zero_filled, to_decimal, to_digits,
};
use pokemon_dv_calculator::learnset::Learnset;
use pokemon_dv_calculator::moves::{Move, Moves};
use pokemon_dv_calculator::pokemon::Pokemon;
use pokemon_dv_calculator::stats::{BaseStats, DvRange, DvRanges, DvTable, Experience, Stats};
use pokemon_dv_calculator::summary::summarize_pkmn_stats;
use pokemon_dv_calculator::text::{is_whitespace, lines, parse_i32, trim};

#[test]
fn trim_is_that_of_str() {
    for text in ["", " ", "  a b  ", "a", "\t\n a\u{a0}", "\u{3000}x\u{2003}", "a  ", "  a", "-"] {
        assert_eq!(trim(text), text.trim());
    }
    for code in 0..0x3100u32 {
        if let Some(c) = char::from_u32(code) {
            assert_eq!(is_whitespace(c), c.is_whitespace());
        }
    }
}

#[test]
fn numbers_are_parsed_like_i32() {
    let texts = [
        "0", "7", "025", "189", "-3", "+3", "-0", "", "-", "+", "1 2", " 1", "1 ", "12a", "--1",
        "+-1", "2147483647", "2147483648", "-2147483648", "-2147483649", "00000000000001",
        "99999999999999999999", "1/2", "٣",
    ];
    for text in texts {
        assert_eq!(parse_i32(text), text.parse::<i32>().ok());
    }
    assert_eq!(parse_i32("189"), Some(189));
    assert_eq!(parse_i32("-2147483648"), Some(i32::MIN));
    assert_eq!(parse_i32("2147483648"), None);
}

#[test]
fn lines_are_those_of_str() {
    for text in ["", "a", "a\n", "a\nb", "a\r\nb\r\n", "\n\n", "a\r", "\r\n", "a\rb\n", "ä\nö"] {
        let expected: Vec<String> = text.lines().map(|l| l.to_owned()).collect();
        assert_eq!(lines(text), expected);
    }
}

#[test]
fn numbers_in_base_ten() {
    for v in [0i64, 7, 10, 99, 100, -1, -10, 1234567890, i64::MAX, i64::MIN] {
        assert_eq!(to_decimal(v), v.to_string());
    }
    assert_eq!(to_digits(u64::MAX), u64::MAX.to_string());
    assert_eq!(to_digits(0), "0");
}

#[test]
fn texts_are_padded_to_their_columns() {
    for text in ["", "a", "abc", "abcd", "abcde", "é"] {
        let mut out = String::from(">");
        push_right(&mut out, text, 4);
        assert_eq!(out, format!(">{:>4}", text));
        let mut out = String::from(">");
        push_left(&mut out, text, 4);
        assert_eq!(out, format!(">{:<4}", text));
        for width in [0usize, 4, 5, 7] {
            let mut out = String::from(">");
            push_centered(&mut out, text, width);
            assert_eq!(out, format!(">{:^1$}", text, width));
        }
    }
    for v in [0i64, 7, 25, 151, 1000, -7, -25, -151] {
        let mut out = String::new();
        push_zero_filled(&mut out, v, 3);
        assert_eq!(out, format!("{: >03}", v));
    }
}

#[test]
fn stat_table_lines() {
    assert_eq!(fmt_stat_header(), "Stat  Base  Value  DV Range\n");
    assert_eq!(
        fmt_stat_header(),
        format!("{:>4}  {:>4}  {:>5}  {}\n", "Stat", "Base", "Value", "DV Range")
    );
    let range = DvRange { min: 5, max: 14 };
    assert_eq!(fmt_stat_row("HP", &45, &189, &range), "  HP    45    189    5 - 14\n");
    let range = DvRange { min: 0, max: 1 };
    assert_eq!(
        fmt_stat_row("ATT", &100, &7, &range),
        format!("{:>4}  {:>4}  {:>5}  {:>3} - {:>2}\n", "ATT", 100, 7, 0, 1)
    );
}

fn pound() -> Move {
    Move {
        name: "Pound".to_string(),
        type_: "Normal".to_string(),
        category: "Physical".to_string(),
        power: "40".to_string(),
        accuracy: "100".to_string(),
        pp: "35".to_string(),
        description: "No additional effect.".to_string(),
    }
}

fn growl() -> Move {
    Move {
        name: "Growl".to_string(),
        type_: "Normal".to_string(),
        category: "Non-Damaging".to_string(),
        power: "0".to_string(),
        accuracy: "100".to_string(),
        pp: "40".to_string(),
        description: "Lowers the attack of the target.".to_string(),
    }
}

#[test]
fn move_table_lines() {
    assert_eq!(
        fmt_move_header(),
        format!(
            "{:<15}  {:<8}  {:<12}  {:>3}  {:>4}  {:>2}  {}",
            "Move", "Type", "Cat", "Pow", "Acc", "PP", "Desc"
        )
    );
    let m = pound();
    assert_eq!(
        fmt_move(Some(&m)),
        format!(
            "{:<15}  {:<8}  {:<12}  {:>3}  {:>3}%  {:>2}  {}",
            m.name, m.type_, m.category, m.power, m.accuracy, m.pp, m.description
        )
    );
    assert_eq!(
        fmt_move(Some(&m)),
        "Pound            Normal    Physical       40  100%  35  No additional effect."
    );
    assert_eq!(
        fmt_move(None),
        format!(
            "{:<15}  {:<8}  {:<12}  {:>3}  {:>3}   {:>2}  {}",
            "-", "-", "-", "-", "-", "-", "MOVE DATA NOT FOUND"
        )
    );
}

fn row(cells: &[&str]) -> Vec<String> {
    cells.iter().map(|c| c.to_string()).collect()
}

fn learnset(rows: Vec<Vec<String>>) -> Learnset {
    Learnset { ndex: "001".to_string(), pokemon: "Bulbasaur".to_string(), by_leveling_up: rows }
}

#[test]
fn learnset_with_one_column_of_levels() {
    let moves = Moves::new(vec![pound(), growl()]);
    let set = learnset(vec![row(&["Level", "Move"]), row(&["1", "Pound"]), row(&["4", "Tackle"])]);
    let expected = format!(
        "No.001 Bulbasaur learnset\n{:<3}  {}\n{:<3}  {}\n{:<3}  {}\n",
        "Lvl",
        fmt_move_header(),
        "1",
        fmt_move(moves.get("Pound")),
        "4",
        fmt_move(None)
    );
    assert_eq!(fmt_learnset(&set, &moves), Ok(expected.clone()));
    assert_eq!(fmt_gsc_learnset(&set, &moves), Ok(expected));
}

#[test]
fn learnset_with_two_columns_of_levels() {
    let moves = Moves::new(vec![pound(), growl()]);
    let set = learnset(vec![row(&["RB", "Y", "Move"]), row(&["1", "1", "Growl"])]);
    let expected = format!(
        "No.001 Bulbasaur learnset\n{:<3}  {:<3}  {}\n{:<3}  {:<3}  {}\n",
        "RB",
        "Y",
        fmt_move_header(),
        "1",
        "1",
        fmt_move(moves.get("Growl"))
    );
    assert_eq!(fmt_learnset(&set, &moves), Ok(expected));
    let only_header = learnset(vec![row(&["Level", "Move"])]);
    assert_eq!(
        fmt_learnset(&only_header, &moves),
        Ok(format!("No.001 Bulbasaur learnset\nLvl  {}\n", fmt_move_header()))
    );
}

#[test]
fn learnset_with_wrong_columns() {
    let moves = Moves::new(vec![pound()]);
    assert_eq!(fmt_learnset(&learnset(vec![]), &moves), Err(LearnsetError::NoRows));
    let ragged = learnset(vec![row(&["Level", "Move"]), row(&["1"])]);
    assert_eq!(fmt_learnset(&ragged, &moves), Err(LearnsetError::ColumnMismatch));
    let wide = learnset(vec![row(&["a", "b", "c", "d"]), row(&["1", "2", "3", "4"])]);
    assert_eq!(fmt_learnset(&wide, &moves), Err(LearnsetError::ColumnCount { got: 4 }));
    let narrow = learnset(vec![row(&["a"])]);
    assert_eq!(fmt_learnset(&narrow, &moves), Err(LearnsetError::ColumnCount { got: 1 }));
}

#[test]
fn wide_learnset_tables() {
    let moves = Moves::new(vec![pound(), growl()]);
    let header = row(&["Level", "Move", "Type", "Power", "Accuracy", "PP"]);
    let first = row(&["1", "Pound", "Normal", "40", "100%", "35"]);
    let second = row(&["7", "Leech Seed", "Grass", "0", "90%", "10"]);
    let set = learnset(vec![header.clone(), first.clone(), second.clone()]);
    let mut expected = format!(
        "{:^5} {:^15} {:^7} {:^5} {:^8} {:^3} Description\n",
        header[0], header[1], header[2], header[3], header[4], header[5]
    );
    for (r, description) in [(&first, "No additional effect."), (&second, "NO DESCRIPTION")] {
        expected.push_str(&format!(
            "{:<5} {:<15} {:^7} {:<5} {:<8} {:<3} {}\n",
            r[0], r[1], r[2], r[3], r[4], r[5], description
        ));
    }
    assert_eq!(get_pretty_learnset_table(&set, &moves), Ok(expected));

    let header = row(&["RB", "Y", "Move", "Type", "Power", "Accuracy", "PP"]);
    let first = row(&["1", "Growl", "Tackle", "Normal", "35", "95%", "35"]);
    let set = learnset(vec![header.clone(), first.clone()]);
    let expected = format!(
        "{:^3} {:^3} {:^15} {:^7} {:^5} {:^8} {:^3} Description\n{:<3} {:<3} {:<15} {:^7} {:<5} {:<8} {:<3} {}\n",
        header[0], header[1], header[2], header[3], header[4], header[5], header[6],
        first[0], first[1], first[2], first[3], first[4], first[5], first[6],
        "Lowers the attack of the target."
    );
    assert_eq!(get_pretty_learnset_table(&set, &moves), Ok(expected));

    assert_eq!(get_pretty_learnset_table(&learnset(vec![]), &moves), Err(LearnsetError::NoRows));
    let ragged = learnset(vec![header, row(&["1", "Growl"])]);
    assert_eq!(get_pretty_learnset_table(&ragged, &moves), Err(LearnsetError::ColumnMismatch));
    let short = learnset(vec![row(&["Level", "Move"])]);
    assert_eq!(get_pretty_learnset_table(&short, &moves), Err(LearnsetError::ColumnMismatch));
}

#[test]
fn summary_of_an_individual() {
    let record = Pokemon {
        ndex: 25,
        pokemon: "Pikachu".to_string(),
        type1: "Electric".to_string(),
        type2: String::new(),
        hp: 35,
        attack: 55,
        defense: 30,
        speed: 90,
        special: 50,
    };
    let base = BaseStats::from_record(&record);
    let level = 5;
    let stats = Stats { hp: 19, attack: 11, defense: 8, speed: 14, special: 77 };
    let table = DvTable::new(&level, &base, &Experience::with_no_experience());
    let ranges = DvRanges::new(&stats, &table);
    assert_eq!(ranges.hp, Some((5, 14)));
    assert_eq!(ranges.special, None);

    let range = |r: Option<(usize, usize)>| match r {
        Some(r) => format!("{:>2} - {:>2}", r.0, r.1),
        None => String::from("Stat is not within expectations."),
    };
    let mut expected = String::new();
    expected.push_str(&format!("{: <} No.{: >03} :L{: <3}\n", record.pokemon, record.ndex, level));
    expected.push_str("\n");
    expected.push_str("Stats       DVs [min:max]\n");
    expected.push_str(&format!(" HP: {:>3}    {}\n", stats.hp, range(ranges.hp)));
    expected.push_str(&format!("ATT: {:>3}    {}\n", stats.attack, range(ranges.attack)));
    expected.push_str(&format!("DEF: {:>3}    {}\n", stats.defense, range(ranges.defense)));
    expected.push_str(&format!("SPD: {:>3}    {}\n", stats.speed, range(ranges.speed)));
    expected.push_str(&format!("SPC: {:>3}    {}\n", stats.special, range(ranges.special)));
    expected.push_str("\n");
    expected.push_str("Base stats\n");
    expected.push_str(&format!(
        "{: >3}  {: >3}  {: >3}  {: >3}  {: >3}\n",
        " HP", "ATT", "DEF", "SPC", "SPD"
    ));
    expected.push_str(&format!(
        "{: >3}  {: >3}  {: >3}  {: >3}  {: >3}  \n",
        base.hp, base.attack, base.defense, base.speed, base.special,
    ));
    expected.push_str("\n");
    expected.push_str("DV-Stats table\n");
    expected.push_str(&format!(
        "{: >4} {: >4} {: >4} {: >4} {: >4} {: >4}\n",
        "DV", "HP", "ATT", "DEF", "SPD", "SPC"
    ));
    for i in 0..16 {
        let eq = |a: i32, b: i32| if a == b { "-" } else { " " };
        expected.push_str(&format!(
            "{: >4} {: >4}{}{: >4}{}{: >4}{}{: >4}{}{: >4}{}\n",
            i,
            table.hp[i],
            eq(table.hp[i], stats.hp),
            table.attack[i],
            eq(table.attack[i], stats.attack),
            table.defense[i],
            eq(table.defense[i], stats.defense),
            table.speed[i],
            eq(table.speed[i], stats.speed),
            table.special[i],
            eq(table.special[i], stats.special),
        ));
    }
    assert_eq!(summarize_pkmn_stats(&record, &base, level, &stats, &table, &ranges), expected);
}
