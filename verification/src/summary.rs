//! The summary of an individual as text: its stats, the DVs that fit them,
//! the base stats of its species and the stats for every DV.

use crate::format::{
    decimal, digits_of, push_right, push_zero_filled, push_left, right_aligned, left_aligned,
    to_decimal, to_digits, zero_filled,
};
use crate::pokemon::Pokemon;
use crate::stats::{BaseStats, DvRanges, DvTable, Stats};
use vstd::prelude::*;
use vstd::string::StringExecFns;

verus! {

/// The DVs that fit a stat as text, or that there are none.
pub open spec fn range_text(range: Option<(usize, usize)>) -> Seq<char> {
    match range {
        Some(r) => right_aligned(digits_of(r.0 as nat), 2) + " - "@ + right_aligned(
            digits_of(r.1 as nat),
            2,
        ),
        None => "Stat is not within expectations."@,
    }
}

/// The line of a stat: its name, its value and the DVs that fit it.
pub open spec fn stat_line(label: Seq<char>, value: int, range: Option<(usize, usize)>) -> Seq<char> {
    label + ": "@ + right_aligned(decimal(value), 3) + "    "@ + range_text(range) + "\n"@
}

/// The mark after a stat of the table: a hyphen where the stat is the
/// stat of the individual, a space elsewhere.
pub open spec fn mark(equal: bool) -> Seq<char> {
    if equal {
        "-"@
    } else {
        " "@
    }
}

/// A stat of the table with its mark.
pub open spec fn marked_stat(stat: int, observed: int) -> Seq<char> {
    right_aligned(decimal(stat), 4) + mark(stat == observed)
}

/// The row of the table of stats for the DV `dv`.
pub open spec fn dv_row(table: DvTable, stats: Stats, dv: int) -> Seq<char> {
    right_aligned(digits_of(dv as nat), 4) + " "@ + marked_stat(
        table.hp[dv] as int,
        stats.hp as int,
    ) + marked_stat(table.attack[dv] as int, stats.attack as int) + marked_stat(
        table.defense[dv] as int,
        stats.defense as int,
    ) + marked_stat(table.speed[dv] as int, stats.speed as int) + marked_stat(
        table.special[dv] as int,
        stats.special as int,
    ) + "\n"@
}

/// The rows of the table of stats for the first `n` DVs.
pub open spec fn dv_rows(table: DvTable, stats: Stats, n: nat) -> Seq<char>
    decreases n,
{
    if n == 0 {
        Seq::empty()
    } else {
        dv_rows(table, stats, (n - 1) as nat) + dv_row(table, stats, n - 1)
    }
}

/// The line that names the individual: its species, the number of the
/// species filled with zeros to three digits, and its level.
pub open spec fn title_line(name: Seq<char>, ndex: int, level: int) -> Seq<char> {
    name + " No."@ + zero_filled(ndex, 3) + " :L"@ + left_aligned(decimal(level), 3) + "\n"@
}

/// The lines of the stats of the individual.
pub open spec fn stat_lines(stats: Stats, ranges: DvRanges) -> Seq<char> {
    "\nStats       DVs [min:max]\n"@ + stat_line(" HP"@, stats.hp as int, ranges.hp) + stat_line(
        "ATT"@,
        stats.attack as int,
        ranges.attack,
    ) + stat_line("DEF"@, stats.defense as int, ranges.defense) + stat_line(
        "SPD"@,
        stats.speed as int,
        ranges.speed,
    ) + stat_line("SPC"@, stats.special as int, ranges.special)
}

/// The lines of the base stats of the species.
pub open spec fn base_lines(base: BaseStats) -> Seq<char> {
    "\nBase stats\n HP  ATT  DEF  SPC  SPD\n"@ + right_aligned(decimal(base.hp as int), 3) + "  "@
        + right_aligned(decimal(base.attack as int), 3) + "  "@ + right_aligned(
        decimal(base.defense as int),
        3,
    ) + "  "@ + right_aligned(decimal(base.speed as int), 3) + "  "@ + right_aligned(
        decimal(base.special as int),
        3,
    ) + "  \n"@
}

/// The header of the table of stats for every DV.
pub open spec fn dv_header() -> Seq<char> {
    "\nDV-Stats table\n  DV   HP  ATT  DEF  SPD  SPC\n"@
}

/// The summary of an individual.
pub open spec fn summary(
    record: Pokemon,
    base: BaseStats,
    level: int,
    stats: Stats,
    table: DvTable,
    ranges: DvRanges,
) -> Seq<char> {
    title_line(record.pokemon@, record.ndex as int, level) + stat_lines(stats, ranges)
        + base_lines(base) + dv_header() + dv_rows(table, stats, 16)
}

/// Appends the DVs that fit a stat, or that there are none.
fn push_range(out: &mut String, range: Option<(usize, usize)>)
    ensures
        final(out)@ == old(out)@ + range_text(range),
{
    let ghost start = out@;
    match range {
        Some(r) => {
            push_right(out, to_digits(r.0 as u64).as_str(), 2);
            out.append(" - ");
            push_right(out, to_digits(r.1 as u64).as_str(), 2);
        },
        None => {
            out.append("Stat is not within expectations.");
        },
    }
    assert(out@ =~= start + range_text(range));
}

/// Appends the line of a stat.
fn push_stat_line(out: &mut String, label: &str, value: i32, range: Option<(usize, usize)>)
    ensures
        final(out)@ == old(out)@ + stat_line(label@, value as int, range),
{
    let ghost start = out@;
    out.append(label);
    out.append(": ");
    push_right(out, to_decimal(value as i64).as_str(), 3);
    out.append("    ");
    push_range(out, range);
    out.append("\n");
    assert(out@ =~= start + stat_line(label@, value as int, range));
}

/// Appends a stat of the table with its mark.
fn push_marked_stat(out: &mut String, stat: i32, observed: i32)
    ensures
        final(out)@ == old(out)@ + marked_stat(stat as int, observed as int),
{
    let ghost start = out@;
    push_right(out, to_decimal(stat as i64).as_str(), 4);
    if stat == observed {
        out.append("-");
    } else {
        out.append(" ");
    }
    assert(out@ =~= start + marked_stat(stat as int, observed as int));
}

/// Appends the row of the table of stats for the DV `dv`.
fn push_dv_row(out: &mut String, table: &DvTable, stats: &Stats, dv: usize)
    requires
        dv < 16,
    ensures
        final(out)@ == old(out)@ + dv_row(*table, *stats, dv as int),
{
    let ghost start = out@;
    push_right(out, to_digits(dv as u64).as_str(), 4);
    out.append(" ");
    push_marked_stat(out, table.hp[dv], stats.hp);
    push_marked_stat(out, table.attack[dv], stats.attack);
    push_marked_stat(out, table.defense[dv], stats.defense);
    push_marked_stat(out, table.speed[dv], stats.speed);
    push_marked_stat(out, table.special[dv], stats.special);
    out.append("\n");
    assert(out@ =~= start + dv_row(*table, *stats, dv as int));
}

/// Appends the lines of the stats of the individual.
fn push_stat_lines(out: &mut String, stats: &Stats, ranges: &DvRanges)
    ensures
        final(out)@ == old(out)@ + stat_lines(*stats, *ranges),
{
    let ghost start = out@;
    out.append("\nStats       DVs [min:max]\n");
    push_stat_line(out, " HP", stats.hp, ranges.hp);
    push_stat_line(out, "ATT", stats.attack, ranges.attack);
    push_stat_line(out, "DEF", stats.defense, ranges.defense);
    push_stat_line(out, "SPD", stats.speed, ranges.speed);
    push_stat_line(out, "SPC", stats.special, ranges.special);
    assert(out@ =~= start + stat_lines(*stats, *ranges));
}

/// Appends the lines of the base stats of the species.
fn push_base_lines(out: &mut String, base: &BaseStats)
    ensures
        final(out)@ == old(out)@ + base_lines(*base),
{
    let ghost start = out@;
    out.append("\nBase stats\n HP  ATT  DEF  SPC  SPD\n");
    push_right(out, to_decimal(base.hp as i64).as_str(), 3);
    out.append("  ");
    push_right(out, to_decimal(base.attack as i64).as_str(), 3);
    out.append("  ");
    push_right(out, to_decimal(base.defense as i64).as_str(), 3);
    out.append("  ");
    push_right(out, to_decimal(base.speed as i64).as_str(), 3);
    out.append("  ");
    push_right(out, to_decimal(base.special as i64).as_str(), 3);
    out.append("  \n");
    assert(out@ =~= start + base_lines(*base));
}

/// Returns the summary of an individual as text. The text has line feeds
/// and spaces and can be printed to a terminal as it is.
pub fn summarize_pkmn_stats(
    record: &Pokemon,
    base_stats: &BaseStats,
    level: i32,
    stats: &Stats,
    dv_stats_table: &DvTable,
    dv_ranges: &DvRanges,
) -> (text: String)
    ensures
        text@ == summary(
            *record,
            *base_stats,
            level as int,
            *stats,
            *dv_stats_table,
            *dv_ranges,
        ),
{
    let mut text = String::new();
    text.append(record.pokemon.as_str());
    text.append(" No.");
    push_zero_filled(&mut text, record.ndex as i64, 3);
    text.append(" :L");
    push_left(&mut text, to_decimal(level as i64).as_str(), 3);
    text.append("\n");
    assert(text@ =~= title_line(record.pokemon@, record.ndex as int, level as int));
    push_stat_lines(&mut text, stats, dv_ranges);
    push_base_lines(&mut text, base_stats);
    text.append("\nDV-Stats table\n  DV   HP  ATT  DEF  SPD  SPC\n");
    let ghost head = text@;
    let mut i: usize = 0;
    assert(text@ =~= head + dv_rows(*dv_stats_table, *stats, 0));
    while i < 16
        invariant
            i <= 16,
            text@ == head + dv_rows(*dv_stats_table, *stats, i as nat),
        decreases 16 - i,
    {
        let ghost done = dv_rows(*dv_stats_table, *stats, i as nat);
        push_dv_row(&mut text, dv_stats_table, stats, i);
        assert(text@ =~= head + (done + dv_row(*dv_stats_table, *stats, i as int)));
        i = i + 1;
    }
    text
}

/// The table of the stats for every DV, with a hyphen after each stat that
/// is the stat of the individual.
pub open spec fn dv_table_text(table: DvTable, stats: Stats) -> Seq<char> {
    "  DV   HP  ATT  DEF  SPD  SPC\n"@ + dv_rows(table, stats, 16)
}

/// Returns the table of the stats for every DV as text, with a hyphen
/// after each stat that is the stat of the individual.
pub fn fmt_dv_table(table: &DvTable, stats: &Stats) -> (text: String)
    ensures
        text@ == dv_table_text(*table, *stats),
{
    let mut text = String::new();
    text.append("  DV   HP  ATT  DEF  SPD  SPC\n");
    let ghost head = text@;
    let mut i: usize = 0;
    assert(text@ =~= head + dv_rows(*table, *stats, 0));
    while i < 16
        invariant
            i <= 16,
            text@ == head + dv_rows(*table, *stats, i as nat),
        decreases 16 - i,
    {
        let ghost done = dv_rows(*table, *stats, i as nat);
        push_dv_row(&mut text, table, stats, i);
        assert(text@ =~= head + (done + dv_row(*table, *stats, i as int)));
        i = i + 1;
    }
    text
}

/// The row of the plain table of stats for the DV `dv`: the DV and the
/// five stats, each in a column of five characters.
pub open spec fn pairs_row(
    hp: Seq<i32>,
    attack: Seq<i32>,
    defense: Seq<i32>,
    speed: Seq<i32>,
    special: Seq<i32>,
    dv: int,
) -> Seq<char> {
    right_aligned(digits_of(dv as nat), 5) + right_aligned(decimal(hp[dv] as int), 5)
        + right_aligned(decimal(attack[dv] as int), 5) + right_aligned(
        decimal(defense[dv] as int),
        5,
    ) + right_aligned(decimal(speed[dv] as int), 5) + right_aligned(
        decimal(special[dv] as int),
        5,
    ) + "\n"@
}

/// The rows of the plain table of stats for the first `n` DVs.
pub open spec fn pairs_rows(
    hp: Seq<i32>,
    attack: Seq<i32>,
    defense: Seq<i32>,
    speed: Seq<i32>,
    special: Seq<i32>,
    n: nat,
) -> Seq<char>
    decreases n,
{
    if n == 0 {
        Seq::empty()
    } else {
        pairs_rows(hp, attack, defense, speed, special, (n - 1) as nat) + pairs_row(
            hp,
            attack,
            defense,
            speed,
            special,
            n - 1,
        )
    }
}

/// The plain table of the stats for every DV, or nothing where a list
/// holds fewer than sixteen stats.
pub open spec fn pairs_table(
    hp: Seq<i32>,
    attack: Seq<i32>,
    defense: Seq<i32>,
    speed: Seq<i32>,
    special: Seq<i32>,
) -> Option<Seq<char>> {
    if hp.len() < 16 || attack.len() < 16 || defense.len() < 16 || speed.len() < 16
        || special.len() < 16 {
        None
    } else {
        Some(
            "   DV   HP  ATT  DEF  SPD  SPC\n"@ + pairs_rows(
                hp,
                attack,
                defense,
                speed,
                special,
                16,
            ),
        )
    }
}

/// Returns the plain table of the stats for every DV as text, or `None`
/// where a list holds fewer than sixteen stats.
pub fn fmt_dv_pairs(
    hp: &Vec<i32>,
    attack: &Vec<i32>,
    defense: &Vec<i32>,
    speed: &Vec<i32>,
    special: &Vec<i32>,
) -> (text: Option<String>)
    ensures
        match text {
            Some(t) => pairs_table(hp@, attack@, defense@, speed@, special@) == Some(t@),
            None => pairs_table(hp@, attack@, defense@, speed@, special@) is None,
        },
{
    if hp.len() < 16 || attack.len() < 16 || defense.len() < 16 || speed.len() < 16
        || special.len() < 16 {
        return None;
    }
    let mut text = String::new();
    text.append("   DV   HP  ATT  DEF  SPD  SPC\n");
    let ghost head = text@;
    let mut i: usize = 0;
    assert(text@ =~= head + pairs_rows(hp@, attack@, defense@, speed@, special@, 0));
    while i < 16
        invariant
            i <= 16,
            hp@.len() >= 16,
            attack@.len() >= 16,
            defense@.len() >= 16,
            speed@.len() >= 16,
            special@.len() >= 16,
            text@ == head + pairs_rows(hp@, attack@, defense@, speed@, special@, i as nat),
        decreases 16 - i,
    {
        let ghost before = text@;
        let ghost done = pairs_rows(hp@, attack@, defense@, speed@, special@, i as nat);
        push_right(&mut text, to_digits(i as u64).as_str(), 5);
        push_right(&mut text, to_decimal(hp[i] as i64).as_str(), 5);
        push_right(&mut text, to_decimal(attack[i] as i64).as_str(), 5);
        push_right(&mut text, to_decimal(defense[i] as i64).as_str(), 5);
        push_right(&mut text, to_decimal(speed[i] as i64).as_str(), 5);
        push_right(&mut text, to_decimal(special[i] as i64).as_str(), 5);
        text.append("\n");
        assert(text@ =~= before + pairs_row(hp@, attack@, defense@, speed@, special@, i as int));
        assert(text@ =~= head + (done + pairs_row(
            hp@,
            attack@,
            defense@,
            speed@,
            special@,
            i as int,
        )));
        i = i + 1;
    }
    Some(text)
}

} // verus!
