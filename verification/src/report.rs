//! What a summary screen tells, as text: the species, the stats with the
//! DVs that fit them, and the stats for every DV.

use crate::fmt::{fmt_stat_header, fmt_stat_row, stat_header, stat_row, LearnsetError};
use crate::format::{decimal, digits_of, push_right, right_aligned, to_decimal, to_digits};
use crate::layout::{GscSummary1, GscSummary3, LayoutError, RbySummary1};
use crate::names::numbered;
use crate::ocr::CharTable;
use crate::pokemon::{GscPokedex, GscPokemon, RbyPokedex, RbyPokemon};
use crate::raster::GrayImage;
use crate::stats::{
    is_first_match, is_last_match, occurs, stats_fit, DvRange, StatVariation,
};
use vstd::prelude::*;
use vstd::string::StringExecFns;

verus! {

/// A stat of an individual as a screen shows it, with the base stat of
/// its species.
pub struct StatColumn {
    /// The short name of the stat.
    pub label: &'static str,
    /// The base stat of the species.
    pub base: i32,
    /// The stat of the individual.
    pub value: i32,
    /// Whether the stat is the vitality, which grows with its own offset.
    pub is_hp: bool,
}

/// Why a screen has no report.
#[derive(Debug, Copy, Clone, PartialEq, Eq, Structural)]
pub enum ReportError {
    /// The picture has not four bytes for each of its pixels, or is wider
    /// or higher than a picture can be.
    Dimensions,
    /// The picture shows no screen.
    NoScreen,
    /// The screen is none of the known summary screens.
    NotRecognized,
    /// A field of the screen was not read.
    Layout(LayoutError),
    /// The index holds no species with the number that the screen shows.
    NoSpecies { ndex: i32 },
    /// The stats of the column with this index do not fit 32 bits at some
    /// DV.
    Unfit { column: usize },
    /// No DV gives the stat of the column with this index: the stat
    /// contradicts the level and the species.
    NoRange { column: usize },
    /// The species with this index among the species of the chains of
    /// evolution has no learnset.
    NoLearnset { index: usize },
    /// The learnset of the species with this index among the species of
    /// the chains of evolution was not laid out.
    Learnset { index: usize, cause: LearnsetError },
}

/// The stats of a column for the sixteen DVs, without training.
pub open spec fn column_variation(level: int, column: StatColumn) -> Seq<int> {
    StatVariation::spec_init(level, column.base as int, 0, column.is_hp)
}

/// Why a column has no row in the report, if it has none.
pub open spec fn column_error(level: int, column: StatColumn, index: int) -> Option<ReportError> {
    if !stats_fit(level, column.base as int, 0, column.is_hp) {
        Some(ReportError::Unfit { column: index as usize })
    } else if !occurs(column_variation(level, column), column.value as int) {
        Some(ReportError::NoRange { column: index as usize })
    } else {
        None
    }
}

/// The first DV that gives the stat of a column.
pub open spec fn column_min(level: int, column: StatColumn) -> int {
    choose|dv: int| is_first_match(column_variation(level, column), column.value as int, dv)
}

/// The last DV that gives the stat of a column.
pub open spec fn column_max(level: int, column: StatColumn) -> int {
    choose|dv: int| is_last_match(column_variation(level, column), column.value as int, dv)
}

/// The row of a column in the table of stats.
pub open spec fn column_row(level: int, column: StatColumn) -> Seq<char> {
    stat_row(
        column.label@,
        column.base as int,
        column.value as int,
        column_min(level, column),
        column_max(level, column),
    )
}

/// The rows of the first `n` columns in the table of stats.
pub open spec fn column_rows(level: int, columns: Seq<StatColumn>, n: nat) -> Seq<char>
    decreases n,
{
    if n == 0 {
        Seq::empty()
    } else {
        column_rows(level, columns, (n - 1) as nat) + column_row(level, columns[n - 1])
    }
}

/// The first reason why one of the first `n` columns has no row, if any
/// has none.
pub open spec fn columns_error(level: int, columns: Seq<StatColumn>, n: nat) -> Option<ReportError>
    decreases n,
{
    if n == 0 {
        None
    } else {
        match columns_error(level, columns, (n - 1) as nat) {
            Some(e) => Some(e),
            None => column_error(level, columns[n - 1], n - 1),
        }
    }
}

/// The names of the first `n` columns as the header of the table of DVs.
pub open spec fn dv_labels(columns: Seq<StatColumn>, n: nat) -> Seq<char>
    decreases n,
{
    if n == 0 {
        Seq::empty()
    } else {
        dv_labels(columns, (n - 1) as nat) + "  "@ + right_aligned(columns[n - 1].label@, 3)
    }
}

/// The stat of a column for a DV, with a hyphen after it where it is the
/// stat of the individual.
pub open spec fn dv_cell(level: int, column: StatColumn, dv: int) -> Seq<char> {
    let stat = column_variation(level, column)[dv];
    " "@ + right_aligned(decimal(stat), 3) + if stat == column.value {
        "-"@
    } else {
        " "@
    }
}

/// The stats of the first `n` columns for a DV.
pub open spec fn dv_cells(level: int, columns: Seq<StatColumn>, dv: int, n: nat) -> Seq<char>
    decreases n,
{
    if n == 0 {
        Seq::empty()
    } else {
        dv_cells(level, columns, dv, (n - 1) as nat) + dv_cell(level, columns[n - 1], dv)
    }
}

/// The rows of the table of DVs for the first `n` DVs.
pub open spec fn dv_lines(level: int, columns: Seq<StatColumn>, n: nat) -> Seq<char>
    decreases n,
{
    if n == 0 {
        Seq::empty()
    } else {
        dv_lines(level, columns, (n - 1) as nat) + right_aligned(digits_of((n - 1) as nat), 3)
            + dv_cells(level, columns, n - 1, columns.len()) + "\n"@
    }
}

/// The line that names the individual.
pub open spec fn report_title(ndex: int, name: Seq<char>, level: int) -> Seq<char> {
    "#"@ + decimal(ndex) + " "@ + name + " :L"@ + decimal(level) + "\n\n"@
}

/// The report of the stats of an individual.
pub open spec fn stat_report_text(
    ndex: int,
    name: Seq<char>,
    level: int,
    columns: Seq<StatColumn>,
) -> Seq<char> {
    report_title(ndex, name, level) + stat_header() + column_rows(level, columns, columns.len())
        + "\nDV-Value Table\n"@ + right_aligned("DV"@, 3) + dv_labels(columns, columns.len())
        + "\n"@ + dv_lines(level, columns, 16)
}

/// The report of the stats of an individual, or the first reason why a
/// stat has no row in it.
pub open spec fn stat_report(ndex: int, name: Seq<char>, level: int, columns: Seq<StatColumn>) -> Result<
    Seq<char>,
    ReportError,
> {
    match columns_error(level, columns, columns.len()) {
        Some(e) => Err(e),
        None => Ok(stat_report_text(ndex, name, level, columns)),
    }
}

/// The outcome of a report with the characters in place of the string.
pub open spec fn report_view(res: Result<String, ReportError>) -> Result<Seq<char>, ReportError> {
    match res {
        Ok(text) => Ok(text@),
        Err(e) => Err(e),
    }
}

/// An error of an earlier column stays the error of the columns.
proof fn lemma_columns_error_stays(level: int, columns: Seq<StatColumn>, n: nat, m: nat)
    requires
        n <= m,
        columns_error(level, columns, n) is Some,
    ensures
        columns_error(level, columns, m) == columns_error(level, columns, n),
    decreases m,
{
    if n < m {
        lemma_columns_error_stays(level, columns, n, (m - 1) as nat);
    }
}

/// The first and the last place of a value in a list are what the places
/// found are.
proof fn lemma_range_is_chosen(level: int, column: StatColumn, min: int, max: int)
    requires
        is_first_match(column_variation(level, column), column.value as int, min),
        is_last_match(column_variation(level, column), column.value as int, max),
    ensures
        column_min(level, column) == min,
        column_max(level, column) == max,
{
    let v = column_variation(level, column);
    let a = column_min(level, column);
    let b = column_max(level, column);
    assert(is_first_match(v, column.value as int, a));
    assert(is_last_match(v, column.value as int, b));
    if a < min {
    } else if min < a {
    }
    if b < max {
    } else if max < b {
    }
}

/// Appends the stats of the columns for a DV.
fn push_dv_cells(out: &mut String, variations: &Vec<StatVariation>, columns: &Vec<StatColumn>, level: i32, dv: usize)
    requires
        dv < 16,
        variations@.len() == columns@.len(),
        forall|k: int|
            0 <= k < columns@.len() ==> (#[trigger] variations@[k])@ == column_variation(
                level as int,
                columns@[k],
            ),
    ensures
        final(out)@ == old(out)@ + dv_cells(level as int, columns@, dv as int, columns@.len()),
{
    let ghost start = out@;
    let mut k: usize = 0;
    assert(out@ =~= start + dv_cells(level as int, columns@, dv as int, 0));
    while k < columns.len()
        invariant
            k <= columns.len(),
            dv < 16,
            variations@.len() == columns@.len(),
            forall|k: int|
                0 <= k < columns@.len() ==> (#[trigger] variations@[k])@ == column_variation(
                    level as int,
                    columns@[k],
                ),
            out@ == start + dv_cells(level as int, columns@, dv as int, k as nat),
        decreases columns.len() - k,
    {
        let ghost done = dv_cells(level as int, columns@, dv as int, k as nat);
        let ghost before = out@;
        let stat = variations[k].get(dv);
        assert(stat == column_variation(level as int, columns@[k as int])[dv as int]);
        out.append(" ");
        push_right(out, to_decimal(stat as i64).as_str(), 3);
        if stat == columns[k].value {
            out.append("-");
        } else {
            out.append(" ");
        }
        assert(out@ =~= before + dv_cell(level as int, columns@[k as int], dv as int));
        assert(out@ =~= start + (done + dv_cell(level as int, columns@[k as int], dv as int)));
        k = k + 1;
    }
}

/// Appends the names of the columns as the header of the table of DVs.
fn push_dv_labels(out: &mut String, columns: &Vec<StatColumn>)
    ensures
        final(out)@ == old(out)@ + dv_labels(columns@, columns@.len()),
{
    let ghost start = out@;
    let mut k: usize = 0;
    assert(out@ =~= start + dv_labels(columns@, 0));
    while k < columns.len()
        invariant
            k <= columns.len(),
            out@ == start + dv_labels(columns@, k as nat),
        decreases columns.len() - k,
    {
        let ghost done = dv_labels(columns@, k as nat);
        out.append("  ");
        push_right(out, columns[k].label, 3);
        assert(out@ =~= start + (done + "  "@ + right_aligned(columns@[k as int].label@, 3)));
        k = k + 1;
    }
}

/// Returns the report of the stats of an individual: its species and
/// level, each stat with the DVs that fit it, and the stats for every DV,
/// where a hyphen marks the stats of the individual.
///
/// A stat that no DV gives is an error, never a nearest guess.
pub fn fmt_stat_report(ndex: i32, name: &str, level: i32, columns: &Vec<StatColumn>) -> (res:
    Result<String, ReportError>)
    ensures
        report_view(res) == stat_report(ndex as int, name@, level as int, columns@),
{
    let mut t = String::new();
    t.append("#");
    t.append(to_decimal(ndex as i64).as_str());
    t.append(" ");
    t.append(name);
    t.append(" :L");
    t.append(to_decimal(level as i64).as_str());
    t.append("\n\n");
    assert(t@ =~= report_title(ndex as int, name@, level as int));
    t.append(fmt_stat_header().as_str());
    let ghost head = t@;
    let mut variations: Vec<StatVariation> = Vec::new();
    let mut k: usize = 0;
    assert(t@ =~= head + column_rows(level as int, columns@, 0));
    while k < columns.len()
        invariant
            k <= columns.len(),
            variations@.len() == k,
            forall|j: int|
                0 <= j < k ==> (#[trigger] variations@[j])@ == column_variation(
                    level as int,
                    columns@[j],
                ),
            columns_error(level as int, columns@, k as nat) is None,
            t@ == head + column_rows(level as int, columns@, k as nat),
        decreases columns.len() - k,
    {
        let ghost done = column_rows(level as int, columns@, k as nat);
        let column = &columns[k];
        let variation = match StatVariation::try_init(&level, &column.base, &0, &column.is_hp) {
            Some(v) => v,
            None => {
                proof {
                    assert(column_error(level as int, *column, k as int) == Some(
                        ReportError::Unfit { column: k },
                    ));
                    lemma_columns_error_stays(
                        level as int,
                        columns@,
                        (k + 1) as nat,
                        columns@.len(),
                    );
                }
                return Err(ReportError::Unfit { column: k });
            },
        };
        assert(variation@ == column_variation(level as int, *column));
        let range = match DvRange::init(&column.value, &variation) {
            Some(r) => r,
            None => {
                proof {
                    assert(column_error(level as int, *column, k as int) == Some(
                        ReportError::NoRange { column: k },
                    ));
                    lemma_columns_error_stays(
                        level as int,
                        columns@,
                        (k + 1) as nat,
                        columns@.len(),
                    );
                }
                return Err(ReportError::NoRange { column: k });
            },
        };
        proof {
            lemma_range_is_chosen(level as int, *column, range.min as int, range.max as int);
            assert(occurs(column_variation(level as int, *column), column.value as int));
            assert(column_error(level as int, *column, k as int) is None);
        }
        t.append(fmt_stat_row(column.label, &column.base, &column.value, &range).as_str());
        assert(t@ =~= head + (done + column_row(level as int, columns@[k as int])));
        variations.push(variation);
        k = k + 1;
    }
    t.append("\nDV-Value Table\n");
    push_right(&mut t, "DV", 3);
    push_dv_labels(&mut t, columns);
    t.append("\n");
    let ghost top = t@;
    let mut dv: usize = 0;
    assert(t@ =~= top + dv_lines(level as int, columns@, 0));
    while dv < 16
        invariant
            dv <= 16,
            variations@.len() == columns@.len(),
            forall|j: int|
                0 <= j < columns@.len() ==> (#[trigger] variations@[j])@ == column_variation(
                    level as int,
                    columns@[j],
                ),
            t@ == top + dv_lines(level as int, columns@, dv as nat),
        decreases 16 - dv,
    {
        let ghost done = dv_lines(level as int, columns@, dv as nat);
        push_right(&mut t, to_digits(dv as u64).as_str(), 3);
        push_dv_cells(&mut t, &variations, columns, level, dv);
        t.append("\n");
        assert(t@ =~= top + (done + right_aligned(digits_of(dv as nat), 3) + dv_cells(
            level as int,
            columns@,
            dv as int,
            columns@.len(),
        ) + "\n"@));
        dv = dv + 1;
    }
    assert(t@ =~= stat_report_text(ndex as int, name@, level as int, columns@));
    Ok(t)
}

/// The species with the number `ndex` in an index that is numbered from 1.
pub open spec fn species<T>(index: Seq<T>, ndex: int) -> Result<T, ReportError> {
    match numbered(index, ndex) {
        Some(p) => Ok(p),
        None => Err(ReportError::NoSpecies { ndex: ndex as i32 }),
    }
}

/// The columns of the first summary screen of the first generation.
pub open spec fn rby_columns(
    species: RbyPokemon,
    hp: i32,
    attack: i32,
    defense: i32,
    speed: i32,
    special: i32,
) -> Seq<StatColumn> {
    seq![
        StatColumn { label: "HP", base: species.hp, value: hp, is_hp: true },
        StatColumn { label: "ATT", base: species.attack, value: attack, is_hp: false },
        StatColumn { label: "DEF", base: species.defense, value: defense, is_hp: false },
        StatColumn { label: "SPD", base: species.speed, value: speed, is_hp: false },
        StatColumn { label: "SPC", base: species.special, value: special, is_hp: false },
    ]
}

/// The columns of the third summary screen of the second generation.
pub open spec fn gsc_columns(
    species: GscPokemon,
    attack: i32,
    defense: i32,
    spc_attack: i32,
    spc_defense: i32,
    speed: i32,
) -> Seq<StatColumn> {
    seq![
        StatColumn { label: "ATT", base: species.attack, value: attack, is_hp: false },
        StatColumn { label: "DEF", base: species.defense, value: defense, is_hp: false },
        StatColumn { label: "SPA", base: species.special_attack, value: spc_attack, is_hp: false },
        StatColumn { label: "SPD", base: species.special_defense, value: spc_defense, is_hp: false },
        StatColumn { label: "SPE", base: species.speed, value: speed, is_hp: false },
    ]
}

/// What the first summary screen of the first generation tells.
pub open spec fn rby_summary_1_report(
    layout: RbySummary1,
    width: int,
    height: int,
    pixels: Seq<u8>,
    chars: Map<u64, Seq<char>>,
    index: Seq<RbyPokemon>,
) -> Result<Seq<char>, ReportError> {
    match layout.content(width, height, pixels, chars) {
        Err(e) => Err(ReportError::Layout(e)),
        Ok(c) => match species(index, c.ndex as int) {
            Err(e) => Err(e),
            Ok(p) => stat_report(
                p.ndex as int,
                p.name@,
                c.level as int,
                rby_columns(p, c.hp, c.attack, c.defense, c.speed, c.special),
            ),
        },
    }
}

/// What the first summary screen of the second generation tells.
pub open spec fn gsc_summary_1_report(
    layout: GscSummary1,
    width: int,
    height: int,
    pixels: Seq<u8>,
    chars: Map<u64, Seq<char>>,
    index: Seq<GscPokemon>,
) -> Result<Seq<char>, ReportError> {
    match layout.content(width, height, pixels, chars) {
        Err(e) => Err(ReportError::Layout(e)),
        Ok(c) => match species(index, c.ndex as int) {
            Err(e) => Err(e),
            Ok(p) => stat_report(
                p.ndex as int,
                p.name@,
                c.level as int,
                seq![StatColumn { label: "HP", base: p.hp, value: c.hp, is_hp: true }],
            ),
        },
    }
}

/// What the third summary screen of the second generation tells.
pub open spec fn gsc_summary_3_report(
    layout: GscSummary3,
    width: int,
    height: int,
    pixels: Seq<u8>,
    chars: Map<u64, Seq<char>>,
    index: Seq<GscPokemon>,
) -> Result<Seq<char>, ReportError> {
    match layout.content(width, height, pixels, chars) {
        Err(e) => Err(ReportError::Layout(e)),
        Ok(c) => match species(index, c.ndex as int) {
            Err(e) => Err(e),
            Ok(p) => stat_report(
                p.ndex as int,
                p.name@,
                c.level as int,
                gsc_columns(p, c.attack, c.defense, c.spc_attack, c.spc_defense, c.speed),
            ),
        },
    }
}

/// Returns the species with the number that a screen shows.
fn rby_species(rby_pokedex: &RbyPokedex, ndex: i32) -> (res: Result<&RbyPokemon, ReportError>)
    ensures
        match res {
            Ok(p) => species(rby_pokedex@, ndex as int) == Ok::<RbyPokemon, ReportError>(*p),
            Err(e) => species(rby_pokedex@, ndex as int) == Err::<RbyPokemon, ReportError>(e),
        },
{
    if ndex < 1 {
        return Err(ReportError::NoSpecies { ndex });
    }
    match rby_pokedex.get_ndex(ndex as usize) {
        Some(p) => Ok(p),
        None => Err(ReportError::NoSpecies { ndex }),
    }
}

/// Returns the species with the number that a screen shows.
fn gsc_species(gsc_pokedex: &GscPokedex, ndex: i32) -> (res: Result<&GscPokemon, ReportError>)
    ensures
        match res {
            Ok(p) => species(gsc_pokedex@, ndex as int) == Ok::<GscPokemon, ReportError>(*p),
            Err(e) => species(gsc_pokedex@, ndex as int) == Err::<GscPokemon, ReportError>(e),
        },
{
    if ndex < 1 {
        return Err(ReportError::NoSpecies { ndex });
    }
    match gsc_pokedex.get_ndex(ndex as usize) {
        Some(p) => Ok(p),
        None => Err(ReportError::NoSpecies { ndex }),
    }
}

/// Reads the first summary screen of the first generation and returns what
/// it tells: the species, the stats with the DVs that fit them, and the
/// stats for every DV.
pub fn scan_rby_summary_1(
    img_gameboy: &GrayImage,
    rby_summary_1: &RbySummary1,
    chars: &CharTable,
    rby_pokedex: &RbyPokedex,
) -> (res: Result<String, ReportError>)
    ensures
        report_view(res) == rby_summary_1_report(
            *rby_summary_1,
            img_gameboy.spec_width(),
            img_gameboy.spec_height(),
            img_gameboy@,
            chars@,
            rby_pokedex@,
        ),
{
    let content = match rby_summary_1.read_fields(img_gameboy, chars) {
        Ok(c) => c,
        Err(e) => {
            return Err(ReportError::Layout(e));
        },
    };
    let pokemon = rby_species(rby_pokedex, content.ndex)?;
    let mut columns: Vec<StatColumn> = Vec::new();
    columns.push(StatColumn { label: "HP", base: pokemon.hp, value: content.hp, is_hp: true });
    columns.push(
        StatColumn { label: "ATT", base: pokemon.attack, value: content.attack, is_hp: false },
    );
    columns.push(
        StatColumn { label: "DEF", base: pokemon.defense, value: content.defense, is_hp: false },
    );
    columns.push(
        StatColumn { label: "SPD", base: pokemon.speed, value: content.speed, is_hp: false },
    );
    columns.push(
        StatColumn { label: "SPC", base: pokemon.special, value: content.special, is_hp: false },
    );
    assert(columns@ =~= rby_columns(
        *pokemon,
        content.hp,
        content.attack,
        content.defense,
        content.speed,
        content.special,
    ));
    fmt_stat_report(pokemon.ndex, pokemon.name.as_str(), content.level, &columns)
}

/// Reads the first summary screen of the second generation and returns
/// what it tells: the species, the vitality with the DVs that fit it, and
/// the vitality for every DV.
pub fn scan_gsc_summary_1(
    img_gameboy: &GrayImage,
    gsc_summary_1: &GscSummary1,
    chars: &CharTable,
    gsc_pokedex: &GscPokedex,
) -> (res: Result<String, ReportError>)
    ensures
        report_view(res) == gsc_summary_1_report(
            *gsc_summary_1,
            img_gameboy.spec_width(),
            img_gameboy.spec_height(),
            img_gameboy@,
            chars@,
            gsc_pokedex@,
        ),
{
    let content = match gsc_summary_1.read_fields(img_gameboy, chars) {
        Ok(c) => c,
        Err(e) => {
            return Err(ReportError::Layout(e));
        },
    };
    let pokemon = gsc_species(gsc_pokedex, content.ndex)?;
    let mut columns: Vec<StatColumn> = Vec::new();
    columns.push(StatColumn { label: "HP", base: pokemon.hp, value: content.hp, is_hp: true });
    assert(columns@ =~= seq![
        StatColumn { label: "HP", base: pokemon.hp, value: content.hp, is_hp: true },
    ]);
    fmt_stat_report(pokemon.ndex, pokemon.name.as_str(), content.level, &columns)
}

/// Reads the third summary screen of the second generation and returns
/// what it tells: the species, the stats with the DVs that fit them, and
/// the stats for every DV.
pub fn scan_gsc_summary_3(
    img_gameboy: &GrayImage,
    gsc_summary_3: &GscSummary3,
    chars: &CharTable,
    gsc_pokedex: &GscPokedex,
) -> (res: Result<String, ReportError>)
    ensures
        report_view(res) == gsc_summary_3_report(
            *gsc_summary_3,
            img_gameboy.spec_width(),
            img_gameboy.spec_height(),
            img_gameboy@,
            chars@,
            gsc_pokedex@,
        ),
{
    let content = match gsc_summary_3.read_fields(img_gameboy, chars) {
        Ok(c) => c,
        Err(e) => {
            return Err(ReportError::Layout(e));
        },
    };
    let pokemon = gsc_species(gsc_pokedex, content.ndex)?;
    let mut columns: Vec<StatColumn> = Vec::new();
    columns.push(
        StatColumn { label: "ATT", base: pokemon.attack, value: content.attack, is_hp: false },
    );
    columns.push(
        StatColumn { label: "DEF", base: pokemon.defense, value: content.defense, is_hp: false },
    );
    columns.push(
        StatColumn {
            label: "SPA",
            base: pokemon.special_attack,
            value: content.spc_attack,
            is_hp: false,
        },
    );
    columns.push(
        StatColumn {
            label: "SPD",
            base: pokemon.special_defense,
            value: content.spc_defense,
            is_hp: false,
        },
    );
    columns.push(
        StatColumn { label: "SPE", base: pokemon.speed, value: content.speed, is_hp: false },
    );
    assert(columns@ =~= gsc_columns(
        *pokemon,
        content.attack,
        content.defense,
        content.spc_attack,
        content.spc_defense,
        content.speed,
    ));
    fmt_stat_report(pokemon.ndex, pokemon.name.as_str(), content.level, &columns)
}

} // verus!
