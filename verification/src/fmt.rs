//! Tables of stats, moves and learnsets as text.

use crate::format::{
    centered, decimal, left_aligned, push_centered, push_left, push_right, right_aligned,
    to_decimal,
};
use crate::learnset::Learnset;
use crate::moves::{GscMoves, Move, Moves};
use crate::stats::DvRange;
use vstd::prelude::*;
use vstd::string::StringExecFns;

verus! {

/// The header of the table of stats.
pub open spec fn stat_header() -> Seq<char> {
    right_aligned("Stat"@, 4) + "  "@ + right_aligned("Base"@, 4) + "  "@ + right_aligned(
        "Value"@,
        5,
    ) + "  "@ + "DV Range"@ + "\n"@
}

/// A row of the table of stats.
pub open spec fn stat_row(stat: Seq<char>, base: int, value: int, min: int, max: int) -> Seq<char> {
    right_aligned(stat, 4) + "  "@ + right_aligned(decimal(base), 4) + "  "@ + right_aligned(
        decimal(value),
        5,
    ) + "  "@ + right_aligned(decimal(min), 3) + " - "@ + right_aligned(decimal(max), 2) + "\n"@
}

/// The header of the table of moves.
pub open spec fn move_header() -> Seq<char> {
    left_aligned("Move"@, 15) + "  "@ + left_aligned("Type"@, 8) + "  "@ + left_aligned("Cat"@, 12)
        + "  "@ + right_aligned("Pow"@, 3) + "  "@ + right_aligned("Acc"@, 4) + "  "@
        + right_aligned("PP"@, 2) + "  "@ + "Desc"@
}

/// A row of the table of moves. After the accuracy stands `unit`.
pub open spec fn move_row(
    name: Seq<char>,
    type_: Seq<char>,
    category: Seq<char>,
    power: Seq<char>,
    accuracy: Seq<char>,
    unit: Seq<char>,
    pp: Seq<char>,
    description: Seq<char>,
) -> Seq<char> {
    left_aligned(name, 15) + "  "@ + left_aligned(type_, 8) + "  "@ + left_aligned(category, 12)
        + "  "@ + right_aligned(power, 3) + "  "@ + right_aligned(accuracy, 3) + unit + "  "@
        + right_aligned(pp, 2) + "  "@ + description
}

/// The row of the table of moves for a move, or for a move that is not
/// known.
pub open spec fn move_text(m: Option<Move>) -> Seq<char> {
    match m {
        Some(m) => move_row(
            m.name@,
            m.type_@,
            m.category@,
            m.power@,
            m.accuracy@,
            "%"@,
            m.pp@,
            m.description@,
        ),
        None => move_row("-"@, "-"@, "-"@, "-"@, "-"@, " "@, "-"@, "MOVE DATA NOT FOUND"@),
    }
}

/// Returns the header of the table of stats.
pub fn fmt_stat_header() -> (h: String)
    ensures
        h@ == stat_header(),
{
    let mut h = String::new();
    push_right(&mut h, "Stat", 4);
    h.append("  ");
    push_right(&mut h, "Base", 4);
    h.append("  ");
    push_right(&mut h, "Value", 5);
    h.append("  ");
    h.append("DV Range");
    h.append("\n");
    assert(h@ =~= stat_header());
    h
}

/// Returns a row of the table of stats.
pub fn fmt_stat_row(stat: &str, base_stat: &i32, stat_value: &i32, dv_range: &DvRange) -> (h: String)
    ensures
        h@ == stat_row(
            stat@,
            *base_stat as int,
            *stat_value as int,
            dv_range.min as int,
            dv_range.max as int,
        ),
{
    let mut h = String::new();
    push_right(&mut h, stat, 4);
    h.append("  ");
    push_right(&mut h, to_decimal(*base_stat as i64).as_str(), 4);
    h.append("  ");
    push_right(&mut h, to_decimal(*stat_value as i64).as_str(), 5);
    h.append("  ");
    push_right(&mut h, to_decimal(dv_range.min as i64).as_str(), 3);
    h.append(" - ");
    push_right(&mut h, to_decimal(dv_range.max as i64).as_str(), 2);
    h.append("\n");
    assert(h@ =~= stat_row(
        stat@,
        *base_stat as int,
        *stat_value as int,
        dv_range.min as int,
        dv_range.max as int,
    ));
    h
}

/// Returns the header of the table of moves.
pub fn fmt_move_header() -> (h: String)
    ensures
        h@ == move_header(),
{
    let mut h = String::new();
    push_left(&mut h, "Move", 15);
    h.append("  ");
    push_left(&mut h, "Type", 8);
    h.append("  ");
    push_left(&mut h, "Cat", 12);
    h.append("  ");
    push_right(&mut h, "Pow", 3);
    h.append("  ");
    push_right(&mut h, "Acc", 4);
    h.append("  ");
    push_right(&mut h, "PP", 2);
    h.append("  ");
    h.append("Desc");
    assert(h@ =~= move_header());
    h
}

/// Appends a row of the table of moves.
fn push_move_row(
    out: &mut String,
    name: &str,
    type_: &str,
    category: &str,
    power: &str,
    accuracy: &str,
    unit: &str,
    pp: &str,
    description: &str,
)
    ensures
        final(out)@ == old(out)@ + move_row(
            name@,
            type_@,
            category@,
            power@,
            accuracy@,
            unit@,
            pp@,
            description@,
        ),
{
    let ghost start = out@;
    push_left(out, name, 15);
    out.append("  ");
    push_left(out, type_, 8);
    out.append("  ");
    push_left(out, category, 12);
    out.append("  ");
    push_right(out, power, 3);
    out.append("  ");
    push_right(out, accuracy, 3);
    out.append(unit);
    out.append("  ");
    push_right(out, pp, 2);
    out.append("  ");
    out.append(description);
    assert(out@ =~= start + move_row(
        name@,
        type_@,
        category@,
        power@,
        accuracy@,
        unit@,
        pp@,
        description@,
    ));
}

/// Appends the row of the table of moves for a move, or for a move that
/// is not known.
fn push_move(out: &mut String, move_: Option<&Move>)
    ensures
        final(out)@ == old(out)@ + move_text(
            match move_ {
                Some(m) => Some(*m),
                None => None,
            },
        ),
{
    match move_ {
        Some(m) => push_move_row(
            out,
            m.name.as_str(),
            m.type_.as_str(),
            m.category.as_str(),
            m.power.as_str(),
            m.accuracy.as_str(),
            "%",
            m.pp.as_str(),
            m.description.as_str(),
        ),
        None => push_move_row(out, "-", "-", "-", "-", "-", " ", "-", "MOVE DATA NOT FOUND"),
    }
}

/// Returns the row of the table of moves for a move, or for a move that is
/// not known.
pub fn fmt_move(move_: Option<&Move>) -> (row: String)
    ensures
        row@ == move_text(
            match move_ {
                Some(m) => Some(*m),
                None => None,
            },
        ),
{
    let mut row = String::new();
    push_move(&mut row, move_);
    assert(row@ =~= move_text(
        match move_ {
            Some(m) => Some(*m),
            None => None,
        },
    ));
    row
}

/// Why a learnset was not laid out.
#[derive(Debug, Copy, Clone, PartialEq, Eq, Structural)]
pub enum LearnsetError {
    /// The table has no rows, not even a header.
    NoRows,
    /// A row has not as many columns as the header.
    ColumnMismatch,
    /// The table has neither two nor three columns.
    ColumnCount { got: usize },
}

/// The line that names the species of a learnset.
pub open spec fn learnset_title(learnset: Learnset) -> Seq<char> {
    "No."@ + learnset.ndex@ + " "@ + learnset.pokemon@ + " learnset\n"@
}

/// The header of the table of a learnset that is the same in every
/// version: the level and the move.
pub open spec fn shared_header() -> Seq<char> {
    left_aligned("Lvl"@, 3) + "  "@ + move_header() + "\n"@
}

/// The header of the table of a learnset that differs between the
/// versions: the level in either, and the move.
pub open spec fn diverging_header() -> Seq<char> {
    left_aligned("RB"@, 3) + "  "@ + left_aligned("Y"@, 3) + "  "@ + move_header() + "\n"@
}

/// A row of the table of a learnset. The move stands in the last column,
/// the levels before it.
pub open spec fn learnset_row(row: Vec<String>, moves: Moves, diverging: bool) -> Seq<char> {
    if diverging {
        left_aligned(row@[0]@, 3) + "  "@ + left_aligned(row@[1]@, 3) + "  "@ + move_text(
            moves.spec_get(row@[2]@),
        ) + "\n"@
    } else {
        left_aligned(row@[0]@, 3) + "  "@ + move_text(moves.spec_get(row@[1]@)) + "\n"@
    }
}

/// The rows of the table of a learnset up to row `n`, without the first,
/// which is the header.
pub open spec fn learnset_rows(rows: Seq<Vec<String>>, moves: Moves, diverging: bool, n: nat) -> Seq<
    char,
>
    decreases n,
{
    if n <= 1 {
        Seq::empty()
    } else {
        learnset_rows(rows, moves, diverging, (n - 1) as nat) + learnset_row(
            rows[n - 1],
            moves,
            diverging,
        )
    }
}

/// The table of a learnset.
pub open spec fn learnset_table(learnset: Learnset, moves: Moves, diverging: bool) -> Seq<char> {
    learnset_title(learnset) + if diverging {
        diverging_header()
    } else {
        shared_header()
    } + learnset_rows(
        learnset.by_leveling_up@,
        moves,
        diverging,
        learnset.by_leveling_up@.len(),
    )
}

/// Whether every row has `columns` columns.
pub open spec fn has_columns(rows: Seq<Vec<String>>, columns: int) -> bool {
    forall|i: int| 0 <= i < rows.len() ==> (#[trigger] rows[i])@.len() == columns
}

/// The text of a learnset: its table, or why there is none.
pub open spec fn learnset_text(learnset: Learnset, moves: Moves) -> Result<Seq<char>, LearnsetError> {
    let rows = learnset.by_leveling_up@;
    if rows.len() == 0 {
        Err(LearnsetError::NoRows)
    } else if !has_columns(rows, rows[0]@.len() as int) {
        Err(LearnsetError::ColumnMismatch)
    } else if rows[0]@.len() == 2 {
        Ok(learnset_table(learnset, moves, false))
    } else if rows[0]@.len() == 3 {
        Ok(learnset_table(learnset, moves, true))
    } else {
        Err(LearnsetError::ColumnCount { got: rows[0]@.len() as usize })
    }
}

/// The outcome of a layout with the characters in place of the string.
pub open spec fn table_view(res: Result<String, LearnsetError>) -> Result<Seq<char>, LearnsetError> {
    match res {
        Ok(text) => Ok(text@),
        Err(e) => Err(e),
    }
}

/// Appends a row of the table of a learnset.
fn push_learnset_row(out: &mut String, row: &Vec<String>, moves: &Moves, diverging: bool)
    requires
        row@.len() == if diverging {
            3int
        } else {
            2int
        },
    ensures
        final(out)@ == old(out)@ + learnset_row(*row, *moves, diverging),
{
    let ghost start = out@;
    push_left(out, row[0].as_str(), 3);
    out.append("  ");
    if diverging {
        push_left(out, row[1].as_str(), 3);
        out.append("  ");
        push_move(out, moves.get(row[2].as_str()));
    } else {
        push_move(out, moves.get(row[1].as_str()));
    }
    out.append("\n");
    assert(out@ =~= start + learnset_row(*row, *moves, diverging));
}

/// Appends the header of the table of a learnset.
fn push_learnset_header(out: &mut String, diverging: bool)
    ensures
        final(out)@ == old(out)@ + if diverging {
            diverging_header()
        } else {
            shared_header()
        },
{
    let ghost start = out@;
    if diverging {
        push_left(out, "RB", 3);
        out.append("  ");
        push_left(out, "Y", 3);
    } else {
        push_left(out, "Lvl", 3);
    }
    out.append("  ");
    out.append(fmt_move_header().as_str());
    out.append("\n");
    assert(out@ =~= start + if diverging {
        diverging_header()
    } else {
        shared_header()
    });
}

/// Returns the table of a learnset by levelling up, with one or two
/// columns of levels.
fn fmt_learnset_table(learnset: &Learnset, moves: &Moves, diverging: bool) -> (t: String)
    requires
        learnset.by_leveling_up@.len() >= 1,
        has_columns(
            learnset.by_leveling_up@,
            if diverging {
                3
            } else {
                2
            },
        ),
    ensures
        t@ == learnset_table(*learnset, *moves, diverging),
{
    let mut t = String::new();

    // Pokemon
    t.append("No.");
    t.append(learnset.ndex.as_str());
    t.append(" ");
    t.append(learnset.pokemon.as_str());
    t.append(" learnset\n");
    assert(t@ =~= learnset_title(*learnset));

    // Header
    push_learnset_header(&mut t, diverging);
    let ghost head = t@;

    // Moves
    let rows = &learnset.by_leveling_up;
    let mut i: usize = 1;
    assert(t@ =~= head + learnset_rows(rows@, *moves, diverging, 1));
    while i < rows.len()
        invariant
            1 <= i <= rows.len(),
            rows == &learnset.by_leveling_up,
            has_columns(
                rows@,
                if diverging {
                    3
                } else {
                    2
                },
            ),
            t@ == head + learnset_rows(rows@, *moves, diverging, i as nat),
        decreases rows.len() - i,
    {
        let ghost before = learnset_rows(rows@, *moves, diverging, i as nat);
        push_learnset_row(&mut t, &rows[i], moves, diverging);
        assert(t@ =~= head + (before + learnset_row(rows@[i as int], *moves, diverging)));
        i = i + 1;
    }
    assert(t@ =~= learnset_table(*learnset, *moves, diverging));
    t
}

/// Returns the text with the learnset by levelling up.
///
/// The first row of the table is its header. A table with two columns
/// holds the level and the move; one with three columns holds the level in
/// either version, and the move.
pub fn fmt_learnset(learnset: &Learnset, moves: &Moves) -> (res: Result<String, LearnsetError>)
    ensures
        table_view(res) == learnset_text(*learnset, *moves),
{
    let level_up_table = &learnset.by_leveling_up;
    if level_up_table.len() == 0 {
        return Err(LearnsetError::NoRows);
    }
    let col_count = level_up_table[0].len();
    let mut i: usize = 0;
    while i < level_up_table.len()
        invariant
            i <= level_up_table.len(),
            level_up_table == &learnset.by_leveling_up,
            level_up_table@.len() > 0,
            col_count == level_up_table@[0]@.len(),
            forall|j: int| 0 <= j < i ==> (#[trigger] level_up_table@[j])@.len() == col_count,
        decreases level_up_table.len() - i,
    {
        if level_up_table[i].len() != col_count {
            return Err(LearnsetError::ColumnMismatch);
        }
        i = i + 1;
    }
    if col_count == 2 {
        Ok(fmt_learnset_table(learnset, moves, false))
    } else if col_count == 3 {
        Ok(fmt_learnset_table(learnset, moves, true))
    } else {
        Err(LearnsetError::ColumnCount { got: col_count })
    }
}

/// Returns the text with the learnset by levelling up of a species of the
/// second generation.
pub fn fmt_gsc_learnset(learnset: &Learnset, moves: &GscMoves) -> (res: Result<
    String,
    LearnsetError,
>)
    ensures
        table_view(res) == learnset_text(*learnset, *moves),
{
    fmt_learnset(learnset, moves)
}

/// The description of a move in the wide table of a learnset.
pub open spec fn description_of(m: Option<Move>) -> Seq<char> {
    match m {
        Some(m) => m.description@,
        None => "NO DESCRIPTION"@,
    }
}

/// The widths of the columns of the wide table with one column of levels.
pub const WIDE_WIDTHS: [usize; 6] = [5, 15, 7, 5, 8, 3];

/// The widths of the columns of the wide table with two columns of levels.
pub const DIVERGING_WIDTHS: [usize; 7] = [3, 3, 15, 7, 5, 8, 3];

/// The number of columns of the wide table.
pub open spec fn wide_columns(diverging: bool) -> int {
    if diverging {
        7
    } else {
        6
    }
}

/// The width of column `i` of the wide table.
pub open spec fn wide_width(diverging: bool, i: int) -> int {
    if diverging {
        DIVERGING_WIDTHS[i] as int
    } else {
        WIDE_WIDTHS[i] as int
    }
}

/// Cell `i` of a row of the wide table and the space after it. The cells
/// of the header are centred, and so is the type of a move, which stands
/// in the fourth column from the end; the other cells begin at the left.
pub open spec fn wide_cell(row: Vec<String>, diverging: bool, header: bool, i: int) -> Seq<char> {
    if header || i == wide_columns(diverging) - 4 {
        centered(row@[i]@, wide_width(diverging, i)) + " "@
    } else {
        left_aligned(row@[i]@, wide_width(diverging, i)) + " "@
    }
}

/// The first `n` cells of a row of the wide table.
pub open spec fn wide_cells(row: Vec<String>, diverging: bool, header: bool, n: nat) -> Seq<char>
    decreases n,
{
    if n == 0 {
        Seq::empty()
    } else {
        wide_cells(row, diverging, header, (n - 1) as nat) + wide_cell(
            row,
            diverging,
            header,
            n - 1,
        )
    }
}

/// The header of the wide table of a learnset: its first row, every cell
/// centred, and the column of the descriptions.
pub open spec fn wide_header(row: Vec<String>, diverging: bool) -> Seq<char> {
    wide_cells(row, diverging, true, wide_columns(diverging) as nat) + "Description\n"@
}

/// A row of the wide table of a learnset, with the description of the move
/// in its second column.
pub open spec fn wide_row(row: Vec<String>, moves: Moves, diverging: bool) -> Seq<char> {
    wide_cells(row, diverging, false, wide_columns(diverging) as nat) + description_of(
        moves.spec_get(row@[1]@),
    ) + "\n"@
}

/// The rows of the wide table of a learnset up to row `n`, without the
/// first, which is the header.
pub open spec fn wide_rows(rows: Seq<Vec<String>>, moves: Moves, diverging: bool, n: nat) -> Seq<char>
    decreases n,
{
    if n <= 1 {
        Seq::empty()
    } else {
        wide_rows(rows, moves, diverging, (n - 1) as nat) + wide_row(rows[n - 1], moves, diverging)
    }
}

/// The wide text of a learnset: its table with all its columns and the
/// descriptions of the moves, or why there is none. A table whose first
/// row has six cells has one column of levels and six cells in every row;
/// any other has two columns of levels and seven cells in every row.
pub open spec fn wide_text(learnset: Learnset, moves: Moves) -> Result<Seq<char>, LearnsetError> {
    let rows = learnset.by_leveling_up@;
    if rows.len() == 0 {
        Err(LearnsetError::NoRows)
    } else {
        let diverging = rows[0]@.len() != 6;
        if !has_columns(
            rows,
            if diverging {
                7
            } else {
                6
            },
        ) {
            Err(LearnsetError::ColumnMismatch)
        } else {
            Ok(wide_header(rows[0], diverging) + wide_rows(rows, moves, diverging, rows.len()))
        }
    }
}

/// Appends a cell of a row of the wide table and the space after it.
fn push_wide_cell(out: &mut String, row: &Vec<String>, diverging: bool, header: bool, i: usize)
    requires
        row@.len() == wide_columns(diverging),
        i < wide_columns(diverging),
    ensures
        final(out)@ == old(out)@ + wide_cell(*row, diverging, header, i as int),
{
    let ghost start = out@;
    let columns: usize = if diverging {
        7
    } else {
        6
    };
    let width = if diverging {
        DIVERGING_WIDTHS[i]
    } else {
        WIDE_WIDTHS[i]
    };
    assert(width == wide_width(diverging, i as int));
    if header || i + 4 == columns {
        push_centered(out, row[i].as_str(), width);
        out.append(" ");
        assert(out@ =~= start + (centered(row@[i as int]@, width as int) + " "@));
    } else {
        push_left(out, row[i].as_str(), width);
        out.append(" ");
        assert(out@ =~= start + (left_aligned(row@[i as int]@, width as int) + " "@));
    }
}

/// Appends the cells of a row of the wide table.
fn push_wide_cells(out: &mut String, row: &Vec<String>, diverging: bool, header: bool)
    requires
        row@.len() == wide_columns(diverging),
    ensures
        final(out)@ == old(out)@ + wide_cells(
            *row,
            diverging,
            header,
            wide_columns(diverging) as nat,
        ),
{
    let ghost start = out@;
    let columns: usize = if diverging {
        7
    } else {
        6
    };
    let mut i: usize = 0;
    assert(out@ =~= start + wide_cells(*row, diverging, header, 0));
    while i < columns
        invariant
            i <= columns,
            columns == wide_columns(diverging),
            row@.len() == columns,
            out@ == start + wide_cells(*row, diverging, header, i as nat),
        decreases columns - i,
    {
        let ghost done = wide_cells(*row, diverging, header, i as nat);
        push_wide_cell(out, row, diverging, header, i);
        assert(out@ =~= start + (done + wide_cell(*row, diverging, header, i as int)));
        i = i + 1;
    }
}

/// Appends the header of the wide table of a learnset.
fn push_wide_header(out: &mut String, row: &Vec<String>, diverging: bool)
    requires
        row@.len() == wide_columns(diverging),
    ensures
        final(out)@ == old(out)@ + wide_header(*row, diverging),
{
    let ghost start = out@;
    push_wide_cells(out, row, diverging, true);
    out.append("Description\n");
    assert(out@ =~= start + wide_header(*row, diverging));
}

/// Appends a row of the wide table of a learnset.
fn push_wide_row(out: &mut String, row: &Vec<String>, moves: &Moves, diverging: bool)
    requires
        row@.len() == wide_columns(diverging),
    ensures
        final(out)@ == old(out)@ + wide_row(*row, *moves, diverging),
{
    let ghost start = out@;
    push_wide_cells(out, row, diverging, false);
    match moves.get(row[1].as_str()) {
        Some(record) => out.append(record.description.as_str()),
        None => out.append("NO DESCRIPTION"),
    }
    out.append("\n");
    assert(out@ =~= start + wide_row(*row, *moves, diverging));
}

/// Returns the wide table of a learnset by levelling up, with one or two
/// columns of levels.
fn pretty_table(learnset: &Learnset, moves: &Moves, diverging: bool) -> (res: Result<
    String,
    LearnsetError,
>)
    requires
        learnset.by_leveling_up@.len() >= 1,
        diverging == (learnset.by_leveling_up@[0]@.len() != 6),
    ensures
        table_view(res) == wide_text(*learnset, *moves),
{
    let rows = &learnset.by_leveling_up;
    let columns: usize = if diverging {
        7
    } else {
        6
    };
    let mut i: usize = 0;
    while i < rows.len()
        invariant
            i <= rows.len(),
            rows == &learnset.by_leveling_up,
            rows@.len() >= 1,
            diverging == (rows@[0]@.len() != 6),
            columns == wide_columns(diverging),
            forall|j: int| 0 <= j < i ==> (#[trigger] rows@[j])@.len() == columns,
        decreases rows.len() - i,
    {
        if rows[i].len() != columns {
            assert(rows@[i as int]@.len() != columns);
            return Err(LearnsetError::ColumnMismatch);
        }
        i = i + 1;
    }
    let mut result = String::new();
    push_wide_header(&mut result, &rows[0], diverging);
    let ghost head = result@;
    assert(head =~= wide_header(rows@[0], diverging));
    let mut i: usize = 1;
    assert(result@ =~= head + wide_rows(rows@, *moves, diverging, 1));
    while i < rows.len()
        invariant
            1 <= i <= rows.len(),
            rows == &learnset.by_leveling_up,
            has_columns(rows@, columns as int),
            columns == wide_columns(diverging),
            result@ == head + wide_rows(rows@, *moves, diverging, i as nat),
        decreases rows.len() - i,
    {
        let ghost before = wide_rows(rows@, *moves, diverging, i as nat);
        push_wide_row(&mut result, &rows[i], moves, diverging);
        assert(result@ =~= head + (before + wide_row(rows@[i as int], *moves, diverging)));
        i = i + 1;
    }
    Ok(result)
}

/// Returns the wide table of a learnset by levelling up that is the same
/// in every version.
fn pretty_learnset_table(learnset: &Learnset, moves: &Moves) -> (res: Result<String, LearnsetError>)
    requires
        learnset.by_leveling_up@.len() >= 1,
        learnset.by_leveling_up@[0]@.len() == 6,
    ensures
        table_view(res) == wide_text(*learnset, *moves),
{
    pretty_table(learnset, moves, false)
}

/// Returns the wide table of a learnset by levelling up that differs
/// between the versions.
fn pretty_diff_learnset_table(learnset: &Learnset, moves: &Moves) -> (res: Result<
    String,
    LearnsetError,
>)
    requires
        learnset.by_leveling_up@.len() >= 1,
        learnset.by_leveling_up@[0]@.len() != 6,
    ensures
        table_view(res) == wide_text(*learnset, *moves),
{
    pretty_table(learnset, moves, true)
}

/// Returns the text with the wide table of the learnset by levelling up.
pub fn get_pretty_learnset_table(entry: &Learnset, moves: &Moves) -> (res: Result<
    String,
    LearnsetError,
>)
    ensures
        table_view(res) == wide_text(*entry, *moves),
{
    if entry.by_leveling_up.len() == 0 {
        return Err(LearnsetError::NoRows);
    }
    let same_learnset = entry.by_leveling_up[0].len() == 6;
    if same_learnset {
        pretty_learnset_table(entry, moves)
    } else {
        pretty_diff_learnset_table(entry, moves)
    }
}

} // verus!
