//! What a summary screen with moves tells, as text: the moves, the chains
//! of evolution of the species, and what each species of the chains
//! learns.

use crate::chains::{
    contains, parts, space_arrows, spaced, split_arrows, str_contains, views,
};
use crate::fmt::{fmt_learnset, fmt_move_header, learnset_text, move_header, move_text};
use crate::format::{left_aligned, push_left, to_decimal};
use crate::items::{GscItems, Item};
use crate::layout::{FieldName, GscSummary2, LayoutError, RbySummary2};
use crate::learnset::{GscLearnsets, Learnset, RbyLearnsets};
use crate::moves::{GscMoves, Moves};
use crate::names::{find_named, first_named, names_of};
use crate::ocr::CharTable;
use crate::pokemon::{GscPokedex, GscPokemon, RbyPokedex, RbyPokemon};
use crate::raster::GrayImage;
use crate::report::{report_title, report_view, species, ReportError};
use crate::text::{lowercase, parse_i32, parsed_number, str_eq};
use vstd::prelude::*;
use vstd::string::StringExecFns;

verus! {

/// The line of a move of the individual: the row of the move in the table
/// of moves, or a hyphen for no move.
pub open spec fn move_line(name: Seq<char>, moves: Moves) -> Seq<char> {
    if name == "-"@ {
        "-\n"@
    } else {
        move_text(moves.spec_get(name)) + "\n"@
    }
}

/// The table of the four moves of an individual.
pub open spec fn moves_table(
    move_1: Seq<char>,
    move_2: Seq<char>,
    move_3: Seq<char>,
    move_4: Seq<char>,
    moves: Moves,
) -> Seq<char> {
    move_header() + "\n"@ + move_line(move_1, moves) + move_line(move_2, moves) + move_line(
        move_3,
        moves,
    ) + move_line(move_4, moves)
}

/// Those of the first `n` chains in which `name` stands, in their order.
pub open spec fn chains_with(chains: Seq<Seq<char>>, name: Seq<char>, n: nat) -> Seq<Seq<char>>
    decreases n,
{
    if n == 0 {
        Seq::empty()
    } else {
        let rest = chains_with(chains, name, (n - 1) as nat);
        if contains(chains[n - 1], name) {
            rest.push(chains[n - 1])
        } else {
            rest
        }
    }
}

/// Whether `name` is one of `names`.
pub open spec fn is_among(names: Seq<Seq<char>>, name: Seq<char>) -> bool {
    exists|i: int| 0 <= i < names.len() && names[i] == name
}

/// `names` and after them those of the first `n` parts of a chain that
/// stand at every second place and are not among the names before them.
pub open spec fn with_species(names: Seq<Seq<char>>, chain: Seq<Seq<char>>, n: nat) -> Seq<Seq<char>>
    decreases n,
{
    if n == 0 {
        names
    } else {
        let rest = with_species(names, chain, (n - 1) as nat);
        if (n - 1) % 2 == 0 && !is_among(rest, chain[n - 1]) {
            rest.push(chain[n - 1])
        } else {
            rest
        }
    }
}

/// The species of the first `n` chains, each once, in the order in which
/// the chains name them.
pub open spec fn species_of(chains: Seq<Seq<char>>, n: nat) -> Seq<Seq<char>>
    decreases n,
{
    if n == 0 {
        Seq::empty()
    } else {
        let chain = parts(chains[n - 1]);
        with_species(species_of(chains, (n - 1) as nat), chain, chain.len())
    }
}

/// The first `n` chains, one to a line, with space around their arrows.
pub open spec fn chain_lines(chains: Seq<Seq<char>>, n: nat) -> Seq<char>
    decreases n,
{
    if n == 0 {
        Seq::empty()
    } else {
        chain_lines(chains, (n - 1) as nat) + spaced(chains[n - 1]) + "\n"@
    }
}

/// The learnset of the species `name` as text, or why there is none.
pub open spec fn learnset_of(name: Seq<char>, index: int, sets: Seq<Learnset>, moves: Moves) -> Result<
    Seq<char>,
    ReportError,
> {
    match first_named(names_of(sets), name) {
        None => Err(ReportError::NoLearnset { index: index as usize }),
        Some(i) => match learnset_text(sets[i], moves) {
            Ok(text) => Ok(text + "\n"@),
            Err(cause) => Err(ReportError::Learnset { index: index as usize, cause }),
        },
    }
}

/// The learnsets of the first `n` species as text, or why the first of
/// them that has none has none.
pub open spec fn learnset_lines(names: Seq<Seq<char>>, sets: Seq<Learnset>, moves: Moves, n: nat) -> Result<
    Seq<char>,
    ReportError,
>
    decreases n,
{
    if n == 0 {
        Ok(Seq::empty())
    } else {
        match learnset_lines(names, sets, moves, (n - 1) as nat) {
            Err(e) => Err(e),
            Ok(text) => match learnset_of(names[n - 1], n - 1, sets, moves) {
                Ok(more) => Ok(text + more),
                Err(e) => Err(e),
            },
        }
    }
}

/// The chains of evolution of a species and what its species learn, as
/// text.
pub open spec fn lineage(name: Seq<char>, chains: Seq<Seq<char>>, sets: Seq<Learnset>, moves: Moves) -> Result<
    Seq<char>,
    ReportError,
> {
    let own = chains_with(chains, name, chains.len());
    let names = species_of(own, own.len());
    match learnset_lines(names, sets, moves, names.len()) {
        Err(e) => Err(e),
        Ok(text) => Ok("\nEvo chain(s):\n"@ + chain_lines(own, own.len()) + "\n"@ + text),
    }
}

/// Appends the line of a move of the individual.
fn push_move_line(out: &mut String, name: &str, moves: &Moves)
    ensures
        final(out)@ == old(out)@ + move_line(name@, *moves),
{
    let ghost start = out@;
    if str_eq(name, "-") {
        out.append("-\n");
    } else {
        out.append(crate::fmt::fmt_move(moves.get(name)).as_str());
        out.append("\n");
        assert(out@ =~= start + (move_text(moves.spec_get(name@)) + "\n"@));
    }
}

/// Appends the table of the four moves of an individual.
fn push_moves_table(
    out: &mut String,
    move_1: &str,
    move_2: &str,
    move_3: &str,
    move_4: &str,
    moves: &Moves,
)
    ensures
        final(out)@ == old(out)@ + moves_table(move_1@, move_2@, move_3@, move_4@, *moves),
{
    let ghost start = out@;
    out.append(fmt_move_header().as_str());
    out.append("\n");
    let ghost head = move_header() + "\n"@;
    assert(out@ =~= start + head);
    push_move_line(out, move_1, moves);
    let ghost one = head + move_line(move_1@, *moves);
    assert(out@ =~= start + one);
    push_move_line(out, move_2, moves);
    let ghost two = one + move_line(move_2@, *moves);
    assert(out@ =~= start + two);
    push_move_line(out, move_3, moves);
    let ghost three = two + move_line(move_3@, *moves);
    assert(out@ =~= start + three);
    push_move_line(out, move_4, moves);
    assert(out@ =~= start + (three + move_line(move_4@, *moves)));
}

/// Returns the chains in which `name` stands, in their order.
pub fn chains_naming(chains: &Vec<String>, name: &str) -> (own: Vec<String>)
    ensures
        views(own@) == chains_with(views(chains@), name@, chains@.len()),
{
    let mut own: Vec<String> = Vec::new();
    let mut i: usize = 0;
    assert(views(own@) =~= chains_with(views(chains@), name@, 0));
    while i < chains.len()
        invariant
            i <= chains.len(),
            views(own@) == chains_with(views(chains@), name@, i as nat),
        decreases chains.len() - i,
    {
        let ghost before = views(own@);
        assert(views(chains@)[i as int] == chains@[i as int]@);
        if str_contains(chains[i].as_str(), name) {
            own.push(chains[i].clone());
            assert(views(own@) =~= before.push(chains@[i as int]@));
        }
        i = i + 1;
    }
    own
}

/// Tells whether `name` is one of `names`.
fn is_listed(names: &Vec<String>, name: &str) -> (b: bool)
    ensures
        b == is_among(views(names@), name@),
{
    let mut i: usize = 0;
    while i < names.len()
        invariant
            i <= names.len(),
            forall|j: int| 0 <= j < i ==> views(names@)[j] != name@,
        decreases names.len() - i,
    {
        if str_eq(names[i].as_str(), name) {
            assert(views(names@)[i as int] == name@);
            return true;
        }
        i = i + 1;
    }
    false
}

/// Returns the species that the chains name, each once, in the order in
/// which the chains name them.
pub fn species_in(chains: &Vec<String>) -> (names: Vec<String>)
    ensures
        views(names@) == species_of(views(chains@), chains@.len()),
{
    let mut names: Vec<String> = Vec::new();
    let mut i: usize = 0;
    assert(views(names@) =~= species_of(views(chains@), 0));
    while i < chains.len()
        invariant
            i <= chains.len(),
            views(names@) == species_of(views(chains@), i as nat),
        decreases chains.len() - i,
    {
        assert(views(chains@)[i as int] == chains@[i as int]@);
        let chain = split_arrows(chains[i].as_str());
        let ghost start = views(names@);
        let mut k: usize = 0;
        while k < chain.len()
            invariant
                k <= chain.len(),
                views(names@) == with_species(start, views(chain@), k as nat),
            decreases chain.len() - k,
        {
            let ghost before = views(names@);
            assert(views(chain@)[k as int] == chain@[k as int]@);
            if k % 2 == 0 && !is_listed(&names, chain[k].as_str()) {
                names.push(chain[k].clone());
                assert(views(names@) =~= before.push(chain@[k as int]@));
            }
            k = k + 1;
        }
        i = i + 1;
    }
    names
}

/// Appends the chains, one to a line, with space around their arrows.
fn push_chain_lines(out: &mut String, chains: &Vec<String>)
    ensures
        final(out)@ == old(out)@ + chain_lines(views(chains@), chains@.len()),
{
    let ghost start = out@;
    let mut i: usize = 0;
    assert(out@ =~= start + chain_lines(views(chains@), 0));
    while i < chains.len()
        invariant
            i <= chains.len(),
            out@ == start + chain_lines(views(chains@), i as nat),
        decreases chains.len() - i,
    {
        let ghost done = chain_lines(views(chains@), i as nat);
        assert(views(chains@)[i as int] == chains@[i as int]@);
        out.append(space_arrows(chains[i].as_str()).as_str());
        out.append("\n");
        assert(out@ =~= start + (done + spaced(chains@[i as int]@) + "\n"@));
        i = i + 1;
    }
}

/// An error of an earlier learnset stays the error of the learnsets.
proof fn lemma_learnset_error_stays(
    names: Seq<Seq<char>>,
    sets: Seq<Learnset>,
    moves: Moves,
    n: nat,
    m: nat,
)
    requires
        n <= m,
        learnset_lines(names, sets, moves, n) is Err,
    ensures
        learnset_lines(names, sets, moves, m) == learnset_lines(names, sets, moves, n),
    decreases m,
{
    if n < m {
        lemma_learnset_error_stays(names, sets, moves, n, (m - 1) as nat);
    }
}

/// Returns the learnsets of the species as text.
fn fmt_learnsets(names: &Vec<String>, sets: &Vec<Learnset>, moves: &Moves) -> (res: Result<
    String,
    ReportError,
>)
    ensures
        report_view(res) == learnset_lines(
            views(names@),
            sets@,
            *moves,
            names@.len(),
        ),
{
    let mut out = String::new();
    let mut i: usize = 0;
    while i < names.len()
        invariant
            i <= names.len(),
            learnset_lines(views(names@), sets@, *moves, i as nat) == Ok::<Seq<char>, ReportError>(
                out@,
            ),
        decreases names.len() - i,
    {
        let ghost done = out@;
        assert(views(names@)[i as int] == names@[i as int]@);
        let learnset = match find_named(sets, names[i].as_str()) {
            Some(l) => l,
            None => {
                proof {
                    lemma_learnset_error_stays(
                        views(names@),
                        sets@,
                        *moves,
                        (i + 1) as nat,
                        names@.len(),
                    );
                }
                return Err(ReportError::NoLearnset { index: i });
            },
        };
        match fmt_learnset(learnset, moves) {
            Ok(text) => {
                out.append(text.as_str());
                out.append("\n");
                assert(out@ =~= done + (text@ + "\n"@));
            },
            Err(cause) => {
                proof {
                    lemma_learnset_error_stays(
                        views(names@),
                        sets@,
                        *moves,
                        (i + 1) as nat,
                        names@.len(),
                    );
                }
                return Err(ReportError::Learnset { index: i, cause });
            },
        }
        i = i + 1;
    }
    Ok(out)
}

/// Returns the chains of evolution of a species and what the species of
/// these chains learn, as text.
pub fn fmt_lineage(name: &str, chains: &Vec<String>, sets: &Vec<Learnset>, moves: &Moves) -> (res:
    Result<String, ReportError>)
    ensures
        report_view(res) == lineage(name@, views(chains@), sets@, *moves),
{
    let own = chains_naming(chains, name);
    let names = species_in(&own);
    let learnsets = fmt_learnsets(&names, sets, moves)?;
    let mut out = String::new();
    out.append("\nEvo chain(s):\n");
    push_chain_lines(&mut out, &own);
    out.append("\n");
    out.append(learnsets.as_str());
    assert(out@ =~= "\nEvo chain(s):\n"@ + chain_lines(views(own@), own@.len()) + "\n"@
        + learnsets@);
    Ok(out)
}

/// The lines of the item that an individual holds.
pub open spec fn item_lines(name: Seq<char>, item: Option<Item>) -> Seq<char> {
    "Item:\n"@ + left_aligned(name, 12) + "  "@ + match item {
        Some(i) => i.description@,
        None => "NO DATA"@,
    } + "\n\n"@
}

/// What the second summary screen of the first generation tells.
pub open spec fn rby_summary_2_report(
    layout: RbySummary2,
    width: int,
    height: int,
    pixels: Seq<u8>,
    chars: Map<u64, Seq<char>>,
    index: Seq<RbyPokemon>,
    chains: Seq<Seq<char>>,
    sets: Seq<Learnset>,
    moves: Moves,
) -> Result<Seq<char>, ReportError> {
    match layout.content(width, height, pixels, chars) {
        Err(e) => Err(ReportError::Layout(e)),
        Ok(c) => match parsed_number(c.ndex) {
            None => Err(ReportError::Layout(LayoutError::Parse { field: FieldName::Ndex })),
            Some(ndex) => match species(index, ndex) {
                Err(e) => Err(e),
                Ok(p) => match lineage(p.name@, chains, sets, moves) {
                    Err(e) => Err(e),
                    Ok(text) => Ok(
                        moves_table(c.move_1, c.move_2, c.move_3, c.move_4, moves) + text,
                    ),
                },
            },
        },
    }
}

/// What the second summary screen of the second generation tells.
pub open spec fn gsc_summary_2_report(
    layout: GscSummary2,
    width: int,
    height: int,
    pixels: Seq<u8>,
    chars: Map<u64, Seq<char>>,
    index: Seq<GscPokemon>,
    items: GscItems,
    moves: Moves,
    chains: Seq<Seq<char>>,
    sets: Seq<Learnset>,
) -> Result<Seq<char>, ReportError> {
    match layout.content(width, height, pixels, chars) {
        Err(e) => Err(ReportError::Layout(e)),
        Ok(c) => match species(index, c.ndex as int) {
            Err(e) => Err(e),
            Ok(p) => match lineage(p.name@, chains, sets, moves) {
                Err(e) => Err(e),
                Ok(text) => Ok(
                    report_title(p.ndex as int, p.name@, c.level as int) + item_lines(
                        c.item,
                        items.spec_find(lowercase(c.item)),
                    ) + moves_table(c.move_1, c.move_2, c.move_3, c.move_4, moves) + text,
                ),
            },
        },
    }
}

/// Reads the second summary screen of the first generation and returns
/// what it tells: the moves of the individual, the chains of evolution of
/// its species, and what the species of these chains learn.
pub fn scan_rby_summary_2(
    img_gameboy: &GrayImage,
    rby_summary_2: &RbySummary2,
    chars: &CharTable,
    rby_pokedex: &RbyPokedex,
    rby_evo_chains: &Vec<String>,
    rby_learnsets: &RbyLearnsets,
    rby_moves: &Moves,
) -> (res: Result<String, ReportError>)
    ensures
        report_view(res) == rby_summary_2_report(
            *rby_summary_2,
            img_gameboy.spec_width(),
            img_gameboy.spec_height(),
            img_gameboy@,
            chars@,
            rby_pokedex@,
            views(rby_evo_chains@),
            rby_learnsets@,
            *rby_moves,
        ),
{
    let content = match rby_summary_2.read_fields(img_gameboy, chars) {
        Ok(c) => c,
        Err(e) => {
            return Err(ReportError::Layout(e));
        },
    };
    let ndex = match parse_i32(content.ndex.as_str()) {
        Some(ndex) => ndex,
        None => {
            return Err(ReportError::Layout(LayoutError::Parse { field: FieldName::Ndex }));
        },
    };
    if ndex < 1 {
        return Err(ReportError::NoSpecies { ndex });
    }
    let pokemon = match rby_pokedex.get_ndex(ndex as usize) {
        Some(p) => p,
        None => {
            return Err(ReportError::NoSpecies { ndex });
        },
    };
    let lineage = fmt_lineage(
        pokemon.name.as_str(),
        rby_evo_chains,
        rby_learnsets.sets(),
        rby_moves,
    )?;
    let mut text_result = String::new();
    push_moves_table(
        &mut text_result,
        content.move_1.as_str(),
        content.move_2.as_str(),
        content.move_3.as_str(),
        content.move_4.as_str(),
        rby_moves,
    );
    text_result.append(lineage.as_str());
    assert(text_result@ =~= moves_table(
        content.move_1@,
        content.move_2@,
        content.move_3@,
        content.move_4@,
        *rby_moves,
    ) + lineage@);
    Ok(text_result)
}

/// Reads the second summary screen of the second generation and returns
/// what it tells: the species, the item and the moves of the individual,
/// the chains of evolution of its species, and what the species of these
/// chains learn.
pub fn scan_gsc_summary_2(
    img_gameboy: &GrayImage,
    gsc_summary_2: &GscSummary2,
    chars: &CharTable,
    gsc_pokedex: &GscPokedex,
    gsc_items: &GscItems,
    gsc_moves: &GscMoves,
    gsc_evo_chains: &Vec<String>,
    gsc_learnsets: &GscLearnsets,
) -> (res: Result<String, ReportError>)
    ensures
        report_view(res) == gsc_summary_2_report(
            *gsc_summary_2,
            img_gameboy.spec_width(),
            img_gameboy.spec_height(),
            img_gameboy@,
            chars@,
            gsc_pokedex@,
            *gsc_items,
            *gsc_moves,
            views(gsc_evo_chains@),
            gsc_learnsets@,
        ),
{
    let content = match gsc_summary_2.read_fields(img_gameboy, chars) {
        Ok(c) => c,
        Err(e) => {
            return Err(ReportError::Layout(e));
        },
    };
    if content.ndex < 1 {
        return Err(ReportError::NoSpecies { ndex: content.ndex });
    }
    let pokemon = match gsc_pokedex.get_ndex(content.ndex as usize) {
        Some(p) => p,
        None => {
            return Err(ReportError::NoSpecies { ndex: content.ndex });
        },
    };
    let lineage = fmt_lineage(
        pokemon.name.as_str(),
        gsc_evo_chains,
        gsc_learnsets.sets(),
        gsc_moves,
    )?;
    let mut t = String::new();
    t.append("#");
    t.append(to_decimal(pokemon.ndex as i64).as_str());
    t.append(" ");
    t.append(pokemon.name.as_str());
    t.append(" :L");
    t.append(to_decimal(content.level as i64).as_str());
    t.append("\n\n");
    assert(t@ =~= report_title(pokemon.ndex as int, pokemon.name@, content.level as int));
    let ghost title = t@;
    t.append("Item:\n");
    push_left(&mut t, content.item.as_str(), 12);
    t.append("  ");
    let item = gsc_items.get(content.item.as_str());
    match item {
        Some(item) => t.append(item.description.as_str()),
        None => t.append("NO DATA"),
    }
    t.append("\n\n");
    assert(t@ =~= title + item_lines(content.item@, gsc_items.spec_find(lowercase(content.item@))));
    let ghost head = t@;
    push_moves_table(
        &mut t,
        content.move_1.as_str(),
        content.move_2.as_str(),
        content.move_3.as_str(),
        content.move_4.as_str(),
        gsc_moves,
    );
    t.append(lineage.as_str());
    assert(t@ =~= head + moves_table(
        content.move_1@,
        content.move_2@,
        content.move_3@,
        content.move_4@,
        *gsc_moves,
    ) + lineage@);
    Ok(t)
}

} // verus!
