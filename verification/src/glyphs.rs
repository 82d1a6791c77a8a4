//! The glyphs of the two generations.
//!
//! The letters are taken from pictures of the naming screens, where they
//! stand in a grid, nine to a row. The digits, the space and the slash do
//! not stand there; their fingerprints are written down here.

use crate::ocr::{entries_view, fingerprint, CharBitmap, TableError};
use crate::position::Position;
use crate::raster::{inverted, thresholded, GrayImage};
use crate::roi::region_pixels;
use vstd::prelude::*;
use vstd::string::StrSliceExecFns;

verus! {

/// The letters of a naming screen and the space after them, row by row.
pub const ALPHABET: &'static str = "ABCDEFGHIJKLMNOPQRSTUVWXYZ ";

/// The digits, in the order of their fingerprints in `DIGIT_GLYPHS`.
pub const DIGITS: &'static str = "0123456789";

/// The fingerprints of the digits 0 to 9.
pub const DIGIT_GLYPHS: [u64; 10] = [
    0x0000_7136_3c6c_8e00,
    0x0001_f8c1_8307_0c00,
    0x0001_fc39_ee18_df00,
    0x0000_fb1e_038c_3f00,
    0x0000_c3fb_36cf_1c00,
    0x0000_fb1e_07e0_df80,
    0x0000_fb1e_37e0_df00,
    0x0000_3061_8618_ff80,
    0x0000_fb1e_37d8_df00,
    0x0000_fb07_ec78_df00,
];

/// The fingerprint of the space: no pixel is set.
pub const SPACE_GLYPH: u64 = 0;

/// The fingerprint of the slash: the diagonal from the top right to the
/// bottom left.
pub const SLASH_GLYPH: u64 = 0x0000_0410_4104_1040;

/// The fingerprint of the 2 of the second generation.
pub const GSC_TWO_GLYPH: u64 = 0x0001_fc3b_ee18_df00;

/// The fingerprint of the 5 of the second generation.
pub const GSC_FIVE_GLYPH: u64 = 0x0000_fb1e_07e0_5f80;

/// The luminance up to which a pixel of a picture of the glyphs is ink.
pub const ATLAS_THRESHOLD: u8 = 200;

/// The row of the first letters on the naming screen of the first
/// generation.
pub const RBY_TOP: u32 = 40;

/// The row of the first letters on the naming screen of the second
/// generation.
pub const GSC_TOP: u32 = 64;

/// The width that a picture of a naming screen must at least have.
pub const ATLAS_MIN_WIDTH: u32 = 151;

/// The label of the letter with index `k`: the one character at that place
/// of the alphabet.
pub open spec fn letter_label(k: int) -> Seq<char> {
    ALPHABET@.subrange(k, k + 1)
}

/// The label of the digit `k`.
pub open spec fn digit_label(k: int) -> Seq<char> {
    DIGITS@.subrange(k, k + 1)
}

/// The letter with index `k`.
pub fn letter(k: usize) -> (label: &'static str)
    requires
        k < 27,
    ensures
        label@ == letter_label(k as int),
{
    proof {
        reveal_strlit("ABCDEFGHIJKLMNOPQRSTUVWXYZ ");
    }
    ALPHABET.substring_ascii(k, k + 1)
}

/// The digit `k` as text.
pub fn digit(k: usize) -> (label: &'static str)
    requires
        k < 10,
    ensures
        label@ == digit_label(k as int),
{
    proof {
        reveal_strlit("0123456789");
    }
    DIGITS.substring_ascii(k, k + 1)
}

/// The pixels of a picture of the glyphs with ink as foreground: the
/// picture binarized and inverted.
pub open spec fn glyph_pixels(pixels: Seq<u8>) -> Seq<u8> {
    inverted(thresholded(pixels, ATLAS_THRESHOLD))
}

/// The cell of the letter with index `k` on a naming screen whose letters
/// begin in row `top`. The letters stand nine to a row, 16 pixels apart.
pub open spec fn letter_cell(k: int, top: int) -> Position {
    Position { x: (16 + (k % 9) * 16) as u32, y: (top + (k / 9) * 16) as u32, width: 7, height: 7 }
}

/// The cell of the hyphen on the naming screen of the first generation:
/// the first of the fifth row.
pub open spec fn hyphen_cell() -> Position {
    Position { x: 16, y: 104, width: 7, height: 7 }
}

/// The entry for what the cell `cell` of a picture shows.
pub open spec fn cell_entry(width: int, pixels: Seq<u8>, cell: Position, label: Seq<char>) -> (
    u64,
    Seq<char>,
) {
    (fingerprint(region_pixels(pixels, width, cell)), label)
}

/// The entries for the letters of a naming screen that is `width` pixels
/// wide and whose letters begin in row `top`.
pub open spec fn letter_entries(width: int, pixels: Seq<u8>, top: int) -> Seq<(u64, Seq<char>)> {
    Seq::new(27, |k: int| cell_entry(width, pixels, letter_cell(k, top), letter_label(k)))
}

/// The entries for the digits.
pub open spec fn digit_entries() -> Seq<(u64, Seq<char>)> {
    Seq::new(10, |k: int| (DIGIT_GLYPHS[k], digit_label(k)))
}

/// The entries of the first generation: the letters and the hyphen of its
/// naming screen, the digits, the space and the slash.
pub open spec fn rby_entries(width: int, pixels: Seq<u8>) -> Seq<(u64, Seq<char>)> {
    letter_entries(width, pixels, RBY_TOP as int).push(
        cell_entry(width, pixels, hyphen_cell(), "-"@),
    ) + digit_entries() + seq![(SPACE_GLYPH, " "@), (SLASH_GLYPH, "/"@)]
}

/// The entries that the second generation adds: the letters of its naming
/// screen, and its own 2 and 5.
pub open spec fn gsc_entries(width: int, pixels: Seq<u8>) -> Seq<(u64, Seq<char>)> {
    letter_entries(width, pixels, GSC_TOP as int) + seq![
        (GSC_TWO_GLYPH, "2"@),
        (GSC_FIVE_GLYPH, "5"@),
    ]
}

/// Whether a picture of the naming screen of the first generation holds
/// all its glyphs.
pub open spec fn rby_atlas_fits(width: int, height: int) -> bool {
    width >= ATLAS_MIN_WIDTH && height >= 111
}

/// Whether a picture of the naming screen of the second generation holds
/// all its glyphs.
pub open spec fn gsc_atlas_fits(width: int, height: int) -> bool {
    width >= ATLAS_MIN_WIDTH && height >= 103
}

/// Reads what the cell at `(x, y)` of a picture shows.
fn cell_glyph(atlas: &GrayImage, x: u32, y: u32) -> (bitmap: CharBitmap)
    requires
        x + 7 <= atlas.spec_width(),
        y + 7 <= atlas.spec_height(),
    ensures
        bitmap@ == fingerprint(
            region_pixels(atlas@, atlas.spec_width(), Position { x, y, width: 7, height: 7 }),
        ),
{
    let cell = Position { x, y, width: 7, height: 7 };
    match CharBitmap::from_roi(atlas, &cell) {
        Ok(bitmap) => bitmap,
        Err(_) => vstd::pervasive::unreached(),
    }
}

/// Appends the entries for the letters of a naming screen.
fn push_letters(entries: &mut Vec<(CharBitmap, &'static str)>, atlas: &GrayImage, top: u32)
    requires
        atlas.spec_width() >= ATLAS_MIN_WIDTH,
        atlas.spec_height() >= top + 39,
        top <= 1000,
    ensures
        entries_view(final(entries)@) == entries_view(old(entries)@) + letter_entries(
            atlas.spec_width(),
            atlas@,
            top as int,
        ),
{
    let ghost before = entries_view(entries@);
    let ghost letters = letter_entries(atlas.spec_width(), atlas@, top as int);
    let mut k: usize = 0;
    assert(entries_view(entries@) =~= before + letters.take(0));
    while k < 27
        invariant
            k <= 27,
            atlas.spec_width() >= ATLAS_MIN_WIDTH,
            atlas.spec_height() >= top + 39,
            top <= 1000,
            letters == letter_entries(atlas.spec_width(), atlas@, top as int),
            entries_view(entries@) == before + letters.take(k as int),
        decreases 27 - k,
    {
        let x: u32 = 16 + ((k % 9) as u32) * 16;
        let y: u32 = top + ((k / 9) as u32) * 16;
        let bitmap = cell_glyph(atlas, x, y);
        let label = letter(k);
        let ghost old_entries = entries@;
        entries.push((bitmap, label));
        proof {
            assert(letter_cell(k as int, top as int) == Position { x, y, width: 7, height: 7 });
            assert(letters[k as int] == (bitmap@, label@));
            assert(entries_view(entries@) =~= entries_view(old_entries).push((bitmap@, label@)));
            assert(letters.take(k + 1) =~= letters.take(k as int).push(letters[k as int]));
            assert(entries_view(entries@) =~= before + letters.take(k + 1));
        }
        k = k + 1;
    }
    assert(letters.take(27) =~= letters);
}

/// Appends an entry whose fingerprint is written down.
fn push_literal(entries: &mut Vec<(CharBitmap, &'static str)>, bits: u64, label: &'static str)
    requires
        bits < crate::ocr::FINGERPRINT_LIMIT,
    ensures
        entries_view(final(entries)@) == entries_view(old(entries)@).push((bits, label@)),
{
    let ghost old_entries = entries@;
    match CharBitmap::from_bits(bits) {
        Some(bitmap) => {
            entries.push((bitmap, label));
            assert(entries_view(entries@) =~= entries_view(old_entries).push((bits, label@)));
        },
        None => {},
    }
}

/// Returns the entries of the first generation from a picture of its
/// naming screen, or fails where the picture is too small to hold them.
pub fn rby_glyphs(atlas: &GrayImage) -> (res: Result<Vec<(CharBitmap, &'static str)>, TableError>)
    ensures
        match res {
            Ok(entries) => {
                &&& rby_atlas_fits(atlas.spec_width(), atlas.spec_height())
                &&& entries_view(entries@) == rby_entries(atlas.spec_width(), glyph_pixels(atlas@))
            },
            Err(e) => e == TableError::AtlasTooSmall && !rby_atlas_fits(
                atlas.spec_width(),
                atlas.spec_height(),
            ),
        },
{
    if atlas.width() < ATLAS_MIN_WIDTH || atlas.height() < 111 {
        return Err(TableError::AtlasTooSmall);
    }
    let ink = atlas.threshold(ATLAS_THRESHOLD).invert();
    let mut entries: Vec<(CharBitmap, &'static str)> = Vec::new();
    assert(entries_view(entries@) =~= Seq::empty());
    push_letters(&mut entries, &ink, RBY_TOP);
    let hyphen = cell_glyph(&ink, 16, 104);
    let ghost letters = entries@;
    entries.push((hyphen, "-"));
    assert(entries_view(entries@) =~= entries_view(letters).push((hyphen@, "-"@)));
    let ghost with_letters = entries_view(entries@);
    let mut k: usize = 0;
    assert(entries_view(entries@) =~= with_letters + digit_entries().take(0));
    while k < 10
        invariant
            k <= 10,
            entries_view(entries@) == with_letters + digit_entries().take(k as int),
        decreases 10 - k,
    {
        let label = digit(k);
        push_literal(&mut entries, DIGIT_GLYPHS[k], label);
        proof {
            assert(digit_entries()[k as int] == (DIGIT_GLYPHS[k as int], label@));
            assert(digit_entries().take(k + 1) =~= digit_entries().take(k as int).push(
                digit_entries()[k as int],
            ));
            assert(entries_view(entries@) =~= with_letters + digit_entries().take(k + 1));
        }
        k = k + 1;
    }
    assert(digit_entries().take(10) =~= digit_entries());
    push_literal(&mut entries, SPACE_GLYPH, " ");
    push_literal(&mut entries, SLASH_GLYPH, "/");
    assert(entries_view(entries@) =~= rby_entries(ink.spec_width(), ink@));
    Ok(entries)
}

/// Returns the entries that the second generation adds from a picture of
/// its naming screen, or fails where the picture is too small to hold
/// them.
pub fn gsc_glyphs(atlas: &GrayImage) -> (res: Result<Vec<(CharBitmap, &'static str)>, TableError>)
    ensures
        match res {
            Ok(entries) => {
                &&& gsc_atlas_fits(atlas.spec_width(), atlas.spec_height())
                &&& entries_view(entries@) == gsc_entries(atlas.spec_width(), glyph_pixels(atlas@))
            },
            Err(e) => e == TableError::AtlasTooSmall && !gsc_atlas_fits(
                atlas.spec_width(),
                atlas.spec_height(),
            ),
        },
{
    if atlas.width() < ATLAS_MIN_WIDTH || atlas.height() < 103 {
        return Err(TableError::AtlasTooSmall);
    }
    let ink = atlas.threshold(ATLAS_THRESHOLD).invert();
    let mut entries: Vec<(CharBitmap, &'static str)> = Vec::new();
    assert(entries_view(entries@) =~= Seq::empty());
    push_letters(&mut entries, &ink, GSC_TOP);
    push_literal(&mut entries, GSC_TWO_GLYPH, "2");
    push_literal(&mut entries, GSC_FIVE_GLYPH, "5");
    assert(entries_view(entries@) =~= gsc_entries(ink.spec_width(), ink@));
    Ok(entries)
}

} // verus!
