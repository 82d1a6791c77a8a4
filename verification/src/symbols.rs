//! Reading digits by the nearest glyph.
//!
//! This reader compares a character cell with the glyph of every known
//! symbol pixel by pixel and takes the symbol with the fewest differing
//! pixels, if no more than one pixel differs. It reads the screen as it is
//! shown, dark text on a light ground, and knows the digits and the space.

use crate::glyphs::{digit, digit_label, DIGIT_GLYPHS, SLASH_GLYPH, SPACE_GLYPH};
use crate::position::Position;
use crate::raster::{thresholded, GrayImage};
use crate::roi::{clamped, crop, region_pixels};
use crate::text::{push_char, strings_view, trim, trimmed};
use vstd::prelude::*;
use vstd::string::StringExecFns;

verus! {

/// The luminance up to which a pixel of the screen is part of a symbol.
pub const SYMBOL_THRESHOLD: u8 = 200;

/// The number of pixels that may differ between a cell and the glyph of
/// the symbol that it is read as.
pub const TOLERANCE: i32 = 1;

/// A picture of 7 by 7 pixels that shows one symbol, as a binary image
/// shows it: 255 for the light ground, 0 for the symbol.
pub struct SymbolBitmap {
    pub vals: [u8; 49],
}

/// Why no symbol was read.
#[derive(Debug, Copy, Clone, PartialEq, Eq, Structural)]
pub enum SymbolError {
    /// The image is not 7 pixels wide and 7 pixels high.
    Dimensions { width: u32, height: u32 },
    /// There is no symbol to compare with, or not one name for each
    /// bitmap.
    NoSymbols,
    /// More pixels than tolerated differ from the nearest symbol.
    NotRecognized,
    /// The region is no line of text.
    Geometry,
    /// The region reaches beyond the image.
    OutOfBounds,
}

/// The pixel of a bitmap for a pixel of a picture in which 0 is the ground
/// and anything else the symbol.
pub open spec fn lazy_pixel(p: u8) -> u8 {
    if p == 0 {
        255
    } else {
        0
    }
}

/// Bit `i` of a fingerprint: 1 where the pixel belongs to the symbol.
pub open spec fn bit_at(bits: u64, i: int) -> u8 {
    ((bits >> (i as u64)) & 1) as u8
}

/// The number of places among the first `n` at which two lists differ.
pub open spec fn differing(a: Seq<u8>, b: Seq<u8>, n: nat) -> nat
    decreases n,
{
    if n == 0 {
        0
    } else {
        differing(a, b, (n - 1) as nat) + if a[n - 1] != b[n - 1] {
            1nat
        } else {
            0nat
        }
    }
}

/// The number of differing pixels between the pixels of a cell and each
/// bitmap.
pub open spec fn symbol_diffs(bitmaps: Seq<SymbolBitmap>, pixels: Seq<u8>) -> Seq<nat> {
    Seq::new(bitmaps.len(), |k: int| differing(bitmaps[k].vals@, pixels, 49))
}

/// The place of the smallest number of a list, and of several such the
/// first.
pub open spec fn nearest(diffs: Seq<nat>) -> int
    decreases diffs.len(),
{
    if diffs.len() <= 1 {
        0
    } else {
        let best = nearest(diffs.drop_last());
        if diffs.last() < diffs[best] {
            diffs.len() - 1
        } else {
            best
        }
    }
}

/// The place of the smallest number lies in the list, no number is
/// smaller, and every number before it is greater.
pub proof fn lemma_nearest(diffs: Seq<nat>)
    requires
        diffs.len() > 0,
    ensures
        0 <= nearest(diffs) < diffs.len(),
        forall|j: int| 0 <= j < diffs.len() ==> diffs[nearest(diffs)] <= #[trigger] diffs[j],
        forall|j: int| 0 <= j < nearest(diffs) ==> diffs[nearest(diffs)] < #[trigger] diffs[j],
    decreases diffs.len(),
{
    if diffs.len() > 1 {
        let rest = diffs.drop_last();
        lemma_nearest(rest);
        assert forall|j: int| 0 <= j < rest.len() implies rest[j] == diffs[j] by {}
    }
}

/// The symbol that the binary pixels of a cell show: the nearest one, if
/// no more than one pixel differs.
pub open spec fn symbol_of(symbols: Seq<Seq<char>>, bitmaps: Seq<SymbolBitmap>, pixels: Seq<u8>) -> Result<
    Seq<char>,
    SymbolError,
> {
    if bitmaps.len() == 0 || symbols.len() != bitmaps.len() {
        Err(SymbolError::NoSymbols)
    } else {
        let diffs = symbol_diffs(bitmaps, pixels);
        if diffs[nearest(diffs)] > TOLERANCE {
            Err(SymbolError::NotRecognized)
        } else {
            Ok(symbols[nearest(diffs)])
        }
    }
}

impl SymbolBitmap {
    /// Creates a bitmap from a lazy array. In a lazy array 0 is the white
    /// ground and everything else the symbol. This is the opposite of a
    /// binary image, where 255 is white and 0 is black.
    pub fn from_lazy_array(arr: &[u8; 49]) -> (bitmap: SymbolBitmap)
        ensures
            forall|i: int| 0 <= i < 49 ==> bitmap.vals[i] == lazy_pixel(#[trigger] arr[i]),
    {
        let mut vals: [u8; 49] = [0; 49];
        let mut i: usize = 0;
        while i < 49
            invariant
                i <= 49,
                forall|j: int| 0 <= j < i ==> vals[j] == lazy_pixel(#[trigger] arr[j]),
            decreases 49 - i,
        {
            vals[i] = if arr[i] == 0 {
                255
            } else {
                0
            };
            i = i + 1;
        }
        SymbolBitmap { vals }
    }

    /// Creates the bitmap of the symbol with the given fingerprint.
    pub fn from_fingerprint(bits: u64) -> (bitmap: SymbolBitmap)
        ensures
            forall|i: int| 0 <= i < 49 ==> bitmap.vals[i] == lazy_pixel(#[trigger] bit_at(bits, i)),
    {
        let mut arr: [u8; 49] = [0; 49];
        let mut i: usize = 0;
        while i < 49
            invariant
                i <= 49,
                forall|j: int| 0 <= j < i ==> arr[j] == #[trigger] bit_at(bits, j),
            decreases 49 - i,
        {
            let bit = (bits >> (i as u64)) & 1;
            assert(bit <= 1) by (bit_vector)
                requires
                    bit == (bits >> (i as u64)) & 1,
            ;
            arr[i] = bit as u8;
            i = i + 1;
        }
        SymbolBitmap::from_lazy_array(&arr)
    }
}

/// The names of the symbols that this reader knows: the digits and the
/// space.
pub open spec fn symbol_names() -> Seq<Seq<char>> {
    Seq::new(10, |k: int| digit_label(k)).push(" "@)
}

/// The fingerprints of the symbols that this reader knows, in the order of
/// their names.
pub open spec fn symbol_glyphs() -> Seq<u64> {
    Seq::new(10, |k: int| DIGIT_GLYPHS[k]).push(SPACE_GLYPH)
}

/// Returns the symbols and their bitmaps as two lists. The elements with
/// the same index belong to one another.
pub fn create_symbol_bitmaps() -> (pairs: (Vec<String>, Vec<SymbolBitmap>))
    ensures
        strings_view(pairs.0@) == symbol_names(),
        pairs.1@.len() == 11,
        forall|k: int, i: int|
            0 <= k < 11 && 0 <= i < 49 ==> (#[trigger] pairs.1@[k].vals[i]) == lazy_pixel(
                bit_at(symbol_glyphs()[k], i),
            ),
{
    let mut symbols: Vec<String> = Vec::with_capacity(11);
    let mut bitmaps: Vec<SymbolBitmap> = Vec::with_capacity(11);
    let mut k: usize = 0;
    assert(strings_view(symbols@) =~= symbol_names().take(0));
    while k < 10
        invariant
            k <= 10,
            strings_view(symbols@) == symbol_names().take(k as int),
            bitmaps@.len() == k,
            forall|n: int, i: int|
                0 <= n < k && 0 <= i < 49 ==> (#[trigger] bitmaps@[n].vals[i]) == lazy_pixel(
                    bit_at(symbol_glyphs()[n], i),
                ),
        decreases 10 - k,
    {
        let ghost before = strings_view(symbols@);
        let label = digit(k);
        symbols.push(String::from_str(label));
        bitmaps.push(SymbolBitmap::from_fingerprint(DIGIT_GLYPHS[k]));
        proof {
            assert(symbol_names()[k as int] == digit_label(k as int));
            assert(strings_view(symbols@) =~= before.push(label@));
            assert(symbol_names().take(k + 1) =~= symbol_names().take(k as int).push(
                symbol_names()[k as int],
            ));
            assert(symbol_glyphs()[k as int] == DIGIT_GLYPHS[k as int]);
        }
        k = k + 1;
    }
    let ghost before = strings_view(symbols@);
    symbols.push(String::from_str(" "));
    bitmaps.push(SymbolBitmap::from_fingerprint(SPACE_GLYPH));
    proof {
        assert(strings_view(symbols@) =~= before.push(" "@));
        assert(symbol_names().take(10).push(" "@) =~= symbol_names());
        assert(symbol_glyphs()[10] == SPACE_GLYPH);
    }
    (symbols, bitmaps)
}

/// Returns the number of pixels in which the binary image and the bitmap
/// of a symbol differ.
pub fn match_symbol(img: &GrayImage, bitmap: &SymbolBitmap) -> (res: Result<i32, SymbolError>)
    ensures
        match res {
            Ok(diff) => {
                &&& img.spec_width() == 7
                &&& img.spec_height() == 7
                &&& diff == differing(bitmap.vals@, img@, 49)
                &&& 0 <= diff <= 49
            },
            Err(e) => {
                &&& !(img.spec_width() == 7 && img.spec_height() == 7)
                &&& e == (SymbolError::Dimensions {
                    width: img.spec_width() as u32,
                    height: img.spec_height() as u32,
                })
            },
        },
{
    let (width, height) = img.dimensions();
    if width != 7 || height != 7 {
        return Err(SymbolError::Dimensions { width, height });
    }
    let pixels = img.as_raw();
    let mut diff_count: i32 = 0;
    let mut i: usize = 0;
    while i < 49
        invariant
            i <= 49,
            pixels@ == img@,
            pixels@.len() == 49,
            diff_count == differing(bitmap.vals@, img@, i as nat),
            0 <= diff_count <= i,
        decreases 49 - i,
    {
        if bitmap.vals[i] != pixels[i] {
            diff_count = diff_count + 1;
        }
        i = i + 1;
    }
    Ok(diff_count)
}

/// The outcome of a reading with the characters in place of the string.
pub open spec fn symbol_view(res: Result<String, SymbolError>) -> Result<Seq<char>, SymbolError> {
    match res {
        Ok(text) => Ok(text@),
        Err(e) => Err(e),
    }
}

/// The symbol that an image of 7 by 7 pixels shows.
pub open spec fn symbol_shown(
    width: int,
    height: int,
    pixels: Seq<u8>,
    symbols: Seq<Seq<char>>,
    bitmaps: Seq<SymbolBitmap>,
) -> Result<Seq<char>, SymbolError> {
    if width != 7 || height != 7 {
        Err(SymbolError::Dimensions { width: width as u32, height: height as u32 })
    } else {
        symbol_of(symbols, bitmaps, thresholded(pixels, SYMBOL_THRESHOLD))
    }
}

/// Reads and returns the symbol on the image of 7 by 7 pixels.
///
/// The image is binarized first. The symbol with the fewest differing
/// pixels is the match, and of several such the first; it is no match if
/// more than one pixel differs.
pub fn read_symbol(img: &GrayImage, symbol_bitmaps: &(Vec<String>, Vec<SymbolBitmap>)) -> (res:
    Result<String, SymbolError>)
    ensures
        symbol_view(res) == symbol_shown(
            img.spec_width(),
            img.spec_height(),
            img@,
            strings_view(symbol_bitmaps.0@),
            symbol_bitmaps.1@,
        ),
{
    let (width, height) = img.dimensions();
    if width != 7 || height != 7 {
        return Err(SymbolError::Dimensions { width, height });
    }
    let symbols = &symbol_bitmaps.0;
    let bitmaps = &symbol_bitmaps.1;
    assert(strings_view(symbols@).len() == symbols@.len());
    if bitmaps.len() == 0 || symbols.len() != bitmaps.len() {
        return Err(SymbolError::NoSymbols);
    }
    let binary = img.threshold(SYMBOL_THRESHOLD);
    let ghost diffs = symbol_diffs(bitmaps@, binary@);
    let mut best: usize = 0;
    let mut best_diff: i32 = match match_symbol(&binary, &bitmaps[0]) {
        Ok(diff) => diff,
        Err(_) => vstd::pervasive::unreached(),
    };
    let mut k: usize = 1;
    assert(diffs.take(1).drop_last() =~= diffs.take(0));
    while k < bitmaps.len()
        invariant
            1 <= k <= bitmaps.len(),
            bitmaps == &symbol_bitmaps.1,
            binary.spec_width() == 7,
            binary.spec_height() == 7,
            diffs == symbol_diffs(bitmaps@, binary@),
            best == nearest(diffs.take(k as int)),
            best < k,
            best_diff == diffs[best as int],
        decreases bitmaps.len() - k,
    {
        let diff = match match_symbol(&binary, &bitmaps[k]) {
            Ok(diff) => diff,
            Err(_) => vstd::pervasive::unreached(),
        };
        proof {
            assert(diffs.take(k + 1).drop_last() =~= diffs.take(k as int));
            assert(diffs.take(k + 1).last() == diffs[k as int]);
            assert(diffs.take(k as int)[best as int] == diffs[best as int]);
        }
        if diff < best_diff {
            best = k;
            best_diff = diff;
        }
        k = k + 1;
    }
    assert(diffs.take(k as int) =~= diffs);
    if best_diff > TOLERANCE {
        return Err(SymbolError::NotRecognized);
    }
    Ok(symbols[best].clone())
}

/// The cell of the symbol with index `index` in a line of text that fills
/// an image.
pub open spec fn line_cell(width: int, height: int, index: int) -> Position {
    clamped((8 * index) as u32, 0, 7, 7, width, height)
}

/// The text of the first `n` symbols of a line of text that fills an
/// image, or why the first of them that was not read was not read.
pub open spec fn line_upto(
    width: int,
    height: int,
    pixels: Seq<u8>,
    symbols: Seq<Seq<char>>,
    bitmaps: Seq<SymbolBitmap>,
    n: nat,
) -> Result<Seq<char>, SymbolError>
    decreases n,
{
    if n == 0 {
        Ok(Seq::empty())
    } else {
        match line_upto(width, height, pixels, symbols, bitmaps, (n - 1) as nat) {
            Ok(text) => {
                let cell = line_cell(width, height, n - 1);
                match symbol_shown(
                    cell.width as int,
                    cell.height as int,
                    region_pixels(pixels, width, cell),
                    symbols,
                    bitmaps,
                ) {
                    Ok(symbol) => Ok(text + symbol),
                    Err(e) => Err(e),
                }
            },
            Err(e) => Err(e),
        }
    }
}

/// The text of a line that fills an image.
pub open spec fn line_shown(
    width: int,
    height: int,
    pixels: Seq<u8>,
    symbols: Seq<Seq<char>>,
    bitmaps: Seq<SymbolBitmap>,
) -> Result<Seq<char>, SymbolError> {
    if height != 7 || (width + 1) % 8 != 0 {
        Err(SymbolError::Geometry)
    } else {
        line_upto(width, height, pixels, symbols, bitmaps, ((width + 1) / 8) as nat)
    }
}

/// A symbol that was not read stays the outcome, however many symbols
/// follow.
pub proof fn lemma_line_error_stays(
    width: int,
    height: int,
    pixels: Seq<u8>,
    symbols: Seq<Seq<char>>,
    bitmaps: Seq<SymbolBitmap>,
    n: nat,
    m: nat,
)
    requires
        n <= m,
        line_upto(width, height, pixels, symbols, bitmaps, n) is Err,
    ensures
        line_upto(width, height, pixels, symbols, bitmaps, m) == line_upto(
            width,
            height,
            pixels,
            symbols,
            bitmaps,
            n,
        ),
    decreases m,
{
    if n < m {
        lemma_line_error_stays(width, height, pixels, symbols, bitmaps, n, (m - 1) as nat);
    }
}

/// Reads and returns the symbols of an image that is 7 pixels high and
/// holds whole cells, each 7 pixels wide, with one pixel between them.
/// The text is returned as it is.
pub fn read_line(img: &GrayImage, symbol_bitmaps: &(Vec<String>, Vec<SymbolBitmap>)) -> (res:
    Result<String, SymbolError>)
    ensures
        symbol_view(res) == line_shown(
            img.spec_width(),
            img.spec_height(),
            img@,
            strings_view(symbol_bitmaps.0@),
            symbol_bitmaps.1@,
        ),
{
    let (width, height) = img.dimensions();
    if height != 7 || (width as u64 + 1) % 8 != 0 {
        return Err(SymbolError::Geometry);
    }
    let symbol_count: u64 = (width as u64 + 1) / 8;
    let mut line = String::new();
    let mut i: u64 = 0;
    while i < symbol_count
        invariant
            i <= symbol_count,
            symbol_count == (width + 1) / 8,
            width == img.spec_width(),
            height == img.spec_height(),
            height == 7,
            (width + 1) % 8 == 0,
            line_upto(
                width as int,
                height as int,
                img@,
                strings_view(symbol_bitmaps.0@),
                symbol_bitmaps.1@,
                i as nat,
            ) == Ok::<Seq<char>, SymbolError>(line@),
        decreases symbol_count - i,
    {
        let x: u32 = (i * 8) as u32;
        let img_symbol = crop(img, x, 0, 7, 7);
        proof {
            let (w, h) = (width as int, height as int);
            let (names, maps) = (strings_view(symbol_bitmaps.0@), symbol_bitmaps.1@);
            if line_upto(w, h, img@, names, maps, (i + 1) as nat) is Err {
                lemma_line_error_stays(w, h, img@, names, maps, (i + 1) as nat, symbol_count as nat);
            }
        }
        match read_symbol(&img_symbol, symbol_bitmaps) {
            Ok(symbol) => {
                line.append(symbol.as_str());
            },
            Err(e) => {
                return Err(e);
            },
        }
        i = i + 1;
    }
    Ok(line)
}

/// The text of the line of text `pos` of an image.
pub open spec fn section_shown(
    width: int,
    height: int,
    pixels: Seq<u8>,
    pos: Position,
    symbols: Seq<Seq<char>>,
    bitmaps: Seq<SymbolBitmap>,
) -> Result<Seq<char>, SymbolError> {
    if pos.height != 7 || (pos.width + 1) % 8 != 0 {
        Err(SymbolError::Geometry)
    } else if pos.x + pos.width > width || pos.y + pos.height > height {
        Err(SymbolError::OutOfBounds)
    } else {
        line_shown(
            pos.width as int,
            pos.height as int,
            region_pixels(pixels, width, pos),
            symbols,
            bitmaps,
        )
    }
}

/// Reads and returns the symbols on the section of the image, which holds
/// one line of text and lies within the image. The text is returned as it
/// is.
pub fn read_image_section(
    img: &GrayImage,
    pos: &Position,
    symbol_bitmaps: &(Vec<String>, Vec<SymbolBitmap>),
) -> (res: Result<String, SymbolError>)
    ensures
        symbol_view(res) == section_shown(
            img.spec_width(),
            img.spec_height(),
            img@,
            *pos,
            strings_view(symbol_bitmaps.0@),
            symbol_bitmaps.1@,
        ),
{
    if pos.height != 7 || (pos.width as u64 + 1) % 8 != 0 {
        return Err(SymbolError::Geometry);
    }
    if pos.x as u64 + pos.width as u64 > img.width() as u64 || pos.y as u64 + pos.height as u64
        > img.height() as u64 {
        return Err(SymbolError::OutOfBounds);
    }
    let img_section = crop(img, pos.x, pos.y, pos.width, pos.height);
    assert(clamped(pos.x, pos.y, pos.width, pos.height, img.spec_width(), img.spec_height())
        == *pos);
    read_line(&img_section, symbol_bitmaps)
}

/// Whether the cell `pos` of the image shows a slash pixel by pixel.
pub open spec fn shows_slash_symbol(width: int, height: int, pixels: Seq<u8>, pos: Position) -> bool {
    let cell = clamped(pos.x, pos.y, pos.width, pos.height, width, height);
    &&& cell.width == 7
    &&& cell.height == 7
    &&& forall|i: int|
        0 <= i < 49 ==> (#[trigger] thresholded(region_pixels(pixels, width, cell), SYMBOL_THRESHOLD)[i])
            == lazy_pixel(bit_at(SLASH_GLYPH, i))
}

/// No pixel differs between two lists exactly if they are equal place by
/// place.
pub proof fn lemma_differing_none(a: Seq<u8>, b: Seq<u8>, n: nat)
    ensures
        differing(a, b, n) == 0 <==> forall|i: int| 0 <= i < n ==> a[i] == b[i],
    decreases n,
{
    if n > 0 {
        lemma_differing_none(a, b, (n - 1) as nat);
        if differing(a, b, n) == 0 {
            assert forall|i: int| 0 <= i < n implies a[i] == b[i] by {
                if i < n - 1 {
                }
            }
        }
    }
}

/// Tells whether the cell `pos` of the image shows a slash pixel by pixel.
pub fn is_slash_symbol(img: &GrayImage, pos: &Position) -> (b: bool)
    ensures
        b == shows_slash_symbol(img.spec_width(), img.spec_height(), img@, *pos),
{
    let bitmap = SymbolBitmap::from_fingerprint(SLASH_GLYPH);
    let img_symbol = crop(img, pos.x, pos.y, pos.width, pos.height);
    let img_symbol = img_symbol.threshold(SYMBOL_THRESHOLD);
    match match_symbol(&img_symbol, &bitmap) {
        Ok(diff) => {
            proof {
                lemma_differing_none(bitmap.vals@, img_symbol@, 49);
            }
            diff == 0
        },
        Err(_) => false,
    }
}

/// The text of a field without the white space around it.
pub open spec fn section_text(
    width: int,
    height: int,
    pixels: Seq<u8>,
    pos: Position,
    symbols: Seq<Seq<char>>,
    bitmaps: Seq<SymbolBitmap>,
) -> Result<Seq<char>, SymbolError> {
    match section_shown(width, height, pixels, pos, symbols, bitmaps) {
        Ok(text) => Ok(trimmed(text)),
        Err(e) => Err(e),
    }
}

/// Reads the text of a field and takes the white space around it away.
pub fn read_section_text(
    img: &GrayImage,
    pos: &Position,
    symbol_bitmaps: &(Vec<String>, Vec<SymbolBitmap>),
) -> (res: Result<String, SymbolError>)
    ensures
        symbol_view(res) == section_text(
            img.spec_width(),
            img.spec_height(),
            img@,
            *pos,
            strings_view(symbol_bitmaps.0@),
            symbol_bitmaps.1@,
        ),
{
    match read_image_section(img, pos, symbol_bitmaps) {
        Ok(text) => Ok(String::from_str(trim(text.as_str()))),
        Err(e) => Err(e),
    }
}

/// The layout of the first page of the stats screen: where its fields and
/// its slashes stand.
pub struct StatScreen1Layout {
    pub width: i32,
    pub height: i32,
    pub pkmn_ndex_pos: Position,
    pub level_field_pos: Position,
    pub hp_field_pos: Position,
    pub attack_field_pos: Position,
    pub defense_field_pos: Position,
    pub speed_field_pos: Position,
    pub special_field_pos: Position,
    pub slash_positions: [Position; 5],
}

/// The content of the fields of the first page of the stats screen, as
/// text.
#[derive(Debug, PartialEq, PartialOrd, Clone)]
pub struct StatsSreen1Content {
    pub pkmn_no: String,
    pub level: String,
    pub hp: String,
    pub attack: String,
    pub defense: String,
    pub speed: String,
    pub special: String,
}

/// The content of the first page of the stats screen, each text as its
/// characters.
pub struct StatsSreen1ContentView {
    pub pkmn_no: Seq<char>,
    pub level: Seq<char>,
    pub hp: Seq<char>,
    pub attack: Seq<char>,
    pub defense: Seq<char>,
    pub speed: Seq<char>,
    pub special: Seq<char>,
}

impl View for StatsSreen1Content {
    type V = StatsSreen1ContentView;

    open spec fn view(&self) -> StatsSreen1ContentView {
        StatsSreen1ContentView {
            pkmn_no: self.pkmn_no@,
            level: self.level@,
            hp: self.hp@,
            attack: self.attack@,
            defense: self.defense@,
            speed: self.speed@,
            special: self.special@,
        }
    }
}

impl StatScreen1Layout {
    /// Whether the image shows this screen: a slash stands at each of the
    /// five marks.
    pub open spec fn matches(&self, width: int, height: int, pixels: Seq<u8>) -> bool {
        forall|i: int|
            0 <= i < 5 ==> shows_slash_symbol(width, height, pixels, #[trigger] self.slash_positions[i])
    }

    /// What the image shows in the fields of this layout, or the first
    /// reason in the order of the fields why it was not read.
    pub open spec fn content(
        &self,
        width: int,
        height: int,
        pixels: Seq<u8>,
        symbols: Seq<Seq<char>>,
        bitmaps: Seq<SymbolBitmap>,
    ) -> Result<StatsSreen1ContentView, SymbolError> {
        if width != self.width || height != self.height {
            Err(SymbolError::Dimensions { width: width as u32, height: height as u32 })
        } else {
            match (
                section_text(width, height, pixels, self.pkmn_ndex_pos, symbols, bitmaps),
                section_text(width, height, pixels, self.level_field_pos, symbols, bitmaps),
                section_text(width, height, pixels, self.hp_field_pos, symbols, bitmaps),
                section_text(width, height, pixels, self.attack_field_pos, symbols, bitmaps),
                section_text(width, height, pixels, self.defense_field_pos, symbols, bitmaps),
                section_text(width, height, pixels, self.speed_field_pos, symbols, bitmaps),
                section_text(width, height, pixels, self.special_field_pos, symbols, bitmaps),
            ) {
                (Err(e), _, _, _, _, _, _) => Err(e),
                (Ok(_), Err(e), _, _, _, _, _) => Err(e),
                (Ok(_), Ok(_), Err(e), _, _, _, _) => Err(e),
                (Ok(_), Ok(_), Ok(_), Err(e), _, _, _) => Err(e),
                (Ok(_), Ok(_), Ok(_), Ok(_), Err(e), _, _) => Err(e),
                (Ok(_), Ok(_), Ok(_), Ok(_), Ok(_), Err(e), _) => Err(e),
                (Ok(_), Ok(_), Ok(_), Ok(_), Ok(_), Ok(_), Err(e)) => Err(e),
                (Ok(pkmn_no), Ok(level), Ok(hp), Ok(attack), Ok(defense), Ok(speed), Ok(special)) => Ok(
                    StatsSreen1ContentView { pkmn_no, level, hp, attack, defense, speed, special },
                ),
            }
        }
    }

    /// Populates the layout with the known positions. Text that is of no
    /// concern has no position.
    pub fn new() -> (layout: StatScreen1Layout)
        ensures
            layout.width == 160,
            layout.height == 144,
            layout.pkmn_ndex_pos == (Position { x: 24, y: 56, width: 23, height: 7 }),
            layout.level_field_pos == (Position { x: 120, y: 16, width: 23, height: 7 }),
            layout.hp_field_pos == (Position { x: 128, y: 32, width: 23, height: 7 }),
            layout.attack_field_pos == (Position { x: 48, y: 80, width: 23, height: 7 }),
            layout.defense_field_pos == (Position { x: 48, y: 96, width: 23, height: 7 }),
            layout.speed_field_pos == (Position { x: 48, y: 112, width: 23, height: 7 }),
            layout.special_field_pos == (Position { x: 48, y: 128, width: 23, height: 7 }),
            layout.slash_positions@ == seq![
                (Position { x: 120, y: 33, width: 7, height: 7 }),
                (Position { x: 120, y: 49, width: 7, height: 7 }),
                (Position { x: 120, y: 73, width: 7, height: 7 }),
                (Position { x: 96, y: 105, width: 7, height: 7 }),
                (Position { x: 96, y: 121, width: 7, height: 7 }),
            ],
    {
        let layout = StatScreen1Layout {
            width: 160,
            height: 144,
            pkmn_ndex_pos: Position { x: 24, y: 56, width: 23, height: 7 },
            level_field_pos: Position { x: 120, y: 16, width: 23, height: 7 },
            hp_field_pos: Position { x: 128, y: 32, width: 23, height: 7 },
            attack_field_pos: Position { x: 48, y: 80, width: 23, height: 7 },
            defense_field_pos: Position { x: 48, y: 96, width: 23, height: 7 },
            speed_field_pos: Position { x: 48, y: 112, width: 23, height: 7 },
            special_field_pos: Position { x: 48, y: 128, width: 23, height: 7 },
            slash_positions: [
                Position { x: 120, y: 33, width: 7, height: 7 },
                Position { x: 120, y: 49, width: 7, height: 7 },
                Position { x: 120, y: 73, width: 7, height: 7 },
                Position { x: 96, y: 105, width: 7, height: 7 },
                Position { x: 96, y: 121, width: 7, height: 7 },
            ],
        };
        assert(layout.slash_positions@ =~= seq![
            (Position { x: 120, y: 33, width: 7, height: 7 }),
            (Position { x: 120, y: 49, width: 7, height: 7 }),
            (Position { x: 120, y: 73, width: 7, height: 7 }),
            (Position { x: 96, y: 105, width: 7, height: 7 }),
            (Position { x: 96, y: 121, width: 7, height: 7 }),
        ]);
        layout
    }

    /// Returns true if the image is the first page of the stats screen.
    pub fn verify_screen(&self, img: &GrayImage) -> (b: bool)
        ensures
            b == self.matches(img.spec_width(), img.spec_height(), img@),
    {
        let mut i: usize = 0;
        while i < 5
            invariant
                i <= 5,
                forall|j: int|
                    0 <= j < i ==> shows_slash_symbol(
                        img.spec_width(),
                        img.spec_height(),
                        img@,
                        #[trigger] self.slash_positions[j],
                    ),
            decreases 5 - i,
        {
            if !is_slash_symbol(img, &self.slash_positions[i]) {
                return false;
            }
            i = i + 1;
        }
        true
    }

    /// Returns the content of the screen: the text of each field without
    /// the white space around it.
    pub fn read_content(
        &self,
        img: &GrayImage,
        symbol_bitmaps: &(Vec<String>, Vec<SymbolBitmap>),
    ) -> (res: Result<StatsSreen1Content, SymbolError>)
        ensures
            match res {
                Ok(c) => self.content(
                    img.spec_width(),
                    img.spec_height(),
                    img@,
                    strings_view(symbol_bitmaps.0@),
                    symbol_bitmaps.1@,
                ) == Ok::<StatsSreen1ContentView, SymbolError>(c@),
                Err(e) => self.content(
                    img.spec_width(),
                    img.spec_height(),
                    img@,
                    strings_view(symbol_bitmaps.0@),
                    symbol_bitmaps.1@,
                ) == Err::<StatsSreen1ContentView, SymbolError>(e),
            },
    {
        if img.width() as i64 != self.width as i64 || img.height() as i64 != self.height as i64 {
            return Err(SymbolError::Dimensions { width: img.width(), height: img.height() });
        }
        let pkmn_no = read_section_text(img, &self.pkmn_ndex_pos, symbol_bitmaps)?;
        let level = read_section_text(img, &self.level_field_pos, symbol_bitmaps)?;
        let hp = read_section_text(img, &self.hp_field_pos, symbol_bitmaps)?;
        let attack = read_section_text(img, &self.attack_field_pos, symbol_bitmaps)?;
        let defense = read_section_text(img, &self.defense_field_pos, symbol_bitmaps)?;
        let speed = read_section_text(img, &self.speed_field_pos, symbol_bitmaps)?;
        let special = read_section_text(img, &self.special_field_pos, symbol_bitmaps)?;
        Ok(StatsSreen1Content { pkmn_no, level, hp, attack, defense, speed, special })
    }
}

/// The layout of the second page of the stats screen.
pub struct StatScreen2Layout {
    pub width: i32,
    pub height: i32,
    pub pkmn_ndex_pos: Position,
}

/// The content of the second page of the stats screen, as text.
#[derive(Debug, PartialEq, PartialOrd, Clone)]
pub struct StatsSreen2Content {
    pub pkmn_no: String,
}

impl StatScreen2Layout {
    /// The cell of the mark that tells this page from the first: the slash
    /// between the points of the first move.
    pub open spec fn mark() -> Position {
        Position { x: 128, y: 81, width: 7, height: 7 }
    }

    /// Populates the layout with the known positions.
    pub fn new() -> (layout: StatScreen2Layout)
        ensures
            layout.width == 160,
            layout.height == 144,
            layout.pkmn_ndex_pos == (Position { x: 24, y: 56, width: 23, height: 7 }),
    {
        let field_width: u32 = 23;
        let field_height: u32 = 7;

        let x_pkmn_no: u32 = 24;
        let y_pkmn_no: u32 = 56;

        StatScreen2Layout {
            width: 160,
            height: 144,
            pkmn_ndex_pos: Position {
                x: x_pkmn_no,
                y: y_pkmn_no,
                width: field_width,
                height: field_height,
            },
        }
    }

    /// Returns true if the image is the second page of the stats screen: a
    /// slash stands at the mark.
    pub fn verify_screen(&self, img: &GrayImage) -> (b: bool)
        ensures
            b == shows_slash_symbol(img.spec_width(), img.spec_height(), img@, Self::mark()),
    {
        let pos = Position { x: 128, y: 81, width: 7, height: 7 };
        is_slash_symbol(img, &pos)
    }

    /// Returns the content of the screen: the number in the index without
    /// the white space around it.
    pub fn read_content(
        &self,
        img: &GrayImage,
        symbol_bitmaps: &(Vec<String>, Vec<SymbolBitmap>),
    ) -> (res: Result<StatsSreen2Content, SymbolError>)
        ensures
            match res {
                Ok(c) => {
                    &&& img.spec_width() == self.width
                    &&& img.spec_height() == self.height
                    &&& section_text(
                        img.spec_width(),
                        img.spec_height(),
                        img@,
                        self.pkmn_ndex_pos,
                        strings_view(symbol_bitmaps.0@),
                        symbol_bitmaps.1@,
                    ) == Ok::<Seq<char>, SymbolError>(c.pkmn_no@)
                },
                Err(e) => if img.spec_width() != self.width || img.spec_height() != self.height {
                    e == (SymbolError::Dimensions {
                        width: img.spec_width() as u32,
                        height: img.spec_height() as u32,
                    })
                } else {
                    section_text(
                        img.spec_width(),
                        img.spec_height(),
                        img@,
                        self.pkmn_ndex_pos,
                        strings_view(symbol_bitmaps.0@),
                        symbol_bitmaps.1@,
                    ) == Err::<Seq<char>, SymbolError>(e)
                },
            },
    {
        if img.width() as i64 != self.width as i64 || img.height() as i64 != self.height as i64 {
            return Err(SymbolError::Dimensions { width: img.width(), height: img.height() });
        }
        let pkmn_no = read_section_text(img, &self.pkmn_ndex_pos, symbol_bitmaps)?;
        Ok(StatsSreen2Content { pkmn_no })
    }
}

/// Returns the known characters and their bitmaps as two lists. The
/// elements with the same index belong to one another. The bitmaps have 7
/// by 7 pixels: 255 for the light ground, 0 for the character.
pub fn create_char_bitmaps() -> (pairs: (Vec<char>, Vec<[u8; 49]>))
    ensures
        pairs.0@.len() == 11,
        forall|k: int| 0 <= k < 10 ==> seq![#[trigger] pairs.0@[k]] == digit_label(k),
        pairs.0@[10] == ' ',
        pairs.1@.len() == 11,
        forall|k: int, i: int|
            0 <= k < 11 && 0 <= i < 49 ==> (#[trigger] pairs.1@[k][i]) == lazy_pixel(
                bit_at(symbol_glyphs()[k], i),
            ),
{
    let mut chars: Vec<char> = Vec::with_capacity(11);
    let mut char_fonts: Vec<[u8; 49]> = Vec::with_capacity(11);
    let mut k: usize = 0;
    while k < 10
        invariant
            k <= 10,
            chars@.len() == k,
            forall|n: int| 0 <= n < k ==> seq![#[trigger] chars@[n]] == digit_label(n),
            char_fonts@.len() == k,
            forall|n: int, i: int|
                0 <= n < k && 0 <= i < 49 ==> (#[trigger] char_fonts@[n][i]) == lazy_pixel(
                    bit_at(symbol_glyphs()[n], i),
                ),
        decreases 10 - k,
    {
        let label = digit(k);
        proof {
            reveal_strlit("0123456789");
        }
        assert(label@.len() == 1);
        let c = vstd::string::StrSliceExecFns::get_char(label, 0);
        assert(seq![c] =~= label@);
        chars.push(c);
        char_fonts.push(SymbolBitmap::from_fingerprint(DIGIT_GLYPHS[k]).vals);
        assert(symbol_glyphs()[k as int] == DIGIT_GLYPHS[k as int]);
        k = k + 1;
    }
    chars.push(' ');
    char_fonts.push(SymbolBitmap::from_fingerprint(SPACE_GLYPH).vals);
    assert(symbol_glyphs()[10] == SPACE_GLYPH);
    (chars, char_fonts)
}

/// The number of differing pixels between the pixels of a cell and each
/// picture of a character.
pub open spec fn font_diffs(fonts: Seq<[u8; 49]>, pixels: Seq<u8>) -> Seq<nat> {
    Seq::new(fonts.len(), |k: int| differing(fonts[k]@, pixels, 49))
}

/// The character that an image of 7 by 7 pixels shows: the nearest one,
/// however many pixels differ.
pub open spec fn char_shown(
    width: int,
    height: int,
    pixels: Seq<u8>,
    chars: Seq<char>,
    fonts: Seq<[u8; 49]>,
) -> Result<char, SymbolError> {
    if width != 7 || height != 7 {
        Err(SymbolError::Dimensions { width: width as u32, height: height as u32 })
    } else if fonts.len() == 0 || chars.len() != fonts.len() {
        Err(SymbolError::NoSymbols)
    } else {
        Ok(chars[nearest(font_diffs(fonts, thresholded(pixels, SYMBOL_THRESHOLD)))])
    }
}

/// Returns the number of pixels in which a binary image of 7 by 7 pixels
/// and the picture of a character differ.
fn font_diff(pixels: &Vec<u8>, font: &[u8; 49]) -> (diff: u32)
    requires
        pixels@.len() == 49,
    ensures
        diff == differing(font@, pixels@, 49),
{
    let mut diff: u32 = 0;
    let mut i: usize = 0;
    while i < 49
        invariant
            i <= 49,
            pixels@.len() == 49,
            diff == differing(font@, pixels@, i as nat),
            diff <= i,
        decreases 49 - i,
    {
        if font[i] != pixels[i] {
            diff = diff + 1;
        }
        i = i + 1;
    }
    diff
}

/// Returns the best matching character for the image of 7 by 7 pixels:
/// the one whose picture differs in the fewest pixels, and of several such
/// the first.
pub fn match_char(char_image: &GrayImage, known_chars: &(Vec<char>, Vec<[u8; 49]>)) -> (res: Result<
    char,
    SymbolError,
>)
    ensures
        res == char_shown(
            char_image.spec_width(),
            char_image.spec_height(),
            char_image@,
            known_chars.0@,
            known_chars.1@,
        ),
{
    let (width, height) = char_image.dimensions();
    if width != 7 || height != 7 {
        return Err(SymbolError::Dimensions { width, height });
    }
    let chars = &known_chars.0;
    let fonts = &known_chars.1;
    if fonts.len() == 0 || chars.len() != fonts.len() {
        return Err(SymbolError::NoSymbols);
    }
    let img_binary = char_image.threshold(SYMBOL_THRESHOLD);
    let (w, h) = img_binary.dimensions();
    let pixels = img_binary.as_raw();
    let ghost diffs = font_diffs(fonts@, pixels@);
    let mut best: usize = 0;
    let mut best_diff: u32 = font_diff(pixels, &fonts[0]);
    let mut k: usize = 1;
    assert(diffs.take(1).drop_last() =~= diffs.take(0));
    while k < fonts.len()
        invariant
            1 <= k <= fonts.len(),
            fonts == &known_chars.1,
            pixels@.len() == 49,
            diffs == font_diffs(fonts@, pixels@),
            best == nearest(diffs.take(k as int)),
            best < k,
            best_diff == diffs[best as int],
        decreases fonts.len() - k,
    {
        let diff = font_diff(pixels, &fonts[k]);
        proof {
            assert(diffs.take(k + 1).drop_last() =~= diffs.take(k as int));
            assert(diffs.take(k + 1).last() == diffs[k as int]);
            assert(diffs.take(k as int)[best as int] == diffs[best as int]);
        }
        if diff < best_diff {
            best = k;
            best_diff = diff;
        }
        k = k + 1;
    }
    assert(diffs.take(k as int) =~= diffs);
    Ok(chars[best])
}

/// The text of the first `n` characters of a line of text that fills an
/// image, or why the first of them that was not read was not read.
pub open spec fn field_upto(
    width: int,
    height: int,
    pixels: Seq<u8>,
    chars: Seq<char>,
    fonts: Seq<[u8; 49]>,
    n: nat,
) -> Result<Seq<char>, SymbolError>
    decreases n,
{
    if n == 0 {
        Ok(Seq::empty())
    } else {
        match field_upto(width, height, pixels, chars, fonts, (n - 1) as nat) {
            Ok(text) => {
                let cell = line_cell(width, height, n - 1);
                match char_shown(
                    cell.width as int,
                    cell.height as int,
                    region_pixels(pixels, width, cell),
                    chars,
                    fonts,
                ) {
                    Ok(c) => Ok(text.push(c)),
                    Err(e) => Err(e),
                }
            },
            Err(e) => Err(e),
        }
    }
}

/// The text of a line that fills an image, by the nearest characters.
pub open spec fn field_shown(
    width: int,
    height: int,
    pixels: Seq<u8>,
    chars: Seq<char>,
    fonts: Seq<[u8; 49]>,
) -> Result<Seq<char>, SymbolError> {
    if height != 7 || (width + 1) % 8 != 0 {
        Err(SymbolError::Geometry)
    } else {
        field_upto(width, height, pixels, chars, fonts, ((width + 1) / 8) as nat)
    }
}

/// A character that was not read stays the outcome, however many
/// characters follow.
pub proof fn lemma_field_upto_error_stays(
    width: int,
    height: int,
    pixels: Seq<u8>,
    chars: Seq<char>,
    fonts: Seq<[u8; 49]>,
    n: nat,
    m: nat,
)
    requires
        n <= m,
        field_upto(width, height, pixels, chars, fonts, n) is Err,
    ensures
        field_upto(width, height, pixels, chars, fonts, m) == field_upto(
            width,
            height,
            pixels,
            chars,
            fonts,
            n,
        ),
    decreases m,
{
    if n < m {
        lemma_field_upto_error_stays(width, height, pixels, chars, fonts, n, (m - 1) as nat);
    }
}

/// Returns the text of the best matching characters for an image that is
/// 7 pixels high and holds whole cells, each 7 pixels wide, with one pixel
/// between them.
pub fn match_field(field_image: &GrayImage, known_chars: &(Vec<char>, Vec<[u8; 49]>)) -> (res:
    Result<String, SymbolError>)
    ensures
        symbol_view(res) == field_shown(
            field_image.spec_width(),
            field_image.spec_height(),
            field_image@,
            known_chars.0@,
            known_chars.1@,
        ),
{
    let (width, height) = field_image.dimensions();
    if height != 7 || (width as u64 + 1) % 8 != 0 {
        return Err(SymbolError::Geometry);
    }
    let num_chars: u64 = (width as u64 + 1) / 8;
    let mut field_string = String::new();
    let mut i: u64 = 0;
    while i < num_chars
        invariant
            i <= num_chars,
            num_chars == (width + 1) / 8,
            width == field_image.spec_width(),
            height == field_image.spec_height(),
            height == 7,
            (width + 1) % 8 == 0,
            field_upto(
                width as int,
                height as int,
                field_image@,
                known_chars.0@,
                known_chars.1@,
                i as nat,
            ) == Ok::<Seq<char>, SymbolError>(field_string@),
        decreases num_chars - i,
    {
        let x_char: u32 = (i * 8) as u32;
        let img_char = crop(field_image, x_char, 0, 7, 7);
        proof {
            let (w, h) = (width as int, height as int);
            let (chars, fonts) = (known_chars.0@, known_chars.1@);
            if field_upto(w, h, field_image@, chars, fonts, (i + 1) as nat) is Err {
                lemma_field_upto_error_stays(
                    w,
                    h,
                    field_image@,
                    chars,
                    fonts,
                    (i + 1) as nat,
                    num_chars as nat,
                );
            }
        }
        match match_char(&img_char, known_chars) {
            Ok(found_char) => {
                push_char(&mut field_string, found_char);
            },
            Err(e) => {
                return Err(e);
            },
        }
        i = i + 1;
    }
    Ok(field_string)
}

/// The text of the field `pos` of an image by the nearest characters. A
/// field that leaves the image is cut at its border.
pub open spec fn field_of(
    width: int,
    height: int,
    pixels: Seq<u8>,
    pos: Position,
    chars: Seq<char>,
    fonts: Seq<[u8; 49]>,
) -> Result<Seq<char>, SymbolError> {
    let part = clamped(pos.x, pos.y, pos.width, pos.height, width, height);
    field_shown(part.width as int, part.height as int, region_pixels(pixels, width, part), chars, fonts)
}

/// Reads the field `pos` of an image by the nearest characters.
fn match_section(img: &GrayImage, pos: &Position, symbols: &(Vec<char>, Vec<[u8; 49]>)) -> (res:
    Result<String, SymbolError>)
    ensures
        symbol_view(res) == field_of(
            img.spec_width(),
            img.spec_height(),
            img@,
            *pos,
            symbols.0@,
            symbols.1@,
        ),
{
    let part = crop(img, pos.x, pos.y, pos.width, pos.height);
    match_field(&part, symbols)
}

/// The fields of the first page of the stats screen as text: the number
/// in the index, the level and the five stats.
pub struct StatsText {
    pub pkmn_no: String,
    pub level: String,
    pub hp: String,
    pub attack: String,
    pub defense: String,
    pub speed: String,
    pub special: String,
}

/// The fields of the first page of the stats screen, each text as its
/// characters.
pub struct StatsTextView {
    pub pkmn_no: Seq<char>,
    pub level: Seq<char>,
    pub hp: Seq<char>,
    pub attack: Seq<char>,
    pub defense: Seq<char>,
    pub speed: Seq<char>,
    pub special: Seq<char>,
}

impl View for StatsText {
    type V = StatsTextView;

    open spec fn view(&self) -> StatsTextView {
        StatsTextView {
            pkmn_no: self.pkmn_no@,
            level: self.level@,
            hp: self.hp@,
            attack: self.attack@,
            defense: self.defense@,
            speed: self.speed@,
            special: self.special@,
        }
    }
}

/// The text of the fields of the first page of the stats screen by the
/// nearest characters, or the first reason in the order of the fields why
/// it was not read.
pub open spec fn stats_text(
    layout: StatScreen1Layout,
    width: int,
    height: int,
    pixels: Seq<u8>,
    chars: Seq<char>,
    fonts: Seq<[u8; 49]>,
) -> Result<StatsTextView, SymbolError> {
    if width != layout.width || height != layout.height {
        Err(SymbolError::Dimensions { width: width as u32, height: height as u32 })
    } else {
        match (
            field_of(width, height, pixels, layout.pkmn_ndex_pos, chars, fonts),
            field_of(width, height, pixels, layout.level_field_pos, chars, fonts),
            field_of(width, height, pixels, layout.hp_field_pos, chars, fonts),
            field_of(width, height, pixels, layout.attack_field_pos, chars, fonts),
            field_of(width, height, pixels, layout.defense_field_pos, chars, fonts),
            field_of(width, height, pixels, layout.speed_field_pos, chars, fonts),
            field_of(width, height, pixels, layout.special_field_pos, chars, fonts),
        ) {
            (Err(e), _, _, _, _, _, _) => Err(e),
            (Ok(_), Err(e), _, _, _, _, _) => Err(e),
            (Ok(_), Ok(_), Err(e), _, _, _, _) => Err(e),
            (Ok(_), Ok(_), Ok(_), Err(e), _, _, _) => Err(e),
            (Ok(_), Ok(_), Ok(_), Ok(_), Err(e), _, _) => Err(e),
            (Ok(_), Ok(_), Ok(_), Ok(_), Ok(_), Err(e), _) => Err(e),
            (Ok(_), Ok(_), Ok(_), Ok(_), Ok(_), Ok(_), Err(e)) => Err(e),
            (Ok(pkmn_no), Ok(level), Ok(hp), Ok(attack), Ok(defense), Ok(speed), Ok(special)) => Ok(
                StatsTextView { pkmn_no, level, hp, attack, defense, speed, special },
            ),
        }
    }
}

/// Reads the text of the fields of the first page of the stats screen by
/// the nearest characters, as it stands there.
pub fn read_text(
    img: &GrayImage,
    layout: &StatScreen1Layout,
    symbols: &(Vec<char>, Vec<[u8; 49]>),
) -> (res: Result<StatsText, SymbolError>)
    ensures
        match res {
            Ok(t) => stats_text(
                *layout,
                img.spec_width(),
                img.spec_height(),
                img@,
                symbols.0@,
                symbols.1@,
            ) == Ok::<StatsTextView, SymbolError>(t@),
            Err(e) => stats_text(
                *layout,
                img.spec_width(),
                img.spec_height(),
                img@,
                symbols.0@,
                symbols.1@,
            ) == Err::<StatsTextView, SymbolError>(e),
        },
{
    if img.width() as i64 != layout.width as i64 || img.height() as i64 != layout.height as i64 {
        return Err(SymbolError::Dimensions { width: img.width(), height: img.height() });
    }
    let pkmn_no = match_section(img, &layout.pkmn_ndex_pos, symbols)?;
    let level = match_section(img, &layout.level_field_pos, symbols)?;
    let hp = match_section(img, &layout.hp_field_pos, symbols)?;
    let attack = match_section(img, &layout.attack_field_pos, symbols)?;
    let defense = match_section(img, &layout.defense_field_pos, symbols)?;
    let speed = match_section(img, &layout.speed_field_pos, symbols)?;
    let special = match_section(img, &layout.special_field_pos, symbols)?;
    Ok(StatsText { pkmn_no, level, hp, attack, defense, speed, special })
}

} // verus!
