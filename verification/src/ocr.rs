//! Reading text off the screen.
//!
//! A character occupies 7 by 7 pixels. Its pixels are packed into one
//! number, the fingerprint, and the character is the one that the table
//! holds for exactly that fingerprint. A line of text is a row of such
//! cells with one pixel between them.
//!
//! Only exact matches count: a cell that differs from every known glyph in
//! a single pixel is not recognized, so that no digit is ever guessed.

use crate::glyphs::{
    glyph_pixels, gsc_atlas_fits, gsc_entries, gsc_glyphs, rby_atlas_fits, rby_entries, rby_glyphs,
};
use crate::position::Position;
use crate::raster::GrayImage;
use crate::roi::{lies_within, region_pixels, Roi};
use crate::text::str_eq;
use std::collections::HashMap;
use vstd::arithmetic::power2::{lemma2_to64, lemma2_to64_rest, lemma_pow2_unfold, pow2};
use vstd::prelude::*;
use vstd::string::StringExecFns;

verus! {

/// 1 for a foreground pixel, which is any pixel that is not 0, and 0 for a
/// background pixel.
pub open spec fn pixel_bit(pixel: u8) -> u64 {
    if pixel != 0 {
        1
    } else {
        0
    }
}

/// The first `n` pixels packed into a number: pixel `i` is bit `i`, the
/// first pixel the lowest bit.
pub open spec fn fingerprint_upto(pixels: Seq<u8>, n: nat) -> u64
    decreases n,
{
    if n == 0 {
        0
    } else {
        fingerprint_upto(pixels, (n - 1) as nat) | (pixel_bit(pixels[n - 1]) << ((n - 1) as u64))
    }
}

/// The fingerprint of the 49 pixels of a character cell, given row by row.
pub open spec fn fingerprint(pixels: Seq<u8>) -> u64 {
    fingerprint_upto(pixels, 49)
}

/// The number of bits of `v` that are set.
pub open spec fn count_ones(v: u64) -> nat
    decreases v,
{
    if v == 0 {
        0
    } else {
        (v % 2) as nat + count_ones(v / 2)
    }
}

/// Why no character was read.
#[derive(Debug, Copy, Clone, PartialEq, Eq, Structural)]
pub enum CharError {
    /// There are not exactly 49 pixels.
    PixelCount { got: usize },
    /// The region is not 7 pixels wide and 7 pixels high.
    RegionSize { width: u32, height: u32 },
    /// The region reaches beyond the image.
    OutOfBounds,
    /// The table holds no character for the fingerprint of the region.
    NotRecognized,
}

/// Why no line of text was read.
#[derive(Debug, Copy, Clone, PartialEq, Eq, Structural)]
pub enum FieldError {
    /// The field is not 7 pixels high.
    Height { height: u32 },
    /// The field is not made of whole character cells: its width and one
    /// more is no multiple of 8.
    Width { width: u32 },
    /// The character with this index, counted from 0, was not read.
    Character { index: u32, cause: CharError },
}

/// The outcome of an encoding with the fingerprint in place of the bitmap.
pub open spec fn bitmap_view(res: Result<CharBitmap, CharError>) -> Result<u64, CharError> {
    match res {
        Ok(bitmap) => Ok(bitmap@),
        Err(e) => Err(e),
    }
}

/// The outcome of a reading with the characters in place of the string.
pub open spec fn label_view(res: Result<&'static str, CharError>) -> Result<Seq<char>, CharError> {
    match res {
        Ok(label) => Ok(label@),
        Err(e) => Err(e),
    }
}

/// The outcome of a reading with the characters in place of the string.
pub open spec fn text_view(res: Result<String, FieldError>) -> Result<Seq<char>, FieldError> {
    match res {
        Ok(text) => Ok(text@),
        Err(e) => Err(e),
    }
}

/// The first pixels of a cell make a number below the next power of two.
pub proof fn lemma_fingerprint_bound(pixels: Seq<u8>, n: nat)
    requires
        n <= 49,
    ensures
        fingerprint_upto(pixels, n) < (1u64 << (n as u64)),
    decreases n,
{
    if n == 0 {
        assert(0 < (1u64 << 0u64)) by (bit_vector);
    } else {
        lemma_fingerprint_bound(pixels, (n - 1) as nat);
        let a = fingerprint_upto(pixels, (n - 1) as nat);
        let b = pixel_bit(pixels[n - 1]);
        let m = (n - 1) as u64;
        assert((a | (b << m)) < (1u64 << ((m + 1) as u64))) by (bit_vector)
            requires
                a < (1u64 << m),
                b <= 1,
                m < 49,
        ;
    }
}

/// Encodes the binary image of a text character as a number.
///
/// A character occupies a 7 by 7 region of the image. The n-th bit of the
/// number is the n-th pixel in row-major order. The bits of the background
/// are 0; a pixel that is not 0 belongs to the foreground.
#[derive(Debug, Copy, Clone, PartialEq, Eq, Hash, Structural)]
pub struct CharBitmap(u64);

impl View for CharBitmap {
    type V = u64;

    /// The fingerprint.
    closed spec fn view(&self) -> u64 {
        self.0
    }
}

/// The first number that is no fingerprint: two to the power of 49.
pub const FINGERPRINT_LIMIT: u64 = 0x0002_0000_0000_0000;

impl CharBitmap {
    #[verifier::type_invariant]
    spec fn in_range(&self) -> bool {
        self.0 < FINGERPRINT_LIMIT
    }

    /// The bitmap with the given fingerprint, or `None` where the number
    /// has a bit beyond the 49 pixels.
    pub fn from_bits(bits: u64) -> (res: Option<CharBitmap>)
        ensures
            res is Some <==> bits < FINGERPRINT_LIMIT,
            res matches Some(bitmap) ==> bitmap@ == bits,
    {
        if bits < FINGERPRINT_LIMIT {
            Some(CharBitmap(bits))
        } else {
            None
        }
    }

    /// The fingerprint.
    pub fn bits(&self) -> (bits: u64)
        ensures
            bits == self@,
            bits < FINGERPRINT_LIMIT,
    {
        proof {
            use_type_invariant(self);
        }
        self.0
    }

    /// Encodes the sequence of pixels.
    pub fn from_pixels(pixels: &[u8]) -> (res: Result<CharBitmap, CharError>)
        ensures
            match res {
                Ok(bitmap) => pixels@.len() == 49 && bitmap@ == fingerprint(pixels@) && bitmap@
                    < FINGERPRINT_LIMIT,
                Err(e) => pixels@.len() != 49 && e == (CharError::PixelCount {
                    got: pixels@.len() as usize,
                }),
            },
    {
        if pixels.len() != 49 {
            return Err(CharError::PixelCount { got: pixels.len() });
        }
        let mut bitmap: u64 = 0;
        let mut idx: usize = 0;
        while idx < 49
            invariant
                idx <= 49,
                pixels@.len() == 49,
                bitmap == fingerprint_upto(pixels@, idx as nat),
            decreases 49 - idx,
        {
            let bit: u64 = if pixels[idx] != 0 {
                1
            } else {
                0
            };
            bitmap = bitmap | (bit << (idx as u64));
            idx = idx + 1;
        }
        proof {
            lemma_fingerprint_bound(pixels@, 49);
            assert((1u64 << 49u64) == 0x0002_0000_0000_0000u64) by (bit_vector);
        }
        Ok(CharBitmap(bitmap))
    }

    /// Encodes the pixels of the region `pos` of the image.
    pub fn from_roi(img: &GrayImage, pos: &Position) -> (res: Result<CharBitmap, CharError>)
        ensures
            bitmap_view(res) == cell_fingerprint(img.spec_width(), img.spec_height(), img@, *pos),
    {
        if pos.width != 7 || pos.height != 7 {
            return Err(CharError::RegionSize { width: pos.width, height: pos.height });
        }
        match Roi::new(img, *pos) {
            Ok(roi) => {
                let pixels = roi.pixels();
                match CharBitmap::from_pixels(pixels.as_slice()) {
                    Ok(bitmap) => Ok(bitmap),
                    Err(e) => Err(e),
                }
            },
            Err(_) => Err(CharError::OutOfBounds),
        }
    }

    /// Returns the number of bits in which the two bitmaps differ.
    pub fn hamming_dist(&self, rhs: &CharBitmap) -> (dist: u32)
        ensures
            dist == count_ones(self@ ^ rhs@),
            dist <= 64,
    {
        let mut diff: u64 = self.0 ^ rhs.0;
        let mut dist: u32 = 0;
        proof {
            lemma2_to64_rest();
            lemma_count_ones_bound(diff, 64);
        }
        while diff != 0
            invariant
                dist + count_ones(diff) == count_ones(self@ ^ rhs@),
                count_ones(self@ ^ rhs@) <= 64,
            decreases diff,
        {
            let low = diff & 1;
            assert(low == diff % 2 && diff >> 1 == diff / 2) by (bit_vector)
                requires
                    low == diff & 1,
            ;
            dist = dist + (low as u32);
            diff = diff >> 1;
        }
        dist
    }
}

/// The fingerprint of the region `pos` of an image of `width` by `height`
/// pixels, which must be a character cell within the image.
pub open spec fn cell_fingerprint(width: int, height: int, pixels: Seq<u8>, pos: Position) -> Result<
    u64,
    CharError,
> {
    if pos.width != 7 || pos.height != 7 {
        Err(CharError::RegionSize { width: pos.width, height: pos.height })
    } else if !lies_within(pos, width, height) {
        Err(CharError::OutOfBounds)
    } else {
        Ok(fingerprint(region_pixels(pixels, width, pos)))
    }
}

/// Only 0 has no bit set.
proof fn lemma_count_ones_zero(v: u64)
    ensures
        count_ones(v) == 0 <==> v == 0,
    decreases v,
{
    if v != 0 {
        lemma_count_ones_zero(v / 2);
    }
}

/// Two fingerprints differ in no bit exactly if they are equal.
pub proof fn lemma_hamming_zero(a: u64, b: u64)
    ensures
        count_ones(a ^ b) == 0 <==> a == b,
{
    lemma_count_ones_zero(a ^ b);
    assert((a ^ b) == 0 <==> a == b) by (bit_vector);
}

/// A number below two to the power of `bits` has at most `bits` bits set.
pub proof fn lemma_count_ones_bound(v: u64, bits: nat)
    requires
        v < pow2(bits),
    ensures
        count_ones(v) <= bits,
    decreases bits,
{
    if v != 0 {
        if bits == 0 {
            lemma2_to64();
        } else {
            lemma_pow2_unfold(bits);
            lemma_count_ones_bound(v / 2, (bits - 1) as nat);
        }
    }
}

/// Enables to decode a character on the screen: the character for each
/// known fingerprint.
///
/// It is built once and only read afterwards.
pub struct CharTable {
    chars: HashMap<u64, &'static str>,
}

impl View for CharTable {
    type V = Map<u64, Seq<char>>;

    /// The characters by fingerprint.
    closed spec fn view(&self) -> Map<u64, Seq<char>> {
        self.chars@.map_values(|label: &'static str| label@)
    }
}

/// Why no table was made.
#[derive(Debug, Copy, Clone, PartialEq, Eq, Structural)]
pub enum TableError {
    /// A picture of the glyphs is too small to hold them all.
    AtlasTooSmall,
    /// The entry with this index has the fingerprint of an earlier entry
    /// and another character.
    Conflict { index: usize },
}

/// The fingerprint and the characters of each entry of a list.
pub open spec fn entries_view(entries: Seq<(CharBitmap, &'static str)>) -> Seq<(u64, Seq<char>)> {
    entries.map_values(|e: (CharBitmap, &'static str)| (e.0@, e.1@))
}

/// Whether the entry `index` has the fingerprint of an earlier entry and
/// another character.
pub open spec fn conflicts_at(entries: Seq<(u64, Seq<char>)>, index: int) -> bool {
    exists|j: int| 0 <= j < index && entries[j].0 == entries[index].0 && entries[j].1 != entries[index].1
}

/// Whether no two entries have one fingerprint and different characters.
pub open spec fn consistent(entries: Seq<(u64, Seq<char>)>) -> bool {
    forall|i: int| 0 <= i < entries.len() ==> !conflicts_at(entries, i)
}

/// Whether every key of a table is a fingerprint: a number of 49 bits.
pub open spec fn all_fingerprints(chars: Map<u64, Seq<char>>) -> bool {
    forall|bits: u64| chars.contains_key(bits) ==> bits < FINGERPRINT_LIMIT
}

/// The table that holds the entries: each fingerprint with its characters.
pub open spec fn table_of(entries: Seq<(u64, Seq<char>)>) -> Map<u64, Seq<char>>
    decreases entries.len(),
{
    if entries.len() == 0 {
        Map::empty()
    } else {
        table_of(entries.drop_last()).insert(entries.last().0, entries.last().1)
    }
}

/// The table of consistent entries holds each entry, and nothing else.
pub proof fn lemma_table_of(entries: Seq<(u64, Seq<char>)>)
    requires
        consistent(entries),
    ensures
        forall|i: int|
            0 <= i < entries.len() ==> table_of(entries).contains_key(#[trigger] entries[i].0)
                && table_of(entries)[entries[i].0] == entries[i].1,
        forall|k: u64| #[trigger]
            table_of(entries).contains_key(k) ==> exists|i: int|
                0 <= i < entries.len() && entries[i].0 == k,
    decreases entries.len(),
{
    if entries.len() > 0 {
        let rest = entries.drop_last();
        let last = entries.len() - 1;
        assert forall|i: int| 0 <= i < rest.len() implies !conflicts_at(rest, i) by {
            if conflicts_at(rest, i) {
                let j = choose|j: int|
                    0 <= j < i && rest[j].0 == rest[i].0 && rest[j].1 != rest[i].1;
                assert(entries[j] == rest[j] && entries[i] == rest[i]);
                assert(conflicts_at(entries, i));
            }
        }
        lemma_table_of(rest);
        assert forall|i: int| 0 <= i < entries.len() implies table_of(entries).contains_key(
            #[trigger] entries[i].0,
        ) && table_of(entries)[entries[i].0] == entries[i].1 by {
            if i < last {
                assert(entries[i] == rest[i]);
                if entries[i].0 == entries[last].0 && entries[i].1 != entries[last].1 {
                    assert(conflicts_at(entries, last));
                }
            }
        }
        assert forall|k: u64| #[trigger] table_of(entries).contains_key(k) implies exists|i: int|
            0 <= i < entries.len() && entries[i].0 == k by {
            if k == entries[last].0 {
                assert(entries[last].0 == k);
            } else {
                assert(table_of(rest).contains_key(k));
                let i = choose|i: int| 0 <= i < rest.len() && rest[i].0 == k;
                assert(entries[i] == rest[i]);
            }
        }
    }
}

/// The entries of the table of both generations, those of the first
/// generation first.
pub open spec fn table_entries(
    rby_width: int,
    rby_pixels: Seq<u8>,
    gsc_width: int,
    gsc_pixels: Seq<u8>,
) -> Seq<(u64, Seq<char>)> {
    rby_entries(rby_width, glyph_pixels(rby_pixels)) + gsc_entries(
        gsc_width,
        glyph_pixels(gsc_pixels),
    )
}

impl CharTable {
    /// Makes the table of both generations from the pictures of their
    /// naming screens: the upper case letters, the digits, the space, the
    /// hyphen and the slash.
    ///
    /// The pictures are binarized and inverted here. There is no table
    /// where a picture is too small to hold its glyphs, or where two glyphs
    /// with one fingerprint stand for different characters.
    pub fn new(rby_atlas: &GrayImage, gsc_atlas: &GrayImage) -> (res: Result<CharTable, TableError>)
        ensures
            ({
                let fits = rby_atlas_fits(rby_atlas.spec_width(), rby_atlas.spec_height())
                    && gsc_atlas_fits(gsc_atlas.spec_width(), gsc_atlas.spec_height());
                let entries = table_entries(
                    rby_atlas.spec_width(),
                    rby_atlas@,
                    gsc_atlas.spec_width(),
                    gsc_atlas@,
                );
                match res {
                    Ok(table) => fits && consistent(entries) && table@ == table_of(entries)
                        && all_fingerprints(table@),
                    Err(TableError::AtlasTooSmall) => !fits,
                    Err(TableError::Conflict { index }) => {
                        &&& fits
                        &&& index < entries.len()
                        &&& conflicts_at(entries, index as int)
                        &&& consistent(entries.take(index as int))
                    },
                }
            }),
    {
        let mut entries = match rby_glyphs(rby_atlas) {
            Ok(entries) => entries,
            Err(e) => {
                return Err(e);
            },
        };
        let gsc = match gsc_glyphs(gsc_atlas) {
            Ok(entries) => entries,
            Err(e) => {
                return Err(e);
            },
        };
        let ghost rby = entries@;
        let mut i: usize = 0;
        assert(entries_view(entries@) =~= entries_view(rby) + entries_view(gsc@).take(0));
        while i < gsc.len()
            invariant
                i <= gsc.len(),
                entries_view(entries@) == entries_view(rby) + entries_view(gsc@).take(i as int),
            decreases gsc.len() - i,
        {
            let ghost before = entries@;
            entries.push(gsc[i]);
            assert(entries_view(entries@) =~= entries_view(before).push(
                entries_view(gsc@)[i as int],
            ));
            assert(entries_view(gsc@).take(i + 1) =~= entries_view(gsc@).take(i as int).push(
                entries_view(gsc@)[i as int],
            ));
            assert(entries_view(entries@) =~= entries_view(rby) + entries_view(gsc@).take(i + 1));
            i = i + 1;
        }
        assert(entries_view(gsc@).take(i as int) =~= entries_view(gsc@));
        Self::from_entries(&entries)
    }

    /// Makes the table that holds the entries, or fails at the first entry
    /// that has the fingerprint of an earlier one and another character.
    pub fn from_entries(entries: &Vec<(CharBitmap, &'static str)>) -> (res: Result<
        CharTable,
        TableError,
    >)
        ensures
            match res {
                Ok(table) => consistent(entries_view(entries@)) && table@ == table_of(
                    entries_view(entries@),
                ) && all_fingerprints(table@),
                Err(TableError::Conflict { index }) => {
                    &&& index < entries@.len()
                    &&& conflicts_at(entries_view(entries@), index as int)
                    &&& consistent(entries_view(entries@).take(index as int))
                },
                Err(TableError::AtlasTooSmall) => false,
            },
    {
        broadcast use vstd::std_specs::hash::group_hash_axioms;

        let ghost all = entries_view(entries@);
        let mut chars: HashMap<u64, &'static str> = HashMap::new();
        let mut i: usize = 0;
        assert(chars@.map_values(|label: &'static str| label@) =~= table_of(all.take(0)));
        while i < entries.len()
            invariant
                i <= entries.len(),
                all == entries_view(entries@),
                consistent(all.take(i as int)),
                chars@.map_values(|label: &'static str| label@) == table_of(all.take(i as int)),
                forall|bits: u64| chars@.contains_key(bits) ==> bits < FINGERPRINT_LIMIT,
            decreases entries.len() - i,
        {
            let (bitmap, label) = entries[i];
            let bits = bitmap.bits();
            let ghost before = all.take(i as int);
            let ghost after = all.take(i + 1);
            proof {
                assert(after.drop_last() =~= before);
                assert(after.last() == (bitmap@, label@));
                lemma_table_of(before);
            }
            match chars.get(&bitmap.0) {
                Some(known) => {
                    if !str_eq(*known, label) {
                        proof {
                            let mapped = chars@.map_values(|label: &'static str| label@);
                            assert(chars@.contains_key(bitmap.0));
                            assert(mapped.contains_key(bitmap.0));
                            assert(mapped[bitmap.0] == known@);
                            assert(table_of(before).contains_key(bitmap@));
                            let j = choose|j: int| 0 <= j < before.len() && before[j].0 == bitmap@;
                            assert(table_of(before).contains_key(before[j].0));
                            assert(all[j] == before[j]);
                            assert(all[i as int] == (bitmap@, label@));
                            assert(conflicts_at(all, i as int));
                        }
                        return Err(TableError::Conflict { index: i });
                    }
                },
                None => {},
            }
            proof {
                assert forall|k: int| 0 <= k < after.len() implies !conflicts_at(after, k) by {
                    if conflicts_at(after, k) {
                        let j = choose|j: int|
                            0 <= j < k && after[j].0 == after[k].0 && after[j].1 != after[k].1;
                        assert(after[j] == before[j]);
                        if k < i {
                            assert(after[k] == before[k]);
                            assert(conflicts_at(before, k));
                        } else {
                            assert(table_of(before).contains_key(before[j].0));
                        }
                    }
                }
            }
            chars.insert(bitmap.0, label);
            assert(chars@.map_values(|label: &'static str| label@) =~= table_of(after));
            i = i + 1;
        }
        assert(all.take(i as int) =~= all);
        Ok(CharTable { chars })
    }

    /// The number of fingerprints that the table knows.
    pub fn len(&self) -> (n: usize)
        ensures
            n == self@.dom().len(),
    {
        broadcast use vstd::std_specs::hash::group_hash_axioms;

        assert(self@.dom() =~= self.chars@.dom());
        self.chars.len()
    }

    /// Returns the character with the given bitmap, if the table knows it.
    pub fn get(&self, bitmap: &CharBitmap) -> (label: Option<&'static str>)
        ensures
            match label {
                Some(l) => self@.contains_key(bitmap@) && l@ == self@[bitmap@],
                None => !self@.contains_key(bitmap@),
            },
    {
        broadcast use vstd::std_specs::hash::group_hash_axioms;

        match self.chars.get(&bitmap.0) {
            Some(label) => Some(*label),
            None => None,
        }
    }
}

/// The character that the 7 by 7 region `pos` of an image shows by the
/// table `chars`.
pub open spec fn char_at(
    width: int,
    height: int,
    pixels: Seq<u8>,
    pos: Position,
    chars: Map<u64, Seq<char>>,
) -> Result<Seq<char>, CharError> {
    match cell_fingerprint(width, height, pixels, pos) {
        Ok(bits) => if chars.contains_key(bits) {
            Ok(chars[bits])
        } else {
            Err(CharError::NotRecognized)
        },
        Err(e) => Err(e),
    }
}

/// Reads a character from a region of an image that is 7 pixels wide and
/// high.
///
/// The character is the one whose fingerprint the region has pixel by
/// pixel; there is no nearest match.
pub fn read_char(img: &GrayImage, pos: &Position, chars: &CharTable) -> (res: Result<
    &'static str,
    CharError,
>)
    ensures
        label_view(res) == char_at(img.spec_width(), img.spec_height(), img@, *pos, chars@),
{
    match CharBitmap::from_roi(img, pos) {
        Ok(bitmap) => match chars.get(&bitmap) {
            Some(label) => Ok(label),
            None => Err(CharError::NotRecognized),
        },
        Err(e) => Err(e),
    }
}

/// The number of character cells of a field that is `width` pixels wide.
pub open spec fn cell_count(width: int) -> int {
    (width + 1) / 8
}

/// The cell of the character with index `index` in the field `pos`, or
/// `None` where it lies beyond every image.
pub open spec fn cell_of(pos: Position, index: int) -> Option<Position> {
    if pos.x + 8 * index <= u32::MAX {
        Some(Position { x: (pos.x + 8 * index) as u32, y: pos.y, width: 7, height: 7 })
    } else {
        None
    }
}

/// The character with index `index` of the field `pos`.
pub open spec fn field_char(
    width: int,
    height: int,
    pixels: Seq<u8>,
    pos: Position,
    chars: Map<u64, Seq<char>>,
    index: int,
) -> Result<Seq<char>, CharError> {
    match cell_of(pos, index) {
        Some(cell) => char_at(width, height, pixels, cell, chars),
        None => Err(CharError::OutOfBounds),
    }
}

/// The text of the first `n` cells of the field `pos`, or the first
/// character among them that was not read.
pub open spec fn field_text_upto(
    width: int,
    height: int,
    pixels: Seq<u8>,
    pos: Position,
    chars: Map<u64, Seq<char>>,
    n: nat,
) -> Result<Seq<char>, FieldError>
    decreases n,
{
    if n == 0 {
        Ok(Seq::empty())
    } else {
        match field_text_upto(width, height, pixels, pos, chars, (n - 1) as nat) {
            Ok(text) => match field_char(width, height, pixels, pos, chars, n - 1) {
                Ok(label) => Ok(text + label),
                Err(cause) => Err(FieldError::Character { index: (n - 1) as u32, cause }),
            },
            Err(e) => Err(e),
        }
    }
}

/// A character that was not read stays the outcome, however many cells
/// follow.
pub proof fn lemma_field_error_stays(
    width: int,
    height: int,
    pixels: Seq<u8>,
    pos: Position,
    chars: Map<u64, Seq<char>>,
    n: nat,
    m: nat,
)
    requires
        n <= m,
        field_text_upto(width, height, pixels, pos, chars, n) is Err,
    ensures
        field_text_upto(width, height, pixels, pos, chars, m) == field_text_upto(
            width,
            height,
            pixels,
            pos,
            chars,
            n,
        ),
    decreases m,
{
    if n < m {
        lemma_field_error_stays(width, height, pixels, pos, chars, n, (m - 1) as nat);
    }
}

/// Whether a region is a line of text: 7 pixels high and made of whole
/// character cells, each 7 pixels wide, with one pixel between them.
pub open spec fn is_field(pos: Position) -> bool {
    pos.height == 7 && (pos.width + 1) % 8 == 0
}

/// The text of the field `pos` of an image by the table `chars`.
pub open spec fn field_text(
    width: int,
    height: int,
    pixels: Seq<u8>,
    pos: Position,
    chars: Map<u64, Seq<char>>,
) -> Result<Seq<char>, FieldError> {
    if pos.height != 7 {
        Err(FieldError::Height { height: pos.height })
    } else if (pos.width + 1) % 8 != 0 {
        Err(FieldError::Width { width: pos.width })
    } else {
        field_text_upto(width, height, pixels, pos, chars, cell_count(pos.width as int) as nat)
    }
}

/// Reads one line of text from the image.
///
/// A character is 7 pixels wide and high, and a single pixel lies between
/// two characters. Reading stops at the first character that is not
/// recognized.
pub fn read_field(img: &GrayImage, pos: &Position, chars: &CharTable) -> (res: Result<
    String,
    FieldError,
>)
    ensures
        text_view(res) == field_text(img.spec_width(), img.spec_height(), img@, *pos, chars@),
{
    if pos.height != 7 {
        return Err(FieldError::Height { height: pos.height });
    }
    if (pos.width as u64 + 1) % 8 != 0 {
        return Err(FieldError::Width { width: pos.width });
    }
    let char_count: u64 = (pos.width as u64 + 1) / 8;
    let mut result = String::new();
    let mut i: u64 = 0;
    while i < char_count
        invariant
            i <= char_count,
            char_count == cell_count(pos.width as int),
            char_count <= 0x2000_0000,
            pos.height == 7,
            (pos.width + 1) % 8 == 0,
            field_text_upto(
                img.spec_width(),
                img.spec_height(),
                img@,
                *pos,
                chars@,
                i as nat,
            ) == Ok::<Seq<char>, FieldError>(result@),
        decreases char_count - i,
    {
        let x: u64 = pos.x as u64 + i * 8;
        proof {
            let (w, h) = (img.spec_width(), img.spec_height());
            if field_text_upto(w, h, img@, *pos, chars@, (i + 1) as nat) is Err {
                lemma_field_error_stays(w, h, img@, *pos, chars@, (i + 1) as nat, char_count as nat);
            }
        }
        if x > u32::MAX as u64 {
            return Err(FieldError::Character { index: i as u32, cause: CharError::OutOfBounds });
        }
        let char_pos = Position { x: x as u32, y: pos.y, width: 7, height: 7 };
        match read_char(img, &char_pos, chars) {
            Ok(label) => {
                result.append(label);
            },
            Err(cause) => {
                return Err(FieldError::Character { index: i as u32, cause });
            },
        }
        i = i + 1;
    }
    Ok(result)
}

/// The characters of the first generation by fingerprint.
pub struct Charset {
    table: CharTable,
}

impl View for Charset {
    type V = Map<u64, Seq<char>>;

    /// The characters by fingerprint.
    closed spec fn view(&self) -> Map<u64, Seq<char>> {
        self.table@
    }
}

impl Charset {
    /// Makes the table of the first generation from the picture of its
    /// naming screen: the upper case letters, the digits, the space, the
    /// hyphen and the slash.
    ///
    /// The picture is binarized and inverted here. There is no table where
    /// the picture is too small to hold the glyphs, or where two glyphs
    /// with one fingerprint stand for different characters.
    pub fn new(atlas: &GrayImage) -> (res: Result<Charset, TableError>)
        ensures
            ({
                let fits = rby_atlas_fits(atlas.spec_width(), atlas.spec_height());
                let entries = rby_entries(atlas.spec_width(), glyph_pixels(atlas@));
                match res {
                    Ok(chars) => fits && consistent(entries) && chars@ == table_of(entries)
                        && all_fingerprints(chars@),
                    Err(TableError::AtlasTooSmall) => !fits,
                    Err(TableError::Conflict { index }) => {
                        &&& fits
                        &&& index < entries.len()
                        &&& conflicts_at(entries, index as int)
                        &&& consistent(entries.take(index as int))
                    },
                }
            }),
    {
        let entries = match rby_glyphs(atlas) {
            Ok(entries) => entries,
            Err(e) => {
                return Err(e);
            },
        };
        match CharTable::from_entries(&entries) {
            Ok(table) => Ok(Charset { table }),
            Err(e) => Err(e),
        }
    }

    /// The table of the characters.
    pub fn table(&self) -> (table: &CharTable)
        ensures
            table@ == self@,
    {
        &self.table
    }
}

/// Makes the region of a line of text, or fails where the region is none:
/// where it is not 7 pixels high, or not made of whole character cells.
pub fn new_field(x: u32, y: u32, width: u32, height: u32) -> (res: Result<Position, FieldError>)
    ensures
        match res {
            Ok(pos) => is_field(pos) && pos == (Position { x, y, width, height }),
            Err(e) => !is_field(Position { x, y, width, height }) && e == if height != 7 {
                FieldError::Height { height }
            } else {
                FieldError::Width { width }
            },
        },
{
    if height != 7 {
        return Err(FieldError::Height { height });
    }
    if (width as u64 + 1) % 8 != 0 {
        return Err(FieldError::Width { width });
    }
    Ok(Position { x, y, width, height })
}

/// A region is read as a line of text only if it is one: 7 pixels high and
/// made of whole character cells. Any other region is refused for its
/// height or its width, whatever the image shows.
pub proof fn lemma_only_fields_are_read(
    width: int,
    height: int,
    pixels: Seq<u8>,
    pos: Position,
    chars: Map<u64, Seq<char>>,
)
    ensures
        field_text(width, height, pixels, pos, chars) is Ok ==> is_field(pos),
        !is_field(pos) ==> field_text(width, height, pixels, pos, chars) == Err::<
            Seq<char>,
            FieldError,
        >(
            if pos.height != 7 {
                FieldError::Height { height: pos.height }
            } else {
                FieldError::Width { width: pos.width }
            },
        ),
{
}

/// Bit `i` of a fingerprint is pixel `i` of the cell.
proof fn lemma_fingerprint_bit(pixels: Seq<u8>, n: nat, i: nat)
    requires
        i < n <= 49,
    ensures
        (fingerprint_upto(pixels, n) >> (i as u64)) & 1 == pixel_bit(pixels[i as int]),
    decreases n,
{
    let a = fingerprint_upto(pixels, (n - 1) as nat);
    let b = pixel_bit(pixels[n - 1]);
    let m = (n - 1) as u64;
    let k = i as u64;
    lemma_fingerprint_bound(pixels, (n - 1) as nat);
    if i == n - 1 {
        assert(((a | (b << m)) >> m) & 1 == b) by (bit_vector)
            requires
                a < (1u64 << m),
                b <= 1,
                m < 49,
        ;
    } else {
        lemma_fingerprint_bit(pixels, (n - 1) as nat, i);
        assert(((a | (b << m)) >> k) & 1 == (a >> k) & 1) by (bit_vector)
            requires
                k < m,
                m < 49,
                b <= 1,
        ;
    }
}

/// Cells with the same pixels up to a place have the same fingerprint up to
/// that place.
proof fn lemma_same_pixels(a: Seq<u8>, b: Seq<u8>, n: nat)
    requires
        forall|i: int| 0 <= i < n ==> pixel_bit(a[i]) == pixel_bit(b[i]),
    ensures
        fingerprint_upto(a, n) == fingerprint_upto(b, n),
    decreases n,
{
    if n > 0 {
        lemma_same_pixels(a, b, (n - 1) as nat);
    }
}

/// Two cells have the same fingerprint exactly if each pixel is foreground
/// in both or background in both.
pub proof fn lemma_fingerprints_equal(a: Seq<u8>, b: Seq<u8>)
    ensures
        fingerprint(a) == fingerprint(b) <==> forall|i: int|
            0 <= i < 49 ==> pixel_bit(a[i]) == pixel_bit(b[i]),
{
    if fingerprint(a) == fingerprint(b) {
        assert forall|i: int| 0 <= i < 49 implies pixel_bit(a[i]) == pixel_bit(b[i]) by {
            lemma_fingerprint_bit(a, 49, i as nat);
            lemma_fingerprint_bit(b, 49, i as nat);
        }
    }
    if forall|i: int| 0 <= i < 49 ==> pixel_bit(a[i]) == pixel_bit(b[i]) {
        lemma_same_pixels(a, b, 49);
    }
}

/// The pixels of the picture of a fingerprint: 7 by 7 pixels, white where
/// the bit of the pixel is set, black elsewhere.
pub open spec fn rendered(bits: u64) -> Seq<u8> {
    Seq::new(
        49,
        |i: int|
            if (bits >> (i as u64)) & 1 == 1 {
                255u8
            } else {
                0u8
            },
    )
}

/// The first pixels of the picture of a fingerprint make the low bits of
/// the fingerprint.
proof fn lemma_rendered_upto(bits: u64, n: nat)
    requires
        n <= 49,
    ensures
        fingerprint_upto(rendered(bits), n) == bits & (((1u64 << (n as u64)) - 1) as u64),
    decreases n,
{
    if n == 0 {
        assert(bits & (((1u64 << 0u64) - 1) as u64) == 0) by (bit_vector);
    } else {
        lemma_rendered_upto(bits, (n - 1) as nat);
        let m = (n - 1) as u64;
        let bit = pixel_bit(rendered(bits)[n - 1]);
        assert(bit == (bits >> m) & 1) by {
            let b = (bits >> m) & 1;
            assert(b == 0 || b == 1) by (bit_vector)
                requires
                    b == (bits >> m) & 1,
            ;
        }
        assert(((bits & (((1u64 << m) - 1) as u64)) | (((bits >> m) & 1) << m)) == bits & (((1u64
            << ((m + 1) as u64)) - 1) as u64)) by (bit_vector)
            requires
                m < 49,
        ;
    }
}

/// The picture of a fingerprint has that fingerprint.
pub proof fn lemma_fingerprint_of_rendered(bits: u64)
    requires
        bits < FINGERPRINT_LIMIT,
    ensures
        fingerprint(rendered(bits)) == bits,
{
    lemma_rendered_upto(bits, 49);
    assert(bits & (((1u64 << 49u64) - 1) as u64) == bits) by (bit_vector)
        requires
            bits < 0x0002_0000_0000_0000u64,
    ;
}

/// The whole of an image of 7 by 7 pixels.
pub open spec fn whole_cell() -> Position {
    Position { x: 0, y: 0, width: 7, height: 7 }
}

/// The pixels of the whole of an image of 7 by 7 pixels are its pixels.
pub proof fn lemma_whole_cell(pixels: Seq<u8>)
    requires
        pixels.len() == 49,
    ensures
        region_pixels(pixels, 7, whole_cell()) == pixels,
{
    reveal_with_fuel(crate::roi::region_rows, 8);
    assert(region_pixels(pixels, 7, whole_cell()) =~= pixels);
}

/// Every character of a table is read back from the picture of its
/// fingerprint: the picture of 7 by 7 pixels that is white where a bit of
/// the fingerprint is set shows exactly that character.
pub proof fn lemma_round_trip(chars: Map<u64, Seq<char>>, bits: u64)
    requires
        all_fingerprints(chars),
        chars.contains_key(bits),
    ensures
        cell_fingerprint(7, 7, rendered(bits), whole_cell()) == Ok::<u64, CharError>(bits),
        char_at(7, 7, rendered(bits), whole_cell(), chars) == Ok::<Seq<char>, CharError>(
            chars[bits],
        ),
{
    lemma_fingerprint_of_rendered(bits);
    lemma_whole_cell(rendered(bits));
}

} // verus!
