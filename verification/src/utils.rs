//! From a picture to the report of what the screen on it shows.

use crate::chains::views;
use crate::gameboy::{locate_screen, located, SCREEN_HEIGHT, SCREEN_WIDTH};
use crate::items::GscItems;
use crate::learnset::{GscLearnsets, RbyLearnsets};
use crate::moves::{GscMoves, Moves};
use crate::moveset::{
    gsc_summary_2_report, rby_summary_2_report, scan_gsc_summary_2, scan_rby_summary_2,
};
use crate::ocr::CharTable;
use crate::pokemon::{GscPokedex, RbyPokedex};
use crate::raster::GrayImage;
use crate::report::{
    gsc_summary_1_report, gsc_summary_3_report, rby_summary_1_report, report_view,
    scan_gsc_summary_1, scan_gsc_summary_3, scan_rby_summary_1, ReportError,
};
use crate::scan::{normalize, normalized, Layouts, ScreenKind};
use vstd::prelude::*;
use vstd::string::{StrSliceExecFns, StringExecFns};

verus! {

/// Everything that is looked up while a picture is read: the character
/// table, the layouts and the tables of both generations. It is built
/// once and only read afterwards.
pub struct Tables {
    pub chars: CharTable,
    pub layouts: Layouts,
    pub rby_pokedex: RbyPokedex,
    pub rby_learnsets: RbyLearnsets,
    pub rby_evo_chains: Vec<String>,
    pub rby_moves: Moves,
    pub gsc_pokedex: GscPokedex,
    pub gsc_learnsets: GscLearnsets,
    pub gsc_evo_chains: Vec<String>,
    pub gsc_moves: GscMoves,
    pub gsc_items: GscItems,
}

impl Tables {
    /// What a screen tells: the report of the first layout that fits.
    pub open spec fn screen_report(&self, width: int, height: int, pixels: Seq<u8>) -> Result<
        Seq<char>,
        ReportError,
    > {
        match self.layouts.recognized(width, height, pixels, self.chars@) {
            None => Err(ReportError::NotRecognized),
            Some(ScreenKind::RbySummary1) => rby_summary_1_report(
                self.layouts.rby_summary_1,
                width,
                height,
                pixels,
                self.chars@,
                self.rby_pokedex@,
            ),
            Some(ScreenKind::RbySummary2) => rby_summary_2_report(
                self.layouts.rby_summary_2,
                width,
                height,
                pixels,
                self.chars@,
                self.rby_pokedex@,
                views(self.rby_evo_chains@),
                self.rby_learnsets@,
                self.rby_moves,
            ),
            Some(ScreenKind::GscSummary1) => gsc_summary_1_report(
                self.layouts.gsc_summary_1,
                width,
                height,
                pixels,
                self.chars@,
                self.gsc_pokedex@,
            ),
            Some(ScreenKind::GscSummary2) => gsc_summary_2_report(
                self.layouts.gsc_summary_2,
                width,
                height,
                pixels,
                self.chars@,
                self.gsc_pokedex@,
                self.gsc_items,
                self.gsc_moves,
                views(self.gsc_evo_chains@),
                self.gsc_learnsets@,
            ),
            Some(ScreenKind::GscSummary3) => gsc_summary_3_report(
                self.layouts.gsc_summary_3,
                width,
                height,
                pixels,
                self.chars@,
                self.gsc_pokedex@,
            ),
        }
    }

    /// What a picture tells.
    pub open spec fn picture_report(&self, width: int, height: int, pixels: Seq<u8>) -> Result<
        Seq<char>,
        ReportError,
    > {
        match located(width, height, pixels) {
            None => Err(ReportError::NoScreen),
            Some(pos) => match normalized(width, height, pixels, pos) {
                None => Err(ReportError::NoScreen),
                Some(screen) => self.screen_report(
                    SCREEN_WIDTH as int,
                    SCREEN_HEIGHT as int,
                    screen,
                ),
            },
        }
    }

    /// Reads a screen and returns what it tells as text that can be
    /// printed.
    ///
    /// Expects a binary image with the text as foreground.
    pub fn scan_screen(&self, img_gameboy: &GrayImage) -> (res: Result<String, ReportError>)
        ensures
            report_view(res) == self.screen_report(
                img_gameboy.spec_width(),
                img_gameboy.spec_height(),
                img_gameboy@,
            ),
    {
        match self.layouts.recognize(img_gameboy, &self.chars) {
            None => Err(ReportError::NotRecognized),
            Some(ScreenKind::RbySummary1) => scan_rby_summary_1(
                img_gameboy,
                &self.layouts.rby_summary_1,
                &self.chars,
                &self.rby_pokedex,
            ),
            Some(ScreenKind::RbySummary2) => scan_rby_summary_2(
                img_gameboy,
                &self.layouts.rby_summary_2,
                &self.chars,
                &self.rby_pokedex,
                &self.rby_evo_chains,
                &self.rby_learnsets,
                &self.rby_moves,
            ),
            Some(ScreenKind::GscSummary1) => scan_gsc_summary_1(
                img_gameboy,
                &self.layouts.gsc_summary_1,
                &self.chars,
                &self.gsc_pokedex,
            ),
            Some(ScreenKind::GscSummary2) => scan_gsc_summary_2(
                img_gameboy,
                &self.layouts.gsc_summary_2,
                &self.chars,
                &self.gsc_pokedex,
                &self.gsc_items,
                &self.gsc_moves,
                &self.gsc_evo_chains,
                &self.gsc_learnsets,
            ),
            Some(ScreenKind::GscSummary3) => scan_gsc_summary_3(
                img_gameboy,
                &self.layouts.gsc_summary_3,
                &self.chars,
                &self.gsc_pokedex,
            ),
        }
    }
}

/// Scans the picture and returns the text that can be printed.
///
/// The first summary screen tells the DVs that fit the stats, the second
/// the moves, the learnsets and the chains of evolution. That the picture
/// shows no screen, and that the screen is none of the known ones, are
/// outcomes of their own.
pub fn scan_img(img_screen: &GrayImage, tables: &Tables) -> (res: Result<String, ReportError>)
    requires
        img_screen.spec_width() <= i32::MAX,
        img_screen.spec_height() <= i32::MAX,
    ensures
        report_view(res) == tables.picture_report(
            img_screen.spec_width(),
            img_screen.spec_height(),
            img_screen@,
        ),
{
    let gameboy_pos = match locate_screen(img_screen) {
        Some(pos) => pos,
        None => {
            return Err(ReportError::NoScreen);
        },
    };
    let img_gameboy = match normalize(img_screen, &gameboy_pos) {
        Some(img) => img,
        None => {
            return Err(ReportError::NoScreen);
        },
    };
    tables.scan_screen(&img_gameboy)
}

/// The text with `<br>` in place of every line feed.
pub open spec fn with_breaks(text: Seq<char>) -> Seq<char>
    decreases text.len(),
{
    if text.len() == 0 {
        Seq::empty()
    } else if text.last() == '\n' {
        with_breaks(text.drop_last()) + "<br>"@
    } else {
        with_breaks(text.drop_last()).push(text.last())
    }
}

/// Returns the text with `<br>` in place of every line feed.
pub fn break_lines(text: &str) -> (out: String)
    ensures
        out@ == with_breaks(text@),
{
    let n = text.unicode_len();
    let mut out = String::new();
    let mut i: usize = 0;
    assert(text@.take(0) =~= Seq::<char>::empty());
    while i < n
        invariant
            i <= n,
            n == text@.len(),
            out@ == with_breaks(text@.take(i as int)),
        decreases n - i,
    {
        assert(text@.take(i + 1).drop_last() =~= text@.take(i as int));
        assert(text@.take(i + 1).last() == text@[i as int]);
        if text.get_char(i) == '\n' {
            out.append("<br>");
        } else {
            let c = text.substring_char(i, i + 1);
            assert(c@ =~= seq![text@[i as int]]);
            out.append(c);
            assert(out@ =~= with_breaks(text@.take(i as int)).push(text@[i as int]));
        }
        i = i + 1;
    }
    assert(text@.take(n as int) =~= text@);
    out
}

/// What the picture of a display tells, given as red, green, blue and
/// opacity of each pixel, with `<br>` for the ends of the lines.
pub open spec fn display_report(tables: Tables, data: Seq<u8>, width: int, height: int) -> Result<
    Seq<char>,
    ReportError,
> {
    if data.len() != 4 * (width * height) || width > i32::MAX || height > i32::MAX {
        Err(ReportError::Dimensions)
    } else {
        match tables.picture_report(width, height, crate::raster::luma_of_rgba(data)) {
            Ok(text) => Ok(with_breaks(text)),
            Err(e) => Err(e),
        }
    }
}

/// Locates the screen on the picture of a display, reads the summary
/// screen and returns what it tells, with `<br>` for the ends of the
/// lines. The picture is given as red, green, blue and opacity of each
/// pixel.
pub fn read_stats_from_screen(data: &Vec<u8>, width: u32, height: u32, tables: &Tables) -> (res:
    Result<String, ReportError>)
    ensures
        report_view(res) == display_report(*tables, data@, width as int, height as int),
{
    if width > i32::MAX as u32 || height > i32::MAX as u32 {
        return Err(ReportError::Dimensions);
    }
    let img_screen = match GrayImage::from_rgba(width, height, data) {
        Some(img) => img,
        None => {
            return Err(ReportError::Dimensions);
        },
    };
    match scan_img(&img_screen, tables) {
        Ok(text_output) => Ok(break_lines(text_output.as_str())),
        Err(e) => Err(e),
    }
}

} // verus!
