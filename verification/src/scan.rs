//! From a picture to what the screen on it shows.
//!
//! The screen is found on the picture, cut out, scaled to its own size,
//! binarized and inverted. The layouts are then tried in a fixed order,
//! and the fields of the first that fits are read.

use crate::gameboy::{locate_screen, located, SCREEN_HEIGHT, SCREEN_WIDTH};
use crate::layout::{
    GscSummary1, GscSummary2, GscSummary3, GscSummaryContent1, GscSummaryContent2,
    GscSummaryContent2View, GscSummaryContent3, LayoutError, RbySummary1, RbySummary2,
    RbySummaryContent, RbySummaryContent2, RbySummaryContent2View,
};
use crate::ocr::CharTable;
use crate::position::Position;
use crate::raster::{inverted, resized_nearest, thresholded, GrayImage};
use crate::roi::{clamped, crop, region_pixels};
use vstd::prelude::*;

verus! {

/// The luminance up to which a pixel of the screen is text.
/// Anything from 30 to 170 reads the screen.
pub const SCREEN_THRESHOLD: u8 = 140;

/// The summary screens that are known.
#[derive(Debug, Copy, Clone, PartialEq, Eq, Structural)]
pub enum ScreenKind {
    RbySummary1,
    RbySummary2,
    GscSummary1,
    GscSummary2,
    GscSummary3,
}

/// What a screen shows.
#[derive(Debug, PartialEq, Clone)]
pub enum ExtractedContent {
    RbySummary1(RbySummaryContent),
    RbySummary2(RbySummaryContent2),
    GscSummary1(GscSummaryContent1),
    GscSummary2(GscSummaryContent2),
    GscSummary3(GscSummaryContent3),
}

/// What a screen shows, each text as its characters.
pub enum ExtractedContentView {
    RbySummary1(RbySummaryContent),
    RbySummary2(RbySummaryContent2View),
    GscSummary1(GscSummaryContent1),
    GscSummary2(GscSummaryContent2View),
    GscSummary3(GscSummaryContent3),
}

impl View for ExtractedContent {
    type V = ExtractedContentView;

    open spec fn view(&self) -> ExtractedContentView {
        match self {
            ExtractedContent::RbySummary1(c) => ExtractedContentView::RbySummary1(*c),
            ExtractedContent::RbySummary2(c) => ExtractedContentView::RbySummary2(c@),
            ExtractedContent::GscSummary1(c) => ExtractedContentView::GscSummary1(*c),
            ExtractedContent::GscSummary2(c) => ExtractedContentView::GscSummary2(c@),
            ExtractedContent::GscSummary3(c) => ExtractedContentView::GscSummary3(*c),
        }
    }
}

/// Why a picture was not read.
#[derive(Debug, Copy, Clone, PartialEq, Eq, Structural)]
pub enum ScanError {
    /// The picture shows no screen.
    NoScreen,
    /// The screen is none of the known summary screens.
    NotRecognized,
    /// The screen was recognized, but a field of it was not read.
    Layout(LayoutError),
}

/// The outcome of a reading with the view of the content in place of the
/// content.
pub open spec fn content_view(res: Result<ExtractedContent, ScanError>) -> Result<
    ExtractedContentView,
    ScanError,
> {
    match res {
        Ok(c) => Ok(c@),
        Err(e) => Err(e),
    }
}

/// The layouts of the known summary screens.
pub struct Layouts {
    pub rby_summary_1: RbySummary1,
    pub rby_summary_2: RbySummary2,
    pub gsc_summary_1: GscSummary1,
    pub gsc_summary_2: GscSummary2,
    pub gsc_summary_3: GscSummary3,
}

impl Layouts {
    /// Whether every layout is that of a screen.
    pub open spec fn is_valid(&self) -> bool {
        &&& self.rby_summary_1.is_valid()
        &&& self.rby_summary_2.is_valid()
        &&& self.gsc_summary_1.is_valid()
        &&& self.gsc_summary_2.is_valid()
        &&& self.gsc_summary_3.is_valid()
    }

    /// Whether these are the layouts of the five summary screens as the
    /// games draw them.
    pub open spec fn is_standard(&self) -> bool {
        &&& self.rby_summary_1.is_standard()
        &&& self.rby_summary_2.is_standard()
        &&& self.gsc_summary_1.is_standard()
        &&& self.gsc_summary_2.is_standard()
        &&& self.gsc_summary_3.is_standard()
    }

    /// The screen that an image shows: the first layout that fits, those
    /// of the first generation tried first.
    pub open spec fn recognized(
        &self,
        width: int,
        height: int,
        pixels: Seq<u8>,
        chars: Map<u64, Seq<char>>,
    ) -> Option<ScreenKind> {
        if self.rby_summary_1.matches(width, height, pixels, chars) {
            Some(ScreenKind::RbySummary1)
        } else if self.rby_summary_2.matches(width, height, pixels, chars) {
            Some(ScreenKind::RbySummary2)
        } else if self.gsc_summary_1.matches(width, height, pixels, chars) {
            Some(ScreenKind::GscSummary1)
        } else if self.gsc_summary_2.matches(width, height, pixels, chars) {
            Some(ScreenKind::GscSummary2)
        } else if self.gsc_summary_3.matches(width, height, pixels, chars) {
            Some(ScreenKind::GscSummary3)
        } else {
            None
        }
    }

    /// What an image shows: the fields of the layout that fits.
    pub open spec fn extracted(
        &self,
        width: int,
        height: int,
        pixels: Seq<u8>,
        chars: Map<u64, Seq<char>>,
    ) -> Result<ExtractedContentView, ScanError> {
        match self.recognized(width, height, pixels, chars) {
            None => Err(ScanError::NotRecognized),
            Some(ScreenKind::RbySummary1) => match self.rby_summary_1.content(
                width,
                height,
                pixels,
                chars,
            ) {
                Ok(c) => Ok(ExtractedContentView::RbySummary1(c)),
                Err(e) => Err(ScanError::Layout(e)),
            },
            Some(ScreenKind::RbySummary2) => match self.rby_summary_2.content(
                width,
                height,
                pixels,
                chars,
            ) {
                Ok(c) => Ok(ExtractedContentView::RbySummary2(c)),
                Err(e) => Err(ScanError::Layout(e)),
            },
            Some(ScreenKind::GscSummary1) => match self.gsc_summary_1.content(
                width,
                height,
                pixels,
                chars,
            ) {
                Ok(c) => Ok(ExtractedContentView::GscSummary1(c)),
                Err(e) => Err(ScanError::Layout(e)),
            },
            Some(ScreenKind::GscSummary2) => match self.gsc_summary_2.content(
                width,
                height,
                pixels,
                chars,
            ) {
                Ok(c) => Ok(ExtractedContentView::GscSummary2(c)),
                Err(e) => Err(ScanError::Layout(e)),
            },
            Some(ScreenKind::GscSummary3) => match self.gsc_summary_3.content(
                width,
                height,
                pixels,
                chars,
            ) {
                Ok(c) => Ok(ExtractedContentView::GscSummary3(c)),
                Err(e) => Err(ScanError::Layout(e)),
            },
        }
    }

    /// Creates the layouts of the known summary screens: each with its
    /// fields and marks where the games draw them.
    pub fn new() -> (layouts: Layouts)
        ensures
            layouts.is_valid(),
            layouts.is_standard(),
    {
        Layouts {
            rby_summary_1: RbySummary1::new(),
            rby_summary_2: RbySummary2::new(),
            gsc_summary_1: GscSummary1::new(),
            gsc_summary_2: GscSummary2::new(),
            gsc_summary_3: GscSummary3::new(),
        }
    }

    /// Tells which summary screen the image shows, or `None` where it
    /// shows none of them. The layouts are tried in a fixed order, those
    /// of the first generation first.
    ///
    /// Expects a binary image with the text as foreground.
    pub fn recognize(&self, img: &GrayImage, chars: &CharTable) -> (kind: Option<ScreenKind>)
        ensures
            kind == self.recognized(img.spec_width(), img.spec_height(), img@, chars@),
    {
        if self.rby_summary_1.verify_layout(img, chars) {
            Some(ScreenKind::RbySummary1)
        } else if self.rby_summary_2.verify_layout(img, chars) {
            Some(ScreenKind::RbySummary2)
        } else if self.gsc_summary_1.verify_layout(img, chars) {
            Some(ScreenKind::GscSummary1)
        } else if self.gsc_summary_2.verify_layout(img, chars) {
            Some(ScreenKind::GscSummary2)
        } else if self.gsc_summary_3.verify_layout(img, chars) {
            Some(ScreenKind::GscSummary3)
        } else {
            None
        }
    }

    /// Reads what the image shows: the fields of the first layout that
    /// fits.
    ///
    /// Expects a binary image with the text as foreground.
    pub fn read(&self, img: &GrayImage, chars: &CharTable) -> (res: Result<
        ExtractedContent,
        ScanError,
    >)
        ensures
            content_view(res) == self.extracted(img.spec_width(), img.spec_height(), img@, chars@),
    {
        match self.recognize(img, chars) {
            None => Err(ScanError::NotRecognized),
            Some(ScreenKind::RbySummary1) => match self.rby_summary_1.read_fields(img, chars) {
                Ok(c) => Ok(ExtractedContent::RbySummary1(c)),
                Err(e) => Err(ScanError::Layout(e)),
            },
            Some(ScreenKind::RbySummary2) => match self.rby_summary_2.read_fields(img, chars) {
                Ok(c) => Ok(ExtractedContent::RbySummary2(c)),
                Err(e) => Err(ScanError::Layout(e)),
            },
            Some(ScreenKind::GscSummary1) => match self.gsc_summary_1.read_fields(img, chars) {
                Ok(c) => Ok(ExtractedContent::GscSummary1(c)),
                Err(e) => Err(ScanError::Layout(e)),
            },
            Some(ScreenKind::GscSummary2) => match self.gsc_summary_2.read_fields(img, chars) {
                Ok(c) => Ok(ExtractedContent::GscSummary2(c)),
                Err(e) => Err(ScanError::Layout(e)),
            },
            Some(ScreenKind::GscSummary3) => match self.gsc_summary_3.read_fields(img, chars) {
                Ok(c) => Ok(ExtractedContent::GscSummary3(c)),
                Err(e) => Err(ScanError::Layout(e)),
            },
        }
    }
}

/// The pixels of the screen at `pos` of a picture as the layouts read
/// them: cut out, scaled to 160 by 144 pixels, binarized and inverted.
/// There are none where `pos` covers no pixel of the picture.
pub open spec fn normalized(width: int, height: int, pixels: Seq<u8>, pos: Position) -> Option<
    Seq<u8>,
> {
    let part = clamped(pos.x, pos.y, pos.width, pos.height, width, height);
    if part.width == 0 || part.height == 0 {
        None
    } else {
        Some(
            inverted(
                thresholded(
                    resized_nearest(
                        part.width as int,
                        part.height as int,
                        region_pixels(pixels, width, part),
                        SCREEN_WIDTH as int,
                        SCREEN_HEIGHT as int,
                    ),
                    SCREEN_THRESHOLD,
                ),
            ),
        )
    }
}

/// Returns the screen at `pos` of a picture as the layouts read it: cut
/// out, scaled to 160 by 144 pixels, binarized and inverted, so that the
/// text is the foreground. There is none where `pos` covers no pixel of
/// the picture.
pub fn normalize(picture: &GrayImage, pos: &Position) -> (screen: Option<GrayImage>)
    ensures
        match screen {
            Some(img) => {
                &&& img.spec_width() == SCREEN_WIDTH
                &&& img.spec_height() == SCREEN_HEIGHT
                &&& normalized(picture.spec_width(), picture.spec_height(), picture@, *pos)
                    == Some(img@)
            },
            None => normalized(picture.spec_width(), picture.spec_height(), picture@, *pos)
                is None,
        },
{
    let part = crop(picture, pos.x, pos.y, pos.width, pos.height);
    if part.width() == 0 || part.height() == 0 {
        return None;
    }
    let small = part.resize_exact(SCREEN_WIDTH, SCREEN_HEIGHT);
    Some(small.threshold(SCREEN_THRESHOLD).invert())
}

/// What a picture shows.
pub open spec fn scanned(
    layouts: Layouts,
    width: int,
    height: int,
    pixels: Seq<u8>,
    chars: Map<u64, Seq<char>>,
) -> Result<ExtractedContentView, ScanError> {
    match located(width, height, pixels) {
        None => Err(ScanError::NoScreen),
        Some(pos) => match normalized(width, height, pixels, pos) {
            None => Err(ScanError::NoScreen),
            Some(screen) => layouts.extracted(
                SCREEN_WIDTH as int,
                SCREEN_HEIGHT as int,
                screen,
                chars,
            ),
        },
    }
}

/// Finds the screen on a picture and reads what it shows.
///
/// That no screen was found, and that the screen found is none of the
/// known summary screens, are two outcomes of their own; both are to be
/// expected of a picture taken at any moment.
pub fn scan(layouts: &Layouts, picture: &GrayImage, chars: &CharTable) -> (res: Result<
    ExtractedContent,
    ScanError,
>)
    requires
        picture.spec_width() <= i32::MAX,
        picture.spec_height() <= i32::MAX,
    ensures
        content_view(res) == scanned(
            *layouts,
            picture.spec_width(),
            picture.spec_height(),
            picture@,
            chars@,
        ),
{
    let pos = match locate_screen(picture) {
        Some(pos) => pos,
        None => {
            return Err(ScanError::NoScreen);
        },
    };
    let screen = match normalize(picture, &pos) {
        Some(screen) => screen,
        None => {
            return Err(ScanError::NoScreen);
        },
    };
    layouts.read(&screen, chars)
}

/// Reading the same image twice gives the same content: what is read
/// depends on the pixels, the layouts and the table alone.
pub proof fn lemma_reading_repeats(
    layouts: Layouts,
    width: int,
    height: int,
    pixels: Seq<u8>,
    chars: Map<u64, Seq<char>>,
    first: Result<ExtractedContent, ScanError>,
    second: Result<ExtractedContent, ScanError>,
)
    requires
        content_view(first) == layouts.extracted(width, height, pixels, chars),
        content_view(second) == layouts.extracted(width, height, pixels, chars),
    ensures
        content_view(first) == content_view(second),
{
}

} // verus!
