//! The summary screens and what they show.
//!
//! A layout says where on the 160 by 144 pixels of a screen the fields of
//! one summary screen stand, and where the marks stand by which the screen
//! is told from the others. The image handed to a layout is the screen
//! itself: cut out of the picture, scaled to 160 by 144 pixels, binarized
//! and inverted, so that the text is the foreground.

use crate::gameboy::{SCREEN_HEIGHT, SCREEN_WIDTH};
use crate::ocr::{char_at, field_text, is_field, read_char, read_field, CharTable, FieldError};
use crate::position::Position;
use crate::raster::GrayImage;
use crate::roi::lies_within;
use crate::text::{parse_i32, parsed_number, str_eq, trim, trimmed};
use vstd::prelude::*;
use vstd::string::StringExecFns;

verus! {

/// The fields of the summary screens.
#[derive(Debug, Copy, Clone, PartialEq, Eq, Structural)]
pub enum FieldName {
    Ndex,
    Level,
    Hp,
    Attack,
    Defense,
    Speed,
    Special,
    SpcAttack,
    SpcDefense,
    Item,
    Move1,
    Move2,
    Move3,
    Move4,
}

/// Why the fields of a screen were not read.
#[derive(Debug, Copy, Clone, PartialEq, Eq, Structural)]
pub enum LayoutError {
    /// The image has not the width and the height of the layout.
    Dimensions { width: u32, height: u32 },
    /// The text of a field was not read.
    Read { field: FieldName, cause: FieldError },
    /// The text of a field is no number.
    Parse { field: FieldName },
}

/// Whether `pos` can hold a line of text on the screen: it is a field and
/// lies within the screen.
pub open spec fn is_screen_field(pos: Position) -> bool {
    is_field(pos) && lies_within(pos, SCREEN_WIDTH as int, SCREEN_HEIGHT as int)
}

/// Whether `pos` can hold a mark on the screen: it is a character cell and
/// lies within the screen.
pub open spec fn is_screen_cell(pos: Position) -> bool {
    pos.width == 7 && pos.height == 7 && lies_within(pos, SCREEN_WIDTH as int, SCREEN_HEIGHT as int)
}

/// Whether the cell `pos` of the image shows a slash.
pub open spec fn shows_slash(
    width: int,
    height: int,
    pixels: Seq<u8>,
    pos: Position,
    chars: Map<u64, Seq<char>>,
) -> bool {
    char_at(width, height, pixels, pos, chars) == Ok::<Seq<char>, crate::ocr::CharError>("/"@)
}

/// The text of a field without the white space around it, or why it was
/// not read.
pub open spec fn text_field(
    width: int,
    height: int,
    pixels: Seq<u8>,
    pos: Position,
    chars: Map<u64, Seq<char>>,
    field: FieldName,
) -> Result<Seq<char>, LayoutError> {
    match field_text(width, height, pixels, pos, chars) {
        Ok(text) => Ok(trimmed(text)),
        Err(cause) => Err(LayoutError::Read { field, cause }),
    }
}

/// The number in a field, or why there is none.
pub open spec fn number_field(
    width: int,
    height: int,
    pixels: Seq<u8>,
    pos: Position,
    chars: Map<u64, Seq<char>>,
    field: FieldName,
) -> Result<i32, LayoutError> {
    match text_field(width, height, pixels, pos, chars, field) {
        Ok(text) => match parsed_number(text) {
            Some(v) => Ok(v as i32),
            None => Err(LayoutError::Parse { field }),
        },
        Err(e) => Err(e),
    }
}

/// The outcome of a reading with the characters in place of the string.
pub open spec fn trimmed_view(res: Result<String, LayoutError>) -> Result<Seq<char>, LayoutError> {
    match res {
        Ok(text) => Ok(text@),
        Err(e) => Err(e),
    }
}

/// Tells whether the cell `pos` of the image shows a slash.
pub fn is_slash(img: &GrayImage, pos: &Position, chars: &CharTable) -> (b: bool)
    ensures
        b == shows_slash(img.spec_width(), img.spec_height(), img@, *pos, chars@),
{
    match read_char(img, pos, chars) {
        Ok(label) => str_eq(label, "/"),
        Err(_) => false,
    }
}

/// Reads the text of a field and takes the white space around it away.
pub fn read_text(img: &GrayImage, pos: &Position, chars: &CharTable, field: FieldName) -> (res:
    Result<String, LayoutError>)
    ensures
        trimmed_view(res) == text_field(
            img.spec_width(),
            img.spec_height(),
            img@,
            *pos,
            chars@,
            field,
        ),
{
    match read_field(img, pos, chars) {
        Ok(text) => Ok(String::from_str(trim(text.as_str()))),
        Err(cause) => Err(LayoutError::Read { field, cause }),
    }
}

/// Reads the number in a field.
pub fn read_number(img: &GrayImage, pos: &Position, chars: &CharTable, field: FieldName) -> (res:
    Result<i32, LayoutError>)
    ensures
        res == number_field(img.spec_width(), img.spec_height(), img@, *pos, chars@, field),
{
    match read_field(img, pos, chars) {
        Ok(text) => match parse_i32(trim(text.as_str())) {
            Some(v) => Ok(v),
            None => Err(LayoutError::Parse { field }),
        },
        Err(cause) => Err(LayoutError::Read { field, cause }),
    }
}

/// Tells whether an image has the width and the height of a layout.
fn has_size(img: &GrayImage, width: i32, height: i32) -> (b: bool)
    ensures
        b == (img.spec_width() == width && img.spec_height() == height),
{
    img.width() as i64 == width as i64 && img.height() as i64 == height as i64
}

/// The layout of the first summary screen of the first generation: the
/// number in the index, the level and the five stats.
pub struct RbySummary1 {
    pub width: i32,
    pub height: i32,
    pub pkmn_ndex_pos: Position,
    pub level_field_pos: Position,
    pub hp_field_pos: Position,
    pub attack_field_pos: Position,
    pub defense_field_pos: Position,
    pub speed_field_pos: Position,
    pub special_field_pos: Position,
    pub slash_positions: [Position; 5],
}

/// The content of the first summary screen of the first generation.
#[derive(Debug, PartialEq, PartialOrd, Clone)]
pub struct RbySummaryContent {
    pub ndex: i32,
    pub level: i32,
    pub hp: i32,
    pub attack: i32,
    pub defense: i32,
    pub speed: i32,
    pub special: i32,
}

impl RbySummary1 {
    /// Whether the layout is that of the first summary screen of the first generation as the
    /// games draw it: 160 by 144 pixels, with every field and every mark at its
    /// place.
    pub open spec fn is_standard(&self) -> bool {
        &&& self.width == 160
        &&& self.height == 144
        &&& self.pkmn_ndex_pos == (Position { x: 24, y: 56, width: 23, height: 7 })
        &&& self.level_field_pos == (Position { x: 120, y: 16, width: 23, height: 7 })
        &&& self.hp_field_pos == (Position { x: 128, y: 32, width: 23, height: 7 })
        &&& self.attack_field_pos == (Position { x: 48, y: 80, width: 23, height: 7 })
        &&& self.defense_field_pos == (Position { x: 48, y: 96, width: 23, height: 7 })
        &&& self.speed_field_pos == (Position { x: 48, y: 112, width: 23, height: 7 })
        &&& self.special_field_pos == (Position { x: 48, y: 128, width: 23, height: 7 })
        &&& self.slash_positions@ == seq![
            (Position { x: 120, y: 33, width: 7, height: 7 }),
            (Position { x: 120, y: 49, width: 7, height: 7 }),
            (Position { x: 120, y: 73, width: 7, height: 7 }),
            (Position { x: 96, y: 105, width: 7, height: 7 }),
            (Position { x: 96, y: 121, width: 7, height: 7 }),
        ]
    }

    /// Whether the layout is that of a screen: 160 by 144 pixels, every
    /// field a line of text within them, every mark a cell within them.
    pub open spec fn is_valid(&self) -> bool {
        &&& self.width == SCREEN_WIDTH
        &&& self.height == SCREEN_HEIGHT
        &&& is_screen_field(self.pkmn_ndex_pos)
        &&& is_screen_field(self.level_field_pos)
        &&& is_screen_field(self.hp_field_pos)
        &&& is_screen_field(self.attack_field_pos)
        &&& is_screen_field(self.defense_field_pos)
        &&& is_screen_field(self.speed_field_pos)
        &&& is_screen_field(self.special_field_pos)
        &&& forall|i: int| 0 <= i < 5 ==> is_screen_cell(#[trigger] self.slash_positions[i])
    }

    /// Whether the image shows this screen: it has the size of the layout
    /// and a slash at each of the five marks.
    pub open spec fn matches(
        &self,
        width: int,
        height: int,
        pixels: Seq<u8>,
        chars: Map<u64, Seq<char>>,
    ) -> bool {
        &&& width == self.width
        &&& height == self.height
        &&& forall|i: int|
            0 <= i < 5 ==> shows_slash(width, height, pixels, #[trigger] self.slash_positions[i], chars)
    }

    /// What the image shows in the fields of this layout, or the first
    /// reason in the order of the fields why it was not read.
    pub open spec fn content(
        &self,
        width: int,
        height: int,
        pixels: Seq<u8>,
        chars: Map<u64, Seq<char>>,
    ) -> Result<RbySummaryContent, LayoutError> {
        if width != self.width || height != self.height {
            Err(LayoutError::Dimensions { width: width as u32, height: height as u32 })
        } else {
            match (
                number_field(width, height, pixels, self.pkmn_ndex_pos, chars, FieldName::Ndex),
                number_field(width, height, pixels, self.level_field_pos, chars, FieldName::Level),
                number_field(width, height, pixels, self.hp_field_pos, chars, FieldName::Hp),
                number_field(width, height, pixels, self.attack_field_pos, chars, FieldName::Attack),
                number_field(width, height, pixels, self.defense_field_pos, chars, FieldName::Defense),
                number_field(width, height, pixels, self.speed_field_pos, chars, FieldName::Speed),
                number_field(width, height, pixels, self.special_field_pos, chars, FieldName::Special),
            ) {
                (Err(e), _, _, _, _, _, _) => Err(e),
                (Ok(_), Err(e), _, _, _, _, _) => Err(e),
                (Ok(_), Ok(_), Err(e), _, _, _, _) => Err(e),
                (Ok(_), Ok(_), Ok(_), Err(e), _, _, _) => Err(e),
                (Ok(_), Ok(_), Ok(_), Ok(_), Err(e), _, _) => Err(e),
                (Ok(_), Ok(_), Ok(_), Ok(_), Ok(_), Err(e), _) => Err(e),
                (Ok(_), Ok(_), Ok(_), Ok(_), Ok(_), Ok(_), Err(e)) => Err(e),
                (Ok(ndex), Ok(level), Ok(hp), Ok(attack), Ok(defense), Ok(speed), Ok(special)) => Ok(
                    RbySummaryContent { ndex, level, hp, attack, defense, speed, special },
                ),
            }
        }
    }

    /// Creates the layout of the first summary screen of the first
    /// generation.
    pub fn new() -> (layout: RbySummary1)
        ensures
            layout.is_valid(),
            layout.pkmn_ndex_pos == (Position { x: 24, y: 56, width: 23, height: 7 }),
            layout.level_field_pos == (Position { x: 120, y: 16, width: 23, height: 7 }),
            layout.hp_field_pos == (Position { x: 128, y: 32, width: 23, height: 7 }),
            layout.attack_field_pos == (Position { x: 48, y: 80, width: 23, height: 7 }),
            layout.defense_field_pos == (Position { x: 48, y: 96, width: 23, height: 7 }),
            layout.speed_field_pos == (Position { x: 48, y: 112, width: 23, height: 7 }),
            layout.special_field_pos == (Position { x: 48, y: 128, width: 23, height: 7 }),
            layout.slash_positions@ == seq![
                (Position { x: 120, y: 33, width: 7, height: 7 }),
                (Position { x: 120, y: 49, width: 7, height: 7 }),
                (Position { x: 120, y: 73, width: 7, height: 7 }),
                (Position { x: 96, y: 105, width: 7, height: 7 }),
                (Position { x: 96, y: 121, width: 7, height: 7 }),
            ],
    {
        let field_width: u32 = 23;
        let field_height: u32 = 7;

        let x_ndex: u32 = 24;
        let y_ndex: u32 = 56;

        let x_level: u32 = 120;
        let y_level: u32 = 16;

        let x_hp: u32 = 150 - field_width + 1;
        let y_hp: u32 = 39 - field_height;

        let x_attack: u32 = 70 - field_width + 1;
        let y_attack: u32 = 87 - field_height;

        let x_defense: u32 = 70 - field_width + 1;
        let y_defense: u32 = 103 - field_height;

        let x_speed: u32 = 70 - field_width + 1;
        let y_speed: u32 = 119 - field_height;

        let x_special: u32 = 70 - field_width + 1;
        let y_special: u32 = 135 - field_height;

        let layout = RbySummary1 {
            width: 160,
            height: 144,
            pkmn_ndex_pos: Position { x: x_ndex, y: y_ndex, width: field_width, height: field_height },
            level_field_pos: Position { x: x_level, y: y_level, width: field_width, height: field_height },
            hp_field_pos: Position { x: x_hp, y: y_hp, width: field_width, height: field_height },
            attack_field_pos: Position { x: x_attack, y: y_attack, width: field_width, height: field_height },
            defense_field_pos: Position { x: x_defense, y: y_defense, width: field_width, height: field_height },
            speed_field_pos: Position { x: x_speed, y: y_speed, width: field_width, height: field_height },
            special_field_pos: Position { x: x_special, y: y_special, width: field_width, height: field_height },
            slash_positions: [
                Position { x: 120, y: 33, width: 7, height: 7 },
                Position { x: 120, y: 49, width: 7, height: 7 },
                Position { x: 120, y: 73, width: 7, height: 7 },
                Position { x: 96, y: 105, width: 7, height: 7 },
                Position { x: 96, y: 121, width: 7, height: 7 },
            ],
        };
        assert(layout.slash_positions@ =~= seq![
            (Position { x: 120, y: 33, width: 7, height: 7 }),
            (Position { x: 120, y: 49, width: 7, height: 7 }),
            (Position { x: 120, y: 73, width: 7, height: 7 }),
            (Position { x: 96, y: 105, width: 7, height: 7 }),
            (Position { x: 96, y: 121, width: 7, height: 7 }),
        ]);
        layout
    }

    /// Returns true if the image is the first summary screen of the first
    /// generation.
    ///
    /// Expects a binary image with the text as foreground.
    pub fn verify_layout(&self, img: &GrayImage, chars: &CharTable) -> (b: bool)
        ensures
            b == self.matches(img.spec_width(), img.spec_height(), img@, chars@),
    {
        if !has_size(img, self.width, self.height) {
            return false;
        }
        let mut i: usize = 0;
        while i < 5
            invariant
                i <= 5,
                img.spec_width() == self.width,
                img.spec_height() == self.height,
                forall|j: int|
                    0 <= j < i ==> shows_slash(
                        img.spec_width(),
                        img.spec_height(),
                        img@,
                        #[trigger] self.slash_positions[j],
                        chars@,
                    ),
            decreases 5 - i,
        {
            if !is_slash(img, &self.slash_positions[i], chars) {
                return false;
            }
            i = i + 1;
        }
        true
    }

    /// Reads the fields of the layout from the screen.
    ///
    /// Expects a binary image with the text as foreground.
    pub fn read_fields(&self, img: &GrayImage, chars: &CharTable) -> (res: Result<RbySummaryContent, LayoutError>)
        ensures
            res == self.content(img.spec_width(), img.spec_height(), img@, chars@),
    {
        if !has_size(img, self.width, self.height) {
            return Err(LayoutError::Dimensions { width: img.width(), height: img.height() });
        }
        let ndex = read_number(img, &self.pkmn_ndex_pos, chars, FieldName::Ndex)?;
        let level = read_number(img, &self.level_field_pos, chars, FieldName::Level)?;
        let hp = read_number(img, &self.hp_field_pos, chars, FieldName::Hp)?;
        let attack = read_number(img, &self.attack_field_pos, chars, FieldName::Attack)?;
        let defense = read_number(img, &self.defense_field_pos, chars, FieldName::Defense)?;
        let speed = read_number(img, &self.speed_field_pos, chars, FieldName::Speed)?;
        let special = read_number(img, &self.special_field_pos, chars, FieldName::Special)?;
        Ok(RbySummaryContent { ndex, level, hp, attack, defense, speed, special })
    }
}

/// The layout of the second summary screen of the first generation: the
/// number in the index and the four moves.
pub struct RbySummary2 {
    pub width: i32,
    pub height: i32,
    pub pkmn_ndex_pos: Position,
    pub move_1: Position,
    pub move_2: Position,
    pub move_3: Position,
    pub move_4: Position,
}

/// The content of the second summary screen of the first generation.
#[derive(Debug, PartialEq, PartialOrd, Clone)]
pub struct RbySummaryContent2 {
    pub ndex: String,
    pub move_1: String,
    pub move_2: String,
    pub move_3: String,
    pub move_4: String,
}

/// The content of the second summary screen of the first generation, each text as its characters.
pub struct RbySummaryContent2View {
    pub ndex: Seq<char>,
    pub move_1: Seq<char>,
    pub move_2: Seq<char>,
    pub move_3: Seq<char>,
    pub move_4: Seq<char>,
}

impl View for RbySummaryContent2 {
    type V = RbySummaryContent2View;

    open spec fn view(&self) -> RbySummaryContent2View {
        RbySummaryContent2View {
            ndex: self.ndex@,
            move_1: self.move_1@,
            move_2: self.move_2@,
            move_3: self.move_3@,
            move_4: self.move_4@,
        }
    }
}

impl RbySummary2 {
    /// Whether the layout is that of the second summary screen of the first generation as the
    /// games draw it: 160 by 144 pixels, with every field at its
    /// place.
    pub open spec fn is_standard(&self) -> bool {
        &&& self.width == 160
        &&& self.height == 144
        &&& self.pkmn_ndex_pos == (Position { x: 24, y: 56, width: 23, height: 7 })
        &&& self.move_1 == (Position { x: 16, y: 72, width: 95, height: 7 })
        &&& self.move_2 == (Position { x: 16, y: 88, width: 95, height: 7 })
        &&& self.move_3 == (Position { x: 16, y: 104, width: 95, height: 7 })
        &&& self.move_4 == (Position { x: 16, y: 120, width: 95, height: 7 })
    }

    /// The cell of the mark that tells this screen from the others:
    /// the slash between the points of the first move.
    pub open spec fn mark() -> Position {
        Position { x: 128, y: 81, width: 7, height: 7 }
    }

    /// Whether the layout is that of a screen: 160 by 144 pixels, and every
    /// field a line of text within them.
    pub open spec fn is_valid(&self) -> bool {
        &&& self.width == SCREEN_WIDTH
        &&& self.height == SCREEN_HEIGHT
        &&& is_screen_field(self.pkmn_ndex_pos)
        &&& is_screen_field(self.move_1)
        &&& is_screen_field(self.move_2)
        &&& is_screen_field(self.move_3)
        &&& is_screen_field(self.move_4)
    }

    /// Whether the image shows this screen: it has the size of the layout
    /// and a slash at the mark.
    pub open spec fn matches(
        &self,
        width: int,
        height: int,
        pixels: Seq<u8>,
        chars: Map<u64, Seq<char>>,
    ) -> bool {
        &&& width == self.width
        &&& height == self.height
        &&& shows_slash(width, height, pixels, Self::mark(), chars)
    }

    /// What the image shows in the fields of this layout, or the first
    /// reason in the order of the fields why it was not read.
    pub open spec fn content(
        &self,
        width: int,
        height: int,
        pixels: Seq<u8>,
        chars: Map<u64, Seq<char>>,
    ) -> Result<RbySummaryContent2View, LayoutError> {
        if width != self.width || height != self.height {
            Err(LayoutError::Dimensions { width: width as u32, height: height as u32 })
        } else {
            match (
                text_field(width, height, pixels, self.pkmn_ndex_pos, chars, FieldName::Ndex),
                text_field(width, height, pixels, self.move_1, chars, FieldName::Move1),
                text_field(width, height, pixels, self.move_2, chars, FieldName::Move2),
                text_field(width, height, pixels, self.move_3, chars, FieldName::Move3),
                text_field(width, height, pixels, self.move_4, chars, FieldName::Move4),
            ) {
                (Err(e), _, _, _, _) => Err(e),
                (Ok(_), Err(e), _, _, _) => Err(e),
                (Ok(_), Ok(_), Err(e), _, _) => Err(e),
                (Ok(_), Ok(_), Ok(_), Err(e), _) => Err(e),
                (Ok(_), Ok(_), Ok(_), Ok(_), Err(e)) => Err(e),
                (Ok(ndex), Ok(move_1), Ok(move_2), Ok(move_3), Ok(move_4)) => Ok(
                    RbySummaryContent2View { ndex, move_1, move_2, move_3, move_4 },
                ),
            }
        }
    }

    /// Creates the layout of the second summary screen of the first generation.
    pub fn new() -> (layout: RbySummary2)
        ensures
            layout.is_valid(),
            layout.pkmn_ndex_pos == (Position { x: 24, y: 56, width: 23, height: 7 }),
            layout.move_1 == (Position { x: 16, y: 72, width: 95, height: 7 }),
            layout.move_2 == (Position { x: 16, y: 88, width: 95, height: 7 }),
            layout.move_3 == (Position { x: 16, y: 104, width: 95, height: 7 }),
            layout.move_4 == (Position { x: 16, y: 120, width: 95, height: 7 }),
    {
        RbySummary2 {
            width: 160,
            height: 144,
            pkmn_ndex_pos: Position { x: 24, y: 56, width: 23, height: 7 },
            move_1: Position { x: 16, y: 72, width: 95, height: 7 },
            move_2: Position { x: 16, y: 88, width: 95, height: 7 },
            move_3: Position { x: 16, y: 104, width: 95, height: 7 },
            move_4: Position { x: 16, y: 120, width: 95, height: 7 },
        }
    }

    /// Returns true if the image is the second summary screen of the first generation.
    ///
    /// Expects a binary image with the text as foreground.
    pub fn verify_layout(&self, img: &GrayImage, chars: &CharTable) -> (b: bool)
        ensures
            b == self.matches(img.spec_width(), img.spec_height(), img@, chars@),
    {
        if !has_size(img, self.width, self.height) {
            return false;
        }
        // The slash between the points of the first move
        let pos = Position { x: 128, y: 81, width: 7, height: 7 };
        is_slash(img, &pos, chars)
    }

    /// Reads the fields of the layout from the screen.
    ///
    /// Expects a binary image with the text as foreground.
    pub fn read_fields(&self, img: &GrayImage, chars: &CharTable) -> (res: Result<
        RbySummaryContent2,
        LayoutError,
    >)
        ensures
            match res {
                Ok(c) => self.content(img.spec_width(), img.spec_height(), img@, chars@) == Ok::<
                    RbySummaryContent2View,
                    LayoutError,
                >(c@),
                Err(e) => self.content(img.spec_width(), img.spec_height(), img@, chars@) == Err::<
                    RbySummaryContent2View,
                    LayoutError,
                >(e),
            },
    {
        if !has_size(img, self.width, self.height) {
            return Err(LayoutError::Dimensions { width: img.width(), height: img.height() });
        }
        let ndex = read_text(img, &self.pkmn_ndex_pos, chars, FieldName::Ndex)?;
        let move_1 = read_text(img, &self.move_1, chars, FieldName::Move1)?;
        let move_2 = read_text(img, &self.move_2, chars, FieldName::Move2)?;
        let move_3 = read_text(img, &self.move_3, chars, FieldName::Move3)?;
        let move_4 = read_text(img, &self.move_4, chars, FieldName::Move4)?;
        Ok(RbySummaryContent2 { ndex, move_1, move_2, move_3, move_4 })
    }
}

/// The layout of the first summary screen of the second generation: the
/// number in the index, the level and the vitality.
pub struct GscSummary1 {
    pub width: i32,
    pub height: i32,
    pub ndex: Position,
    pub level: Position,
    pub hp: Position,
}

/// The content of the first summary screen of the second generation.
#[derive(Debug, PartialEq, PartialOrd, Clone)]
pub struct GscSummaryContent1 {
    pub ndex: i32,
    pub level: i32,
    pub hp: i32,
}

impl GscSummary1 {
    /// Whether the layout is that of the first summary screen of the second generation as the
    /// games draw it: 160 by 144 pixels, with every field at its
    /// place.
    pub open spec fn is_standard(&self) -> bool {
        &&& self.width == 160
        &&& self.height == 144
        &&& self.ndex == (Position { x: 80, y: 0, width: 23, height: 7 })
        &&& self.level == (Position { x: 120, y: 0, width: 23, height: 7 })
        &&& self.hp == (Position { x: 40, y: 80, width: 23, height: 7 })
    }

    /// The cell of the mark that tells this screen from the others:
    /// the slash that divides the vitality.
    pub open spec fn mark() -> Position {
        Position { x: 32, y: 80, width: 7, height: 7 }
    }

    /// Whether the layout is that of a screen: 160 by 144 pixels, and every
    /// field a line of text within them.
    pub open spec fn is_valid(&self) -> bool {
        &&& self.width == SCREEN_WIDTH
        &&& self.height == SCREEN_HEIGHT
        &&& is_screen_field(self.ndex)
        &&& is_screen_field(self.level)
        &&& is_screen_field(self.hp)
    }

    /// Whether the image shows this screen: it has the size of the layout
    /// and a slash at the mark.
    pub open spec fn matches(
        &self,
        width: int,
        height: int,
        pixels: Seq<u8>,
        chars: Map<u64, Seq<char>>,
    ) -> bool {
        &&& width == self.width
        &&& height == self.height
        &&& shows_slash(width, height, pixels, Self::mark(), chars)
    }

    /// What the image shows in the fields of this layout, or the first
    /// reason in the order of the fields why it was not read.
    pub open spec fn content(
        &self,
        width: int,
        height: int,
        pixels: Seq<u8>,
        chars: Map<u64, Seq<char>>,
    ) -> Result<GscSummaryContent1, LayoutError> {
        if width != self.width || height != self.height {
            Err(LayoutError::Dimensions { width: width as u32, height: height as u32 })
        } else {
            match (
                number_field(width, height, pixels, self.ndex, chars, FieldName::Ndex),
                number_field(width, height, pixels, self.level, chars, FieldName::Level),
                number_field(width, height, pixels, self.hp, chars, FieldName::Hp),
            ) {
                (Err(e), _, _) => Err(e),
                (Ok(_), Err(e), _) => Err(e),
                (Ok(_), Ok(_), Err(e)) => Err(e),
                (Ok(ndex), Ok(level), Ok(hp)) => Ok(
                    GscSummaryContent1 { ndex, level, hp },
                ),
            }
        }
    }

    /// Creates the layout of the first summary screen of the second generation.
    pub fn new() -> (layout: GscSummary1)
        ensures
            layout.is_valid(),
            layout.ndex == (Position { x: 80, y: 0, width: 23, height: 7 }),
            layout.level == (Position { x: 120, y: 0, width: 23, height: 7 }),
            layout.hp == (Position { x: 40, y: 80, width: 23, height: 7 }),
    {
        GscSummary1 {
            width: 160,
            height: 144,
            ndex: Position { x: 80, y: 0, width: 23, height: 7 },
            level: Position { x: 120, y: 0, width: 23, height: 7 },
            hp: Position { x: 40, y: 80, width: 23, height: 7 },
        }
    }

    /// Returns true if the image is the first summary screen of the second generation.
    ///
    /// Expects a binary image with the text as foreground.
    pub fn verify_layout(&self, img: &GrayImage, chars: &CharTable) -> (b: bool)
        ensures
            b == self.matches(img.spec_width(), img.spec_height(), img@, chars@),
    {
        if !has_size(img, self.width, self.height) {
            return false;
        }
        // The slash that divides the vitality
        let pos = Position { x: 32, y: 80, width: 7, height: 7 };
        is_slash(img, &pos, chars)
    }

    /// Reads the fields of the layout from the screen.
    ///
    /// Expects a binary image with the text as foreground.
    pub fn read_fields(&self, img: &GrayImage, chars: &CharTable) -> (res: Result<
        GscSummaryContent1,
        LayoutError,
    >)
        ensures
            res == self.content(img.spec_width(), img.spec_height(), img@, chars@),
    {
        if !has_size(img, self.width, self.height) {
            return Err(LayoutError::Dimensions { width: img.width(), height: img.height() });
        }
        let ndex = read_number(img, &self.ndex, chars, FieldName::Ndex)?;
        let level = read_number(img, &self.level, chars, FieldName::Level)?;
        let hp = read_number(img, &self.hp, chars, FieldName::Hp)?;
        Ok(GscSummaryContent1 { ndex, level, hp })
    }
}

/// The layout of the second summary screen of the second generation: the
/// number in the index, the level, the item and the four moves.
pub struct GscSummary2 {
    pub width: i32,
    pub height: i32,
    pub ndex: Position,
    pub level: Position,
    pub item: Position,
    pub move_1: Position,
    pub move_2: Position,
    pub move_3: Position,
    pub move_4: Position,
}

/// The content of the second summary screen of the second generation.
#[derive(Debug, PartialEq, PartialOrd, Clone)]
pub struct GscSummaryContent2 {
    pub ndex: i32,
    pub level: i32,
    pub item: String,
    pub move_1: String,
    pub move_2: String,
    pub move_3: String,
    pub move_4: String,
}

/// The content of the second summary screen of the second generation, each text as its characters.
pub struct GscSummaryContent2View {
    pub ndex: i32,
    pub level: i32,
    pub item: Seq<char>,
    pub move_1: Seq<char>,
    pub move_2: Seq<char>,
    pub move_3: Seq<char>,
    pub move_4: Seq<char>,
}

impl View for GscSummaryContent2 {
    type V = GscSummaryContent2View;

    open spec fn view(&self) -> GscSummaryContent2View {
        GscSummaryContent2View {
            ndex: self.ndex,
            level: self.level,
            item: self.item@,
            move_1: self.move_1@,
            move_2: self.move_2@,
            move_3: self.move_3@,
            move_4: self.move_4@,
        }
    }
}

impl GscSummary2 {
    /// Whether the layout is that of the second summary screen of the second generation as the
    /// games draw it: 160 by 144 pixels, with every field at its
    /// place.
    pub open spec fn is_standard(&self) -> bool {
        &&& self.width == 160
        &&& self.height == 144
        &&& self.ndex == (Position { x: 80, y: 0, width: 23, height: 7 })
        &&& self.level == (Position { x: 120, y: 0, width: 23, height: 7 })
        &&& self.item == (Position { x: 64, y: 64, width: 95, height: 7 })
        &&& self.move_1 == (Position { x: 64, y: 80, width: 95, height: 7 })
        &&& self.move_2 == (Position { x: 64, y: 96, width: 95, height: 7 })
        &&& self.move_3 == (Position { x: 64, y: 112, width: 95, height: 7 })
        &&& self.move_4 == (Position { x: 64, y: 128, width: 95, height: 7 })
    }

    /// The cell of the mark that tells this screen from the others:
    /// the slash between the points of the first move.
    pub open spec fn mark() -> Position {
        Position { x: 136, y: 88, width: 7, height: 7 }
    }

    /// Whether the layout is that of a screen: 160 by 144 pixels, and every
    /// field a line of text within them.
    pub open spec fn is_valid(&self) -> bool {
        &&& self.width == SCREEN_WIDTH
        &&& self.height == SCREEN_HEIGHT
        &&& is_screen_field(self.ndex)
        &&& is_screen_field(self.level)
        &&& is_screen_field(self.item)
        &&& is_screen_field(self.move_1)
        &&& is_screen_field(self.move_2)
        &&& is_screen_field(self.move_3)
        &&& is_screen_field(self.move_4)
    }

    /// Whether the image shows this screen: it has the size of the layout
    /// and a slash at the mark.
    pub open spec fn matches(
        &self,
        width: int,
        height: int,
        pixels: Seq<u8>,
        chars: Map<u64, Seq<char>>,
    ) -> bool {
        &&& width == self.width
        &&& height == self.height
        &&& shows_slash(width, height, pixels, Self::mark(), chars)
    }

    /// What the image shows in the fields of this layout, or the first
    /// reason in the order of the fields why it was not read.
    pub open spec fn content(
        &self,
        width: int,
        height: int,
        pixels: Seq<u8>,
        chars: Map<u64, Seq<char>>,
    ) -> Result<GscSummaryContent2View, LayoutError> {
        if width != self.width || height != self.height {
            Err(LayoutError::Dimensions { width: width as u32, height: height as u32 })
        } else {
            match (
                number_field(width, height, pixels, self.ndex, chars, FieldName::Ndex),
                number_field(width, height, pixels, self.level, chars, FieldName::Level),
                text_field(width, height, pixels, self.item, chars, FieldName::Item),
                text_field(width, height, pixels, self.move_1, chars, FieldName::Move1),
                text_field(width, height, pixels, self.move_2, chars, FieldName::Move2),
                text_field(width, height, pixels, self.move_3, chars, FieldName::Move3),
                text_field(width, height, pixels, self.move_4, chars, FieldName::Move4),
            ) {
                (Err(e), _, _, _, _, _, _) => Err(e),
                (Ok(_), Err(e), _, _, _, _, _) => Err(e),
                (Ok(_), Ok(_), Err(e), _, _, _, _) => Err(e),
                (Ok(_), Ok(_), Ok(_), Err(e), _, _, _) => Err(e),
                (Ok(_), Ok(_), Ok(_), Ok(_), Err(e), _, _) => Err(e),
                (Ok(_), Ok(_), Ok(_), Ok(_), Ok(_), Err(e), _) => Err(e),
                (Ok(_), Ok(_), Ok(_), Ok(_), Ok(_), Ok(_), Err(e)) => Err(e),
                (Ok(ndex), Ok(level), Ok(item), Ok(move_1), Ok(move_2), Ok(move_3), Ok(move_4)) => Ok(
                    GscSummaryContent2View { ndex, level, item, move_1, move_2, move_3, move_4 },
                ),
            }
        }
    }

    /// Creates the layout of the second summary screen of the second generation.
    pub fn new() -> (layout: GscSummary2)
        ensures
            layout.is_valid(),
            layout.ndex == (Position { x: 80, y: 0, width: 23, height: 7 }),
            layout.level == (Position { x: 120, y: 0, width: 23, height: 7 }),
            layout.item == (Position { x: 64, y: 64, width: 95, height: 7 }),
            layout.move_1 == (Position { x: 64, y: 80, width: 95, height: 7 }),
            layout.move_2 == (Position { x: 64, y: 96, width: 95, height: 7 }),
            layout.move_3 == (Position { x: 64, y: 112, width: 95, height: 7 }),
            layout.move_4 == (Position { x: 64, y: 128, width: 95, height: 7 }),
    {
        GscSummary2 {
            width: 160,
            height: 144,
            ndex: Position { x: 80, y: 0, width: 23, height: 7 },
            level: Position { x: 120, y: 0, width: 23, height: 7 },
            item: Position { x: 64, y: 64, width: 95, height: 7 },
            move_1: Position { x: 64, y: 80, width: 95, height: 7 },
            move_2: Position { x: 64, y: 96, width: 95, height: 7 },
            move_3: Position { x: 64, y: 112, width: 95, height: 7 },
            move_4: Position { x: 64, y: 128, width: 95, height: 7 },
        }
    }

    /// Returns true if the image is the second summary screen of the second generation.
    ///
    /// Expects a binary image with the text as foreground.
    pub fn verify_layout(&self, img: &GrayImage, chars: &CharTable) -> (b: bool)
        ensures
            b == self.matches(img.spec_width(), img.spec_height(), img@, chars@),
    {
        if !has_size(img, self.width, self.height) {
            return false;
        }
        // The slash between the points of the first move
        let pos = Position { x: 136, y: 88, width: 7, height: 7 };
        is_slash(img, &pos, chars)
    }

    /// Reads the fields of the layout from the screen.
    ///
    /// Expects a binary image with the text as foreground.
    pub fn read_fields(&self, img: &GrayImage, chars: &CharTable) -> (res: Result<
        GscSummaryContent2,
        LayoutError,
    >)
        ensures
            match res {
                Ok(c) => self.content(img.spec_width(), img.spec_height(), img@, chars@) == Ok::<
                    GscSummaryContent2View,
                    LayoutError,
                >(c@),
                Err(e) => self.content(img.spec_width(), img.spec_height(), img@, chars@) == Err::<
                    GscSummaryContent2View,
                    LayoutError,
                >(e),
            },
    {
        if !has_size(img, self.width, self.height) {
            return Err(LayoutError::Dimensions { width: img.width(), height: img.height() });
        }
        let ndex = read_number(img, &self.ndex, chars, FieldName::Ndex)?;
        let level = read_number(img, &self.level, chars, FieldName::Level)?;
        let item = read_text(img, &self.item, chars, FieldName::Item)?;
        let move_1 = read_text(img, &self.move_1, chars, FieldName::Move1)?;
        let move_2 = read_text(img, &self.move_2, chars, FieldName::Move2)?;
        let move_3 = read_text(img, &self.move_3, chars, FieldName::Move3)?;
        let move_4 = read_text(img, &self.move_4, chars, FieldName::Move4)?;
        Ok(GscSummaryContent2 { ndex, level, item, move_1, move_2, move_3, move_4 })
    }
}

/// The layout of the third summary screen of the second generation: the
/// number in the index, the level and the five other stats.
pub struct GscSummary3 {
    pub width: i32,
    pub height: i32,
    pub ndex: Position,
    pub level: Position,
    pub attack: Position,
    pub defense: Position,
    pub spc_attack: Position,
    pub spc_defense: Position,
    pub speed: Position,
}

/// The content of the third summary screen of the second generation.
#[derive(Debug, PartialEq, PartialOrd, Clone)]
pub struct GscSummaryContent3 {
    pub ndex: i32,
    pub level: i32,
    pub attack: i32,
    pub defense: i32,
    pub spc_attack: i32,
    pub spc_defense: i32,
    pub speed: i32,
}

impl GscSummary3 {
    /// Whether the layout is that of the third summary screen of the second generation as the
    /// games draw it: 160 by 144 pixels, with every field at its
    /// place.
    pub open spec fn is_standard(&self) -> bool {
        &&& self.width == 160
        &&& self.height == 144
        &&& self.ndex == (Position { x: 80, y: 0, width: 23, height: 7 })
        &&& self.level == (Position { x: 120, y: 0, width: 23, height: 7 })
        &&& self.attack == (Position { x: 136, y: 72, width: 23, height: 7 })
        &&& self.defense == (Position { x: 136, y: 88, width: 23, height: 7 })
        &&& self.spc_attack == (Position { x: 136, y: 104, width: 23, height: 7 })
        &&& self.spc_defense == (Position { x: 136, y: 120, width: 23, height: 7 })
        &&& self.speed == (Position { x: 136, y: 136, width: 23, height: 7 })
    }

    /// The cell of the mark that tells this screen from the others:
    /// the slash after the number of the first trainer.
    pub open spec fn mark() -> Position {
        Position { x: 16, y: 96, width: 7, height: 7 }
    }

    /// Whether the layout is that of a screen: 160 by 144 pixels, and every
    /// field a line of text within them.
    pub open spec fn is_valid(&self) -> bool {
        &&& self.width == SCREEN_WIDTH
        &&& self.height == SCREEN_HEIGHT
        &&& is_screen_field(self.ndex)
        &&& is_screen_field(self.level)
        &&& is_screen_field(self.attack)
        &&& is_screen_field(self.defense)
        &&& is_screen_field(self.spc_attack)
        &&& is_screen_field(self.spc_defense)
        &&& is_screen_field(self.speed)
    }

    /// Whether the image shows this screen: it has the size of the layout
    /// and a slash at the mark.
    pub open spec fn matches(
        &self,
        width: int,
        height: int,
        pixels: Seq<u8>,
        chars: Map<u64, Seq<char>>,
    ) -> bool {
        &&& width == self.width
        &&& height == self.height
        &&& shows_slash(width, height, pixels, Self::mark(), chars)
    }

    /// What the image shows in the fields of this layout, or the first
    /// reason in the order of the fields why it was not read.
    pub open spec fn content(
        &self,
        width: int,
        height: int,
        pixels: Seq<u8>,
        chars: Map<u64, Seq<char>>,
    ) -> Result<GscSummaryContent3, LayoutError> {
        if width != self.width || height != self.height {
            Err(LayoutError::Dimensions { width: width as u32, height: height as u32 })
        } else {
            match (
                number_field(width, height, pixels, self.ndex, chars, FieldName::Ndex),
                number_field(width, height, pixels, self.level, chars, FieldName::Level),
                number_field(width, height, pixels, self.attack, chars, FieldName::Attack),
                number_field(width, height, pixels, self.defense, chars, FieldName::Defense),
                number_field(width, height, pixels, self.spc_attack, chars, FieldName::SpcAttack),
                number_field(width, height, pixels, self.spc_defense, chars, FieldName::SpcDefense),
                number_field(width, height, pixels, self.speed, chars, FieldName::Speed),
            ) {
                (Err(e), _, _, _, _, _, _) => Err(e),
                (Ok(_), Err(e), _, _, _, _, _) => Err(e),
                (Ok(_), Ok(_), Err(e), _, _, _, _) => Err(e),
                (Ok(_), Ok(_), Ok(_), Err(e), _, _, _) => Err(e),
                (Ok(_), Ok(_), Ok(_), Ok(_), Err(e), _, _) => Err(e),
                (Ok(_), Ok(_), Ok(_), Ok(_), Ok(_), Err(e), _) => Err(e),
                (Ok(_), Ok(_), Ok(_), Ok(_), Ok(_), Ok(_), Err(e)) => Err(e),
                (Ok(ndex), Ok(level), Ok(attack), Ok(defense), Ok(spc_attack), Ok(spc_defense), Ok(speed)) => Ok(
                    GscSummaryContent3 { ndex, level, attack, defense, spc_attack, spc_defense, speed },
                ),
            }
        }
    }

    /// Creates the layout of the third summary screen of the second generation.
    pub fn new() -> (layout: GscSummary3)
        ensures
            layout.is_valid(),
            layout.ndex == (Position { x: 80, y: 0, width: 23, height: 7 }),
            layout.level == (Position { x: 120, y: 0, width: 23, height: 7 }),
            layout.attack == (Position { x: 136, y: 72, width: 23, height: 7 }),
            layout.defense == (Position { x: 136, y: 88, width: 23, height: 7 }),
            layout.spc_attack == (Position { x: 136, y: 104, width: 23, height: 7 }),
            layout.spc_defense == (Position { x: 136, y: 120, width: 23, height: 7 }),
            layout.speed == (Position { x: 136, y: 136, width: 23, height: 7 }),
    {
        GscSummary3 {
            width: 160,
            height: 144,
            ndex: Position { x: 80, y: 0, width: 23, height: 7 },
            level: Position { x: 120, y: 0, width: 23, height: 7 },
            attack: Position { x: 136, y: 72, width: 23, height: 7 },
            defense: Position { x: 136, y: 88, width: 23, height: 7 },
            spc_attack: Position { x: 136, y: 104, width: 23, height: 7 },
            spc_defense: Position { x: 136, y: 120, width: 23, height: 7 },
            speed: Position { x: 136, y: 136, width: 23, height: 7 },
        }
    }

    /// Returns true if the image is the third summary screen of the second generation.
    ///
    /// Expects a binary image with the text as foreground.
    pub fn verify_layout(&self, img: &GrayImage, chars: &CharTable) -> (b: bool)
        ensures
            b == self.matches(img.spec_width(), img.spec_height(), img@, chars@),
    {
        if !has_size(img, self.width, self.height) {
            return false;
        }
        // The slash after the number of the first trainer
        let pos = Position { x: 16, y: 96, width: 7, height: 7 };
        is_slash(img, &pos, chars)
    }

    /// Reads the fields of the layout from the screen.
    ///
    /// Expects a binary image with the text as foreground.
    pub fn read_fields(&self, img: &GrayImage, chars: &CharTable) -> (res: Result<
        GscSummaryContent3,
        LayoutError,
    >)
        ensures
            res == self.content(img.spec_width(), img.spec_height(), img@, chars@),
    {
        if !has_size(img, self.width, self.height) {
            return Err(LayoutError::Dimensions { width: img.width(), height: img.height() });
        }
        let ndex = read_number(img, &self.ndex, chars, FieldName::Ndex)?;
        let level = read_number(img, &self.level, chars, FieldName::Level)?;
        let attack = read_number(img, &self.attack, chars, FieldName::Attack)?;
        let defense = read_number(img, &self.defense, chars, FieldName::Defense)?;
        let spc_attack = read_number(img, &self.spc_attack, chars, FieldName::SpcAttack)?;
        let spc_defense = read_number(img, &self.spc_defense, chars, FieldName::SpcDefense)?;
        let speed = read_number(img, &self.speed, chars, FieldName::Speed)?;
        Ok(GscSummaryContent3 { ndex, level, attack, defense, spc_attack, spc_defense, speed })
    }
}

} // verus!
