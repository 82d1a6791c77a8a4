use pokemon_dv_calculator::glyphs::{DIGIT_GLYPHS, GSC_FIVE_GLYPH, GSC_TWO_GLYPH, SLASH_GLYPH};
use pokemon_dv_calculator::layout::{
    is_slash, read_number, read_text, FieldName, GscSummary1, GscSummary2, GscSummary3,
    GscSummaryContent1, GscSummaryContent2, GscSummaryContent3, LayoutError, RbySummary1,
    RbySummary2, RbySummaryContent, RbySummaryContent2,
};
use pokemon_dv_calculator::ocr::{CharBitmap, CharError, CharTable, FieldError};
use pokemon_dv_calculator::position::Position;
use pokemon_dv_calculator::raster::GrayImage;
use pokemon_dv_calculator::scan::{
    normalize, scan, ExtractedContent, Layouts, ScanError, ScreenKind,
};

const ALPHABET: &str = "ABCDEFGHIJKLMNOPQRSTUVWXYZ";

fn letter_glyph(k: usize) -> u64 {
    0x7F | (((k as u64) + 1) << 7)
}

const HYPHEN: u64 = 0x7F << 21;

/// The glyph of a character of the first generation.
fn glyph(c: char) -> u64 {
    match c {
        ' ' => 0,
        '/' => SLASH_GLYPH,
        '-' => HYPHEN,
        '0'..='9' => DIGIT_GLYPHS[c as usize - '0' as usize],
        _ => letter_glyph(ALPHABET.find(c).unwrap()),
    }
}

fn table() -> CharTable {
    let mut entries = Vec::new();
    for c in ALPHABET.chars() {
        entries.push((c, glyph(c)));
    }
    for c in " /-0123456789".chars() {
        entries.push((c, glyph(c)));
    }
    let texts: Vec<String> = entries.iter().map(|e| e.0.to_string()).collect();
    let mut leaked: Vec<(CharBitmap, &'static str)> = Vec::new();
    for (i, e) in entries.iter().enumerate() {
        let label: &'static str = Box::leak(texts[i].clone().into_boxed_str());
        leaked.push((CharBitmap::from_bits(e.1).unwrap(), label));
    }
    leaked.push((CharBitmap::from_bits(GSC_TWO_GLYPH).unwrap(), "2"));
    leaked.push((CharBitmap::from_bits(GSC_FIVE_GLYPH).unwrap(), "5"));
    CharTable::from_entries(&leaked).unwrap()
}

/// A screen under construction: text is drawn in white on black.
struct Screen {
    data: Vec<u8>,
}

impl Screen {
    fn new() -> Screen {
        Screen { data: vec![0; 160 * 144] }
    }

    /// Draws a glyph over whatever the cell shows.
    fn glyph(&mut self, x: u32, y: u32, bits: u64) {
        for i in 0..49u32 {
            let ink = if (bits >> i) & 1 == 1 { 255 } else { 0 };
            self.data[((y + i / 7) * 160 + x + i % 7) as usize] = ink;
        }
    }

    /// Writes a text into a field, one character to a cell.
    fn text(&mut self, pos: &Position, text: &str) {
        assert_eq!(text.chars().count() as u32, (pos.width + 1) / 8);
        for (i, c) in text.chars().enumerate() {
            self.glyph(pos.x + 8 * i as u32, pos.y, glyph(c));
        }
    }

    fn image(&self) -> GrayImage {
        GrayImage::from_raw(160, 144, self.data.clone()).unwrap()
    }
}

fn rby_summary_1() -> Screen {
    let layout = RbySummary1::new();
    let mut screen = Screen::new();
    for pos in &layout.slash_positions {
        screen.glyph(pos.x, pos.y, SLASH_GLYPH);
    }
    screen.text(&layout.pkmn_ndex_pos, "025");
    screen.text(&layout.level_field_pos, "81 ");
    screen.text(&layout.hp_field_pos, "189");
    screen.text(&layout.attack_field_pos, "137");
    screen.text(&layout.defense_field_pos, " 88");
    screen.text(&layout.speed_field_pos, "190");
    screen.text(&layout.special_field_pos, "128");
    screen
}

fn rby_summary_2() -> Screen {
    let layout = RbySummary2::new();
    let mut screen = Screen::new();
    screen.glyph(128, 81, SLASH_GLYPH);
    screen.text(&layout.pkmn_ndex_pos, "025");
    screen.text(&layout.move_1, "THUNDERBOLT ");
    screen.text(&layout.move_2, "QUICK ATTACK");
    screen.text(&layout.move_3, "-           ");
    screen.text(&layout.move_4, "            ");
    screen
}

#[test]
fn layouts_have_the_size_of_the_screen() {
    let rby = RbySummary1::new();
    assert_eq!((rby.width, rby.height), (160, 144));
    assert_eq!(rby.hp_field_pos, Position { x: 128, y: 32, width: 23, height: 7 });
    assert_eq!(rby.special_field_pos, Position { x: 48, y: 128, width: 23, height: 7 });
    assert_eq!(rby.slash_positions[3], Position { x: 96, y: 105, width: 7, height: 7 });
    let gsc = GscSummary3::new();
    assert_eq!(gsc.speed, Position { x: 136, y: 136, width: 23, height: 7 });
    assert_eq!(GscSummary2::new().item, Position { x: 64, y: 64, width: 95, height: 7 });
}

#[test]
fn fields_of_the_layouts_are_lines_of_text() {
    let layouts = Layouts::new();
    let rby = &layouts.rby_summary_1;
    let rby2 = &layouts.rby_summary_2;
    let gsc1 = &layouts.gsc_summary_1;
    let gsc2 = &layouts.gsc_summary_2;
    let gsc3 = &layouts.gsc_summary_3;
    let fields = [
        rby.pkmn_ndex_pos,
        rby.level_field_pos,
        rby.hp_field_pos,
        rby.attack_field_pos,
        rby.defense_field_pos,
        rby.speed_field_pos,
        rby.special_field_pos,
        rby2.pkmn_ndex_pos,
        rby2.move_1,
        rby2.move_2,
        rby2.move_3,
        rby2.move_4,
        gsc1.ndex,
        gsc1.level,
        gsc1.hp,
        gsc2.ndex,
        gsc2.level,
        gsc2.item,
        gsc2.move_1,
        gsc2.move_2,
        gsc2.move_3,
        gsc2.move_4,
        gsc3.ndex,
        gsc3.level,
        gsc3.attack,
        gsc3.defense,
        gsc3.spc_attack,
        gsc3.spc_defense,
        gsc3.speed,
    ];
    for pos in fields {
        assert_eq!((pos.width + 1) % 8, 0);
        assert_eq!(pos.height, 7);
        assert!(pos.x + pos.width <= 160 && pos.y + pos.height <= 144);
    }
}

#[test]
fn first_summary_screen_is_read() {
    let chars = table();
    let layout = RbySummary1::new();
    let img = rby_summary_1().image();
    assert!(layout.verify_layout(&img, &chars));
    assert_eq!(
        layout.read_fields(&img, &chars),
        Ok(RbySummaryContent {
            ndex: 25,
            level: 81,
            hp: 189,
            attack: 137,
            defense: 88,
            speed: 190,
            special: 128
        })
    );
}

#[test]
fn screen_without_a_mark_is_another_screen() {
    let chars = table();
    let layout = RbySummary1::new();
    let mut screen = rby_summary_1();
    // Take the fourth slash away.
    screen.glyph(96, 105, 0);
    assert!(!layout.verify_layout(&screen.image(), &chars));
    // The fields are still there to be read.
    assert!(layout.read_fields(&screen.image(), &chars).is_ok());
    let small = GrayImage::from_raw(159, 144, vec![0; 159 * 144]).unwrap();
    assert!(!layout.verify_layout(&small, &chars));
    assert_eq!(
        layout.read_fields(&small, &chars),
        Err(LayoutError::Dimensions { width: 159, height: 144 })
    );
}

#[test]
fn field_that_is_no_number_is_reported() {
    let chars = table();
    let layout = RbySummary1::new();
    let mut screen = rby_summary_1();
    screen.glyph(layout.attack_field_pos.x + 8, layout.attack_field_pos.y, HYPHEN);
    assert_eq!(
        layout.read_fields(&screen.image(), &chars),
        Err(LayoutError::Parse { field: FieldName::Attack })
    );
    // An unknown glyph in an earlier field is reported first.
    screen.glyph(layout.level_field_pos.x + 16, layout.level_field_pos.y, 1);
    assert_eq!(
        layout.read_fields(&screen.image(), &chars),
        Err(LayoutError::Read {
            field: FieldName::Level,
            cause: FieldError::Character { index: 2, cause: CharError::NotRecognized }
        })
    );
}

#[test]
fn empty_field_is_no_number() {
    let chars = table();
    let img = Screen::new().image();
    let pos = Position { x: 0, y: 0, width: 23, height: 7 };
    assert_eq!(read_text(&img, &pos, &chars, FieldName::Item), Ok(String::new()));
    assert_eq!(
        read_number(&img, &pos, &chars, FieldName::Hp),
        Err(LayoutError::Parse { field: FieldName::Hp })
    );
    assert!(!is_slash(&img, &Position { x: 0, y: 0, width: 7, height: 7 }, &chars));
}

#[test]
fn second_summary_screen_is_read() {
    let chars = table();
    let layout = RbySummary2::new();
    let img = rby_summary_2().image();
    assert!(layout.verify_layout(&img, &chars));
    assert!(!RbySummary1::new().verify_layout(&img, &chars));
    assert_eq!(
        layout.read_fields(&img, &chars),
        Ok(RbySummaryContent2 {
            ndex: "025".to_string(),
            move_1: "THUNDERBOLT".to_string(),
            move_2: "QUICK ATTACK".to_string(),
            move_3: "-".to_string(),
            move_4: String::new(),
        })
    );
}

#[test]
fn summary_screens_of_the_second_generation_are_read() {
    let chars = table();
    let layouts = Layouts::new();

    let layout = &layouts.gsc_summary_1;
    let mut screen = Screen::new();
    screen.glyph(32, 80, SLASH_GLYPH);
    screen.text(&layout.ndex, "152");
    screen.text(&layout.level, "5  ");
    screen.text(&layout.hp, " 20");
    let img = screen.image();
    assert_eq!(layouts.recognize(&img, &chars), Some(ScreenKind::GscSummary1));
    assert_eq!(
        layout.read_fields(&img, &chars),
        Ok(GscSummaryContent1 { ndex: 152, level: 5, hp: 20 })
    );

    let layout = &layouts.gsc_summary_2;
    let mut screen = Screen::new();
    screen.glyph(136, 88, SLASH_GLYPH);
    screen.text(&layout.ndex, "152");
    screen.text(&layout.level, "5  ");
    screen.text(&layout.item, "BERRY       ");
    screen.text(&layout.move_1, "TACKLE      ");
    screen.text(&layout.move_2, "GROWL       ");
    screen.text(&layout.move_3, "-           ");
    screen.text(&layout.move_4, "-           ");
    let img = screen.image();
    assert_eq!(layouts.recognize(&img, &chars), Some(ScreenKind::GscSummary2));
    assert_eq!(
        layout.read_fields(&img, &chars),
        Ok(GscSummaryContent2 {
            ndex: 152,
            level: 5,
            item: "BERRY".to_string(),
            move_1: "TACKLE".to_string(),
            move_2: "GROWL".to_string(),
            move_3: "-".to_string(),
            move_4: "-".to_string(),
        })
    );

    let layout = &layouts.gsc_summary_3;
    let mut screen = Screen::new();
    screen.glyph(16, 96, SLASH_GLYPH);
    screen.text(&layout.ndex, "152");
    screen.text(&layout.level, "5  ");
    screen.text(&layout.attack, " 11");
    screen.text(&layout.defense, " 12");
    screen.text(&layout.spc_attack, " 10");
    screen.text(&layout.spc_defense, " 13");
    screen.text(&layout.speed, "  9");
    // The second generation draws its own 2 and 5.
    screen.data.iter_mut().for_each(|p| *p = 0);
    screen.glyph(16, 96, SLASH_GLYPH);
    screen.text(&layout.ndex, "1 7");
    screen.glyph(layout.ndex.x + 8, layout.ndex.y, GSC_FIVE_GLYPH);
    screen.text(&layout.level, "7  ");
    screen.text(&layout.attack, " 11");
    screen.text(&layout.defense, " 1 ");
    screen.glyph(layout.defense.x + 16, layout.defense.y, GSC_TWO_GLYPH);
    screen.text(&layout.spc_attack, " 10");
    screen.text(&layout.spc_defense, " 13");
    screen.text(&layout.speed, "  9");
    let img = screen.image();
    assert_eq!(layouts.recognize(&img, &chars), Some(ScreenKind::GscSummary3));
    assert_eq!(
        layouts.read(&img, &chars),
        Ok(ExtractedContent::GscSummary3(GscSummaryContent3 {
            ndex: 157,
            level: 7,
            attack: 11,
            defense: 12,
            spc_attack: 10,
            spc_defense: 13,
            speed: 9
        }))
    );
    assert!(GscSummary1::new().read_fields(&img, &chars).is_err());
}

#[test]
fn screen_without_marks_is_not_recognized() {
    let chars = table();
    let layouts = Layouts::new();
    let img = Screen::new().image();
    assert!(!layouts.rby_summary_1.verify_layout(&img, &chars));
    assert!(!layouts.rby_summary_2.verify_layout(&img, &chars));
    assert!(!layouts.gsc_summary_1.verify_layout(&img, &chars));
    assert!(!layouts.gsc_summary_2.verify_layout(&img, &chars));
    assert!(!layouts.gsc_summary_3.verify_layout(&img, &chars));
    assert_eq!(layouts.recognize(&img, &chars), None);
    assert_eq!(layouts.read(&img, &chars), Err(ScanError::NotRecognized));
    // Other characters at the marks are no marks either.
    let mut screen = Screen::new();
    for pos in &layouts.rby_summary_1.slash_positions {
        screen.glyph(pos.x, pos.y, DIGIT_GLYPHS[1]);
    }
    screen.glyph(128, 81, HYPHEN);
    screen.glyph(32, 80, DIGIT_GLYPHS[7]);
    assert_eq!(layouts.read(&screen.image(), &chars), Err(ScanError::NotRecognized));
}

#[test]
fn recognized_screen_with_a_broken_field() {
    let chars = table();
    let layouts = Layouts::new();
    let mut screen = rby_summary_1();
    screen.glyph(layouts.rby_summary_1.hp_field_pos.x, layouts.rby_summary_1.hp_field_pos.y, 3);
    assert_eq!(
        layouts.read(&screen.image(), &chars),
        Err(ScanError::Layout(LayoutError::Read {
            field: FieldName::Hp,
            cause: FieldError::Character { index: 0, cause: CharError::NotRecognized }
        }))
    );
}

#[test]
fn layouts_are_tried_in_order() {
    let chars = table();
    let layouts = Layouts::new();
    let mut screen = rby_summary_1();
    screen.glyph(128, 81, SLASH_GLYPH);
    screen.glyph(16, 96, SLASH_GLYPH);
    assert_eq!(layouts.recognize(&screen.image(), &chars), Some(ScreenKind::RbySummary1));
    let mut screen = Screen::new();
    screen.glyph(16, 96, SLASH_GLYPH);
    screen.glyph(136, 88, SLASH_GLYPH);
    assert_eq!(layouts.recognize(&screen.image(), &chars), Some(ScreenKind::GscSummary2));
}

#[test]
fn reading_twice_gives_the_same() {
    let chars = table();
    let layouts = Layouts::new();
    let img = rby_summary_1().image();
    let first = layouts.read(&img, &chars);
    let second = layouts.read(&img, &chars);
    assert!(first.is_ok());
    assert_eq!(first, second);
    let img = Screen::new().image();
    assert_eq!(layouts.read(&img, &chars), layouts.read(&img, &chars));
}

/// A picture with the screen at twice its size, dark text on a light
/// ground, on a dark table.
fn photo(screen: &Screen, x0: usize, y0: usize) -> GrayImage {
    let (width, height) = (500usize, 400usize);
    let mut data = vec![30u8; width * height];
    for y in 0..288 {
        for x in 0..320 {
            let text = screen.data[(y / 2) * 160 + x / 2] != 0;
            data[(y0 + y) * width + x0 + x] = if text { 40 } else { 220 };
        }
    }
    GrayImage::from_raw(width as u32, height as u32, data).unwrap()
}

#[test]
fn screen_is_cut_out_scaled_and_inverted() {
    let screen = rby_summary_1();
    let picture = photo(&screen, 60, 50);
    let pos = Position { x: 60, y: 50, width: 320, height: 288 };
    let normal = normalize(&picture, &pos).unwrap();
    assert_eq!(normal.dimensions(), (160, 144));
    assert_eq!(normal.as_raw(), &screen.data);
    assert!(normalize(&picture, &Position { x: 500, y: 0, width: 10, height: 10 }).is_none());
    assert!(normalize(&picture, &Position { x: 0, y: 0, width: 0, height: 10 }).is_none());
}

#[test]
fn picture_is_scanned() {
    let chars = table();
    let layouts = Layouts::new();
    let picture = photo(&rby_summary_1(), 60, 50);
    assert_eq!(
        scan(&layouts, &picture, &chars),
        Ok(ExtractedContent::RbySummary1(RbySummaryContent {
            ndex: 25,
            level: 81,
            hp: 189,
            attack: 137,
            defense: 88,
            speed: 190,
            special: 128
        }))
    );
    let picture = photo(&Screen::new(), 60, 50);
    assert_eq!(scan(&layouts, &picture, &chars), Err(ScanError::NotRecognized));
    let dark = GrayImage::from_raw(500, 400, vec![30; 500 * 400]).unwrap();
    assert_eq!(scan(&layouts, &dark, &chars), Err(ScanError::NoScreen));
}
