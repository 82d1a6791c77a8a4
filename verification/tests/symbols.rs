use pokemon_dv_calculator::glyphs::{DIGIT_GLYPHS, SLASH_GLYPH};
use pokemon_dv_calculator::position::Position;
use pokemon_dv_calculator::raster::GrayImage;
use pokemon_dv_calculator::stats::Stats;
use pokemon_dv_calculator::symbols::{
    create_char_bitmaps, create_symbol_bitmaps, match_char, match_field, match_symbol,
    read_image_section, read_line, read_symbol, read_text, StatScreen1Layout, StatScreen2Layout,
    StatsSreen1Content, SymbolBitmap, SymbolError,
};

/// Draws a glyph in black into a picture that is `width` wide.
fn draw(data: &mut [u8], width: usize, x: usize, y: usize, bits: u64) {
    for i in 0..49 {
        data[(y + i / 7) * width + x + i % 7] = if (bits >> i) & 1 == 1 { 10 } else { 240 };
    }
}

fn cell(bits: u64) -> GrayImage {
    let mut data = vec![240u8; 49];
    draw(&mut data, 7, 0, 0, bits);
    GrayImage::from_raw(7, 7, data).unwrap()
}

/// A screen as the console shows it: dark text on a light ground.
fn screen(texts: &[(Position, &str)], slashes: &[Position]) -> GrayImage {
    let mut data = vec![240u8; 160 * 144];
    for (pos, text) in texts {
        for (i, c) in text.chars().enumerate() {
            let bits = if c == ' ' { 0 } else { DIGIT_GLYPHS[c as usize - '0' as usize] };
            draw(&mut data, 160, pos.x as usize + 8 * i, pos.y as usize, bits);
        }
    }
    for pos in slashes {
        draw(&mut data, 160, pos.x as usize, pos.y as usize, SLASH_GLYPH);
    }
    GrayImage::from_raw(160, 144, data).unwrap()
}

#[test]
fn lazy_array_becomes_a_binary_picture() {
    let mut arr = [0u8; 49];
    arr[3] = 1;
    arr[48] = 9;
    let bitmap = SymbolBitmap::from_lazy_array(&arr);
    for i in 0..49 {
        assert_eq!(bitmap.vals[i], if i == 3 || i == 48 { 0 } else { 255 });
    }
    let bitmap = SymbolBitmap::from_fingerprint(SLASH_GLYPH);
    for i in 0..49 {
        assert_eq!(bitmap.vals[i] == 0, i % 7 + i / 7 == 6);
    }
}

#[test]
fn symbols_are_the_digits_and_the_space() {
    let (symbols, bitmaps) = create_symbol_bitmaps();
    assert_eq!(symbols, vec!["0", "1", "2", "3", "4", "5", "6", "7", "8", "9", " "]);
    assert_eq!(bitmaps.len(), 11);
    let zero = [
        0, 0, 0, 0, 0, 0, 0, //
        0, 0, 1, 1, 1, 0, 0, //
        0, 1, 0, 0, 1, 1, 0, //
        1, 1, 0, 0, 0, 1, 1, //
        1, 1, 0, 0, 0, 1, 1, //
        0, 1, 1, 0, 0, 1, 0, //
        0, 0, 1, 1, 1, 0, 0, //
    ];
    assert_eq!(bitmaps[0].vals, SymbolBitmap::from_lazy_array(&zero).vals);
    assert_eq!(bitmaps[10].vals, [255; 49]);
    let nine = [
        0, 0, 0, 0, 0, 0, 0, //
        0, 1, 1, 1, 1, 1, 0, //
        1, 1, 0, 0, 0, 1, 1, //
        1, 1, 0, 0, 0, 1, 1, //
        0, 1, 1, 1, 1, 1, 1, //
        0, 0, 0, 0, 0, 1, 1, //
        0, 1, 1, 1, 1, 1, 0, //
    ];
    assert_eq!(bitmaps[9].vals, SymbolBitmap::from_lazy_array(&nine).vals);
    let (chars, fonts) = create_char_bitmaps();
    assert_eq!(chars, vec!['0', '1', '2', '3', '4', '5', '6', '7', '8', '9', ' ']);
    for k in 0..11 {
        assert_eq!(fonts[k], bitmaps[k].vals);
    }
}

#[test]
fn differing_pixels_are_counted() {
    let (_, bitmaps) = create_symbol_bitmaps();
    let three = cell(DIGIT_GLYPHS[3]).threshold(200);
    assert_eq!(match_symbol(&three, &bitmaps[3]), Ok(0));
    assert_eq!(match_symbol(&three, &bitmaps[10]), Ok(DIGIT_GLYPHS[3].count_ones() as i32));
    assert_eq!(
        match_symbol(&three, &bitmaps[8]),
        Ok((DIGIT_GLYPHS[3] ^ DIGIT_GLYPHS[8]).count_ones() as i32)
    );
    let wide = GrayImage::from_raw(8, 7, vec![0; 56]).unwrap();
    assert_eq!(
        match_symbol(&wide, &bitmaps[3]),
        Err(SymbolError::Dimensions { width: 8, height: 7 })
    );
}

#[test]
fn nearest_symbol_is_read_within_one_pixel() {
    let pairs = create_symbol_bitmaps();
    assert_eq!(read_symbol(&cell(DIGIT_GLYPHS[4]), &pairs), Ok("4".to_string()));
    assert_eq!(read_symbol(&cell(DIGIT_GLYPHS[4] ^ 1), &pairs), Ok("4".to_string()));
    assert_eq!(read_symbol(&cell(DIGIT_GLYPHS[4] ^ 3), &pairs), Err(SymbolError::NotRecognized));
    assert_eq!(read_symbol(&cell(0), &pairs), Ok(" ".to_string()));
    assert_eq!(read_symbol(&cell(1 << 20), &pairs), Ok(" ".to_string()));
    // Of two symbols that are equally near, the first is taken.
    let two = (
        vec!["a".to_string(), "b".to_string(), "c".to_string()],
        vec![
            SymbolBitmap::from_fingerprint(0b111),
            SymbolBitmap::from_fingerprint(0b001),
            SymbolBitmap::from_fingerprint(0b100),
        ],
    );
    assert_eq!(read_symbol(&cell(0b101), &two), Ok("a".to_string()));
    assert_eq!(read_symbol(&cell(0b000), &two), Ok("b".to_string()));
    assert_eq!(read_symbol(&cell(0b100), &two), Ok("c".to_string()));
    let none: (Vec<String>, Vec<SymbolBitmap>) = (vec![], vec![]);
    assert_eq!(read_symbol(&cell(0), &none), Err(SymbolError::NoSymbols));
    let unpaired = (vec!["0".to_string()], vec![]);
    assert_eq!(read_symbol(&cell(0), &unpaired), Err(SymbolError::NoSymbols));
}

#[test]
fn line_of_symbols_is_read() {
    let pairs = create_symbol_bitmaps();
    let mut data = vec![240u8; 23 * 7];
    draw(&mut data, 23, 0, 0, DIGIT_GLYPHS[1]);
    draw(&mut data, 23, 8, 0, DIGIT_GLYPHS[8]);
    draw(&mut data, 23, 16, 0, DIGIT_GLYPHS[9]);
    let img = GrayImage::from_raw(23, 7, data).unwrap();
    assert_eq!(read_line(&img, &pairs), Ok("189".to_string()));
    let img = GrayImage::from_raw(24, 7, vec![240; 24 * 7]).unwrap();
    assert_eq!(read_line(&img, &pairs), Err(SymbolError::Geometry));
    let img = GrayImage::from_raw(23, 8, vec![240; 23 * 8]).unwrap();
    assert_eq!(read_line(&img, &pairs), Err(SymbolError::Geometry));
}

#[test]
fn section_of_the_screen_is_read() {
    let pairs = create_symbol_bitmaps();
    let pos = Position { x: 128, y: 32, width: 23, height: 7 };
    let img = screen(&[(pos, " 42")], &[]);
    assert_eq!(read_image_section(&img, &pos, &pairs), Ok(" 42".to_string()));
    // A field whose last column or row is the last of the image lies within it.
    let at_border = Position { x: 137, y: 32, width: 23, height: 7 };
    let img = screen(&[(at_border, "189")], &[]);
    assert_eq!(read_image_section(&img, &at_border, &pairs), Ok("189".to_string()));
    let at_bottom = Position { x: 0, y: 137, width: 23, height: 7 };
    let img = screen(&[(at_bottom, "7 0")], &[]);
    assert_eq!(read_image_section(&img, &at_bottom, &pairs), Ok("7 0".to_string()));
    let beyond = Position { x: 138, y: 32, width: 23, height: 7 };
    assert_eq!(read_image_section(&img, &beyond, &pairs), Err(SymbolError::OutOfBounds));
    let below = Position { x: 0, y: 138, width: 23, height: 7 };
    assert_eq!(read_image_section(&img, &below, &pairs), Err(SymbolError::OutOfBounds));
    let far = Position { x: u32::MAX, y: 0, width: 23, height: 7 };
    assert_eq!(read_image_section(&img, &far, &pairs), Err(SymbolError::OutOfBounds));
    let no_field = Position { x: 0, y: 0, width: 22, height: 7 };
    assert_eq!(read_image_section(&img, &no_field, &pairs), Err(SymbolError::Geometry));
}

#[test]
fn stats_screen_is_read() {
    let pairs = create_symbol_bitmaps();
    let layout = StatScreen1Layout::new();
    let texts = [
        (layout.pkmn_ndex_pos, "025"),
        (layout.level_field_pos, "81 "),
        (layout.hp_field_pos, "189"),
        (layout.attack_field_pos, "137"),
        (layout.defense_field_pos, " 88"),
        (layout.speed_field_pos, "190"),
        (layout.special_field_pos, "128"),
    ];
    let img = screen(&texts, &layout.slash_positions);
    assert!(layout.verify_screen(&img));
    let content = layout.read_content(&img, &pairs).unwrap();
    assert_eq!(
        content,
        StatsSreen1Content {
            pkmn_no: "025".to_string(),
            level: "81".to_string(),
            hp: "189".to_string(),
            attack: "137".to_string(),
            defense: "88".to_string(),
            speed: "190".to_string(),
            special: "128".to_string(),
        }
    );
    let stats = Stats::from_screen_content(&content).unwrap();
    assert_eq!(
        (stats.hp, stats.attack, stats.defense, stats.speed, stats.special),
        (189, 137, 88, 190, 128)
    );
    let img = screen(&texts, &layout.slash_positions[..4]);
    assert!(!layout.verify_screen(&img));
    let small = GrayImage::from_raw(100, 100, vec![240; 100 * 100]).unwrap();
    assert!(!layout.verify_screen(&small));
    assert_eq!(
        layout.read_content(&small, &pairs).err(),
        Some(SymbolError::Dimensions { width: 100, height: 100 })
    );
}

#[test]
fn stats_without_numbers() {
    let content = StatsSreen1Content {
        pkmn_no: "025".to_string(),
        level: "81".to_string(),
        hp: "189".to_string(),
        attack: String::new(),
        defense: "88".to_string(),
        speed: "190".to_string(),
        special: "128".to_string(),
    };
    assert!(Stats::from_screen_content(&content).is_none());
}

#[test]
fn second_page_is_told_by_its_slash() {
    let pairs = create_symbol_bitmaps();
    let layout = StatScreen2Layout::new();
    let mark = Position { x: 128, y: 81, width: 7, height: 7 };
    let img = screen(&[(layout.pkmn_ndex_pos, "151")], &[mark]);
    assert!(layout.verify_screen(&img));
    assert_eq!(layout.read_content(&img, &pairs).unwrap().pkmn_no, "151");
    let img = screen(&[(layout.pkmn_ndex_pos, "151")], &[]);
    assert!(!layout.verify_screen(&img));
    assert!(!StatScreen1Layout::new().verify_screen(&img));
}

#[test]
fn nearest_character_without_tolerance() {
    let known = create_char_bitmaps();
    assert_eq!(match_char(&cell(DIGIT_GLYPHS[4]), &known), Ok('4'));
    assert_eq!(match_char(&cell(DIGIT_GLYPHS[4] ^ 7), &known), Ok('4'));
    assert_eq!(match_char(&cell(0), &known), Ok(' '));
    let none: (Vec<char>, Vec<[u8; 49]>) = (vec![], vec![]);
    assert_eq!(match_char(&cell(0), &none), Err(SymbolError::NoSymbols));
    let wide = GrayImage::from_raw(8, 7, vec![0; 56]).unwrap();
    assert_eq!(match_char(&wide, &known), Err(SymbolError::Dimensions { width: 8, height: 7 }));

    let mut data = vec![240u8; 23 * 7];
    draw(&mut data, 23, 0, 0, DIGIT_GLYPHS[1]);
    draw(&mut data, 23, 8, 0, DIGIT_GLYPHS[8] ^ 3);
    draw(&mut data, 23, 16, 0, 0);
    let img = GrayImage::from_raw(23, 7, data).unwrap();
    assert_eq!(match_field(&img, &known), Ok("18 ".to_string()));
    let img = GrayImage::from_raw(22, 7, vec![0; 22 * 7]).unwrap();
    assert_eq!(match_field(&img, &known), Err(SymbolError::Geometry));

    let layout = StatScreen1Layout::new();
    let texts = [
        (layout.pkmn_ndex_pos, "025"),
        (layout.level_field_pos, "81 "),
        (layout.hp_field_pos, "189"),
        (layout.attack_field_pos, "137"),
        (layout.defense_field_pos, " 88"),
        (layout.speed_field_pos, "190"),
        (layout.special_field_pos, "128"),
    ];
    let img = screen(&texts, &[]);
    let text = read_text(&img, &layout, &known).ok().unwrap();
    assert_eq!(
        (text.pkmn_no, text.level, text.hp, text.attack, text.defense, text.speed, text.special),
        (
            "025".to_string(),
            "81 ".to_string(),
            "189".to_string(),
            "137".to_string(),
            " 88".to_string(),
            "190".to_string(),
            "128".to_string()
        )
    );
    let small = GrayImage::from_raw(100, 100, vec![240; 100 * 100]).unwrap();
    assert_eq!(
        read_text(&small, &layout, &known).err(),
        Some(SymbolError::Dimensions { width: 100, height: 100 })
    );
}
