use pokemon_dv_calculator::contours::find_contours;
use pokemon_dv_calculator::gameboy::{
    choose_screen, locate_screen, search_screen_gsc, search_screen_rby,
};
use pokemon_dv_calculator::position::{Outline, OutlineError, Point, Position};
use pokemon_dv_calculator::raster::GrayImage;

/// The corners of a rectangle as an outline.
fn rectangle(x: i32, y: i32, width: i32, height: i32) -> Outline {
    Outline {
        points: vec![
            Point { x, y },
            Point { x: x + width - 1, y },
            Point { x: x + width - 1, y: y + height - 1 },
            Point { x, y: y + height - 1 },
        ],
    }
}

/// A picture that is `ground` everywhere but `fill` in a rectangle.
fn picture(width: u32, height: u32, ground: u8, rect: Position, fill: u8) -> GrayImage {
    let mut data = vec![ground; (width * height) as usize];
    for y in rect.y..rect.y + rect.height {
        for x in rect.x..rect.x + rect.width {
            data[(y * width + x) as usize] = fill;
        }
    }
    GrayImage::from_raw(width, height, data).unwrap()
}

#[test]
fn bounding_box_is_inclusive() {
    let single = Outline { points: vec![Point { x: 3, y: 4 }] };
    assert_eq!(Position::try_from(&single), Ok(Position { x: 3, y: 4, width: 1, height: 1 }));
    let outline = Outline {
        points: vec![
            Point { x: 5, y: 9 },
            Point { x: 2, y: 7 },
            Point { x: 8, y: 3 },
            Point { x: 4, y: 12 },
        ],
    };
    assert_eq!(Position::try_from(&outline), Ok(Position { x: 2, y: 3, width: 7, height: 10 }));
    let far = Outline { points: vec![Point { x: 0, y: 0 }, Point { x: i32::MAX, y: i32::MAX }] };
    assert_eq!(
        Position::try_from(&far),
        Ok(Position { x: 0, y: 0, width: 1 << 31, height: 1 << 31 })
    );
}

#[test]
fn outline_without_box() {
    assert_eq!(Position::try_from(&Outline { points: vec![] }), Err(OutlineError::NoPoints));
    let negative = Outline { points: vec![Point { x: 1, y: 1 }, Point { x: 0, y: -1 }] };
    assert_eq!(Position::try_from(&negative), Err(OutlineError::NegativeCoordinate));
}

#[test]
fn screen_sized_rectangle_is_accepted() {
    let found = search_screen_rby(&vec![rectangle(10, 20, 160, 144)]);
    assert_eq!(found, vec![Position { x: 10, y: 20, width: 160, height: 144 }]);
}

#[test]
fn rectangle_of_other_proportions_is_rejected() {
    assert!(search_screen_rby(&vec![rectangle(10, 20, 160, 100)]).is_empty());
    assert!(search_screen_gsc(&vec![rectangle(10, 20, 160, 100)]).is_empty());
}

#[test]
fn proportions_have_a_tolerance_of_a_hundredth() {
    // 1009 : 900 is 10 : 9 and a hundredth more, 1010 : 900 is beyond.
    assert_eq!(search_screen_rby(&vec![rectangle(0, 0, 1009, 900)]).len(), 1);
    assert_eq!(search_screen_rby(&vec![rectangle(0, 0, 991, 900)]).len(), 1);
    assert!(search_screen_rby(&vec![rectangle(0, 0, 1010, 900)]).is_empty());
    assert!(search_screen_rby(&vec![rectangle(0, 0, 990, 900)]).is_empty());
    // 161 : 144 is 0.0069 above 10 : 9, 162 : 144 is 0.0139 above.
    assert_eq!(search_screen_rby(&vec![rectangle(0, 0, 161, 144)]).len(), 1);
    assert!(search_screen_rby(&vec![rectangle(0, 0, 162, 144)]).is_empty());
}

#[test]
fn small_rectangles_are_rejected() {
    assert!(search_screen_rby(&vec![rectangle(0, 0, 150, 135)]).is_empty());
    assert!(search_screen_rby(&vec![rectangle(0, 0, 159, 144)]).is_empty());
    assert!(search_screen_gsc(&vec![rectangle(0, 0, 80, 31)]).is_empty());
    assert!(search_screen_rby(&vec![Outline { points: vec![] }]).is_empty());
}

#[test]
fn window_is_extended_to_the_screen() {
    let found = search_screen_gsc(&vec![rectangle(4, 5, 160, 62)]);
    assert_eq!(found, vec![Position { x: 4, y: 5, width: 160, height: 144 }]);
    let found = search_screen_gsc(&vec![rectangle(4, 5, 325, 126)]);
    // 325 * 144 / 160 = 292.5
    assert_eq!(found, vec![Position { x: 4, y: 5, width: 325, height: 292 }]);
    assert!(search_screen_rby(&vec![rectangle(4, 5, 160, 62)]).is_empty());
}

#[test]
fn candidates_keep_the_order_of_the_outlines() {
    let outlines = vec![
        rectangle(0, 0, 320, 288),
        rectangle(1, 1, 10, 10),
        rectangle(2, 2, 160, 144),
    ];
    assert_eq!(
        search_screen_rby(&outlines),
        vec![
            Position { x: 0, y: 0, width: 320, height: 288 },
            Position { x: 2, y: 2, width: 160, height: 144 }
        ]
    );
}

#[test]
fn largest_candidate_is_chosen() {
    let outlines = vec![
        rectangle(0, 0, 160, 144),
        rectangle(1, 1, 320, 288),
        rectangle(2, 2, 200, 180),
    ];
    assert_eq!(choose_screen(&outlines), Some(Position { x: 1, y: 1, width: 320, height: 288 }));
    assert_eq!(choose_screen(&vec![rectangle(0, 0, 100, 90)]), None);
    assert_eq!(choose_screen(&vec![]), None);
}

#[test]
fn of_equal_candidates_the_last_is_chosen() {
    let outlines = vec![rectangle(0, 0, 160, 144), rectangle(7, 7, 160, 144)];
    assert_eq!(choose_screen(&outlines), Some(Position { x: 7, y: 7, width: 160, height: 144 }));
    // The candidates of the second generation come first, so a candidate
    // of the first generation of the same size is the last.
    let outlines = vec![rectangle(0, 0, 160, 144), rectangle(7, 7, 160, 62)];
    assert_eq!(choose_screen(&outlines), Some(Position { x: 0, y: 0, width: 160, height: 144 }));
}

#[test]
fn white_picture_without_screen() {
    let img = GrayImage::from_raw(1, 1, vec![255]).unwrap();
    assert_eq!(locate_screen(&img), None);
    let img = GrayImage::from_raw(50, 40, vec![255; 50 * 40]).unwrap();
    assert_eq!(locate_screen(&img), None);
    let img = GrayImage::from_raw(0, 0, vec![]).unwrap();
    assert_eq!(locate_screen(&img), None);
    let img = GrayImage::from_raw(300, 200, vec![0; 300 * 200]).unwrap();
    assert_eq!(locate_screen(&img), None);
}

#[test]
fn screen_is_found_on_a_dark_picture() {
    let screen = Position { x: 50, y: 30, width: 320, height: 288 };
    let img = picture(500, 400, 20, screen, 230);
    assert_eq!(locate_screen(&img), Some(screen));
    // A dim rectangle is no screen: 140 is still dark.
    let img = picture(500, 400, 20, screen, 140);
    assert_eq!(locate_screen(&img), None);
    let img = picture(500, 400, 20, screen, 141);
    assert_eq!(locate_screen(&img), Some(screen));
}

#[test]
fn white_picture_is_a_screen_if_it_has_the_proportions() {
    let img = GrayImage::from_raw(160, 144, vec![255; 160 * 144]).unwrap();
    assert_eq!(locate_screen(&img), Some(Position { x: 0, y: 0, width: 160, height: 144 }));
}

#[test]
fn window_of_the_second_generation_is_found() {
    let window = Position { x: 40, y: 20, width: 320, height: 124 };
    let img = picture(500, 400, 0, window, 255);
    assert_eq!(locate_screen(&img), Some(Position { x: 40, y: 20, width: 320, height: 288 }));
}

#[test]
fn contours_are_the_borders_of_the_bright_regions() {
    let rect = Position { x: 2, y: 3, width: 4, height: 2 };
    let img = picture(10, 8, 0, rect, 9);
    let outlines = find_contours(&img);
    assert_eq!(outlines.len(), 1);
    assert_eq!(Position::try_from(&outlines[0]), Ok(rect));
    assert!(outlines[0].points.contains(&Point { x: 2, y: 3 }));
    assert!(outlines[0].points.contains(&Point { x: 5, y: 4 }));
    let img = GrayImage::from_raw(10, 8, vec![0; 80]).unwrap();
    assert!(find_contours(&img).is_empty());
}

#[test]
fn threshold_is_inclusive() {
    let img = GrayImage::from_raw(4, 1, vec![0, 139, 140, 141]).unwrap();
    assert_eq!(img.threshold(140).as_raw(), &vec![0, 0, 0, 255]);
    assert_eq!(img.threshold(0).as_raw(), &vec![0, 255, 255, 255]);
    assert_eq!(img.threshold(255).as_raw(), &vec![0, 0, 0, 0]);
    assert_eq!(img.threshold(140).dimensions(), (4, 1));
}

#[test]
fn invert_is_the_negative() {
    let img = GrayImage::from_raw(2, 2, vec![0, 1, 200, 255]).unwrap();
    assert_eq!(img.invert().as_raw(), &vec![255, 254, 55, 0]);
    assert_eq!(img.invert().invert().as_raw(), img.as_raw());
}

#[test]
fn resize_takes_the_nearest_pixel() {
    let img = GrayImage::from_raw(2, 2, vec![10, 20, 30, 40]).unwrap();
    let big = img.resize_exact(4, 4);
    assert_eq!(big.dimensions(), (4, 4));
    assert_eq!(
        big.as_raw(),
        &vec![10, 10, 20, 20, 10, 10, 20, 20, 30, 30, 40, 40, 30, 30, 40, 40]
    );
    let same = img.resize_exact(2, 2);
    assert_eq!(same.as_raw(), img.as_raw());
    let small = big.resize_exact(2, 2);
    assert_eq!(small.dimensions(), (2, 2));
    assert_eq!(small.as_raw().len(), 4);
}

#[test]
fn erosion_takes_the_border_of_a_region() {
    let rect = Position { x: 2, y: 2, width: 5, height: 4 };
    let img = picture(9, 8, 0, rect, 255);
    let eroded = img.erode(1);
    let inner = Position { x: 3, y: 3, width: 3, height: 2 };
    assert_eq!(eroded.as_raw(), picture(9, 8, 0, inner, 255).as_raw());
    assert_eq!(img.erode(0).as_raw(), img.as_raw());
}

#[test]
fn border_is_black() {
    let img = GrayImage::from_raw(2, 2, vec![1, 2, 3, 4]).unwrap();
    let padded = pokemon_dv_calculator::gameboy::pad(&img);
    assert_eq!(padded.dimensions(), (4, 4));
    assert_eq!(padded.as_raw(), &vec![0, 0, 0, 0, 0, 1, 2, 0, 0, 3, 4, 0, 0, 0, 0, 0]);
    let none = GrayImage::from_raw(0, 0, vec![]).unwrap();
    assert_eq!(pokemon_dv_calculator::gameboy::pad(&none).as_raw(), &vec![0; 4]);
}

#[test]
fn eroded_screen_is_found_where_it_is() {
    let screen = Position { x: 50, y: 30, width: 320, height: 288 };
    let img = picture(500, 400, 20, screen, 230);
    assert_eq!(
        pokemon_dv_calculator::gameboy::locate_gameboy_screen(&img),
        Some((50, 30, 320, 288))
    );
    // Dots are eroded away and do not count.
    let mut data = img.as_raw().clone();
    data[5 * 500 + 5] = 255;
    let dotted = GrayImage::from_raw(500, 400, data).unwrap();
    assert_eq!(
        pokemon_dv_calculator::gameboy::locate_gameboy_screen(&dotted),
        Some((50, 30, 320, 288))
    );
    // A screen up to 200 is too dim for this threshold.
    let img = picture(500, 400, 20, screen, 200);
    assert_eq!(pokemon_dv_calculator::gameboy::locate_gameboy_screen(&img), None);
    // A white picture of the proportions of the screen is a screen.
    let img = GrayImage::from_raw(320, 288, vec![255; 320 * 288]).unwrap();
    assert_eq!(
        pokemon_dv_calculator::gameboy::locate_gameboy_screen(&img),
        Some((0, 0, 320, 288))
    );
    let img = GrayImage::from_raw(0, 0, vec![]).unwrap();
    assert_eq!(pokemon_dv_calculator::gameboy::locate_gameboy_screen(&img), None);
}
