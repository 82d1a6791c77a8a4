use pokemon_dv_calculator::position::Position;
use pokemon_dv_calculator::raster::GrayImage;
use pokemon_dv_calculator::roi::{crop, Roi, RoiError};

#[test]
fn roi_iteration() {
    // Arrange
    let width = 4;
    let height = 3;
    let mut data = Vec::<u8>::with_capacity(width * height);
    for i in 0..(width * height) {
        data.push(i as u8);
    }
    let img = GrayImage::from_raw(width as u32, height as u32, data).unwrap();
    let pos = Position { x: 1, y: 2, width: 2, height: 1 };
    let roi = Roi::new(&img, pos).unwrap();
    let expected_pixels: Vec<u8> = vec![9, 10];

    // Act
    let mut iter = roi.iter();
    let mut pixels: Vec<u8> = Vec::new();
    while let Some(pixel) = iter.next() {
        pixels.push(pixel);
    }

    // Assert
    assert_eq!(pixels, expected_pixels);
    assert_eq!(roi.pixels(), expected_pixels);
}

#[test]
fn roi_within_image() {
    let img = GrayImage::from_raw(4, 3, (0..12).collect()).unwrap();
    let pos = Position { x: 3, y: 2, width: 2, height: 1 };
    assert_eq!(
        Roi::new(&img, pos).err(),
        Some(RoiError::OutOfBounds { image_width: 4, image_height: 3, pos })
    );
    let pos = Position { x: u32::MAX, y: 0, width: 2, height: 1 };
    assert!(Roi::new(&img, pos).is_err());
    let pos = Position { x: 2, y: 1, width: 2, height: 2 };
    assert_eq!(Roi::new(&img, pos).unwrap().pixels(), vec![6, 7, 10, 11]);
}

#[test]
fn crop_is_cut_at_the_border() {
    let img = GrayImage::from_raw(4, 3, (0..12).collect()).unwrap();
    let part = crop(&img, 2, 1, 10, 10);
    assert_eq!(part.dimensions(), (2, 2));
    assert_eq!(part.as_raw(), &vec![6, 7, 10, 11]);
    let part = crop(&img, 7, 7, 1, 1);
    assert_eq!(part.dimensions(), (0, 0));
}

#[test]
fn image_needs_all_its_pixels() {
    assert!(GrayImage::from_raw(4, 3, vec![0; 11]).is_none());
    assert!(GrayImage::from_raw(4, 3, vec![0; 13]).is_none());
    let img = GrayImage::from_raw(4, 3, (0..12).collect()).unwrap();
    assert_eq!(img.get_pixel(1, 2), 9);
    assert_eq!(img.get_pixel_checked(4, 0), None);
    let img = img.with_pixel(1, 2, 200);
    assert_eq!(img.get_pixel(1, 2), 200);
    assert_eq!(img.get_pixel(2, 2), 10);
}

#[test]
fn roi_pixels_one_by_one() {
    let img = GrayImage::from_raw(4, 3, (0..12).collect()).unwrap();
    let roi = Roi::new(&img, Position { x: 1, y: 1, width: 2, height: 2 }).unwrap();
    let mut iter = roi.iter();
    assert_eq!(iter.next(), Some(5));
    assert_eq!(iter.next(), Some(6));
    assert_eq!(iter.next(), Some(9));
    assert_eq!(iter.next(), Some(10));
    assert_eq!(iter.next(), None);
    assert_eq!(iter.next(), None);
    assert_eq!(roi.pos(), &Position { x: 1, y: 1, width: 2, height: 2 });
    assert_eq!(roi.img().dimensions(), (4, 3));
    let empty = Roi::new(&img, Position { x: 1, y: 1, width: 0, height: 2 }).unwrap();
    assert_eq!(empty.iter().next(), None);
}
