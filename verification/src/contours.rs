//! Border following on binary images.

use crate::position::{Outline, Point};
use crate::raster::GrayImage;
use vstd::prelude::*;

verus! {

/// The borders that `imageproc::contours::find_contours` finds in an image
/// of `width` by `height` pixels, each as the coordinates of its points.
/// Every pixel that is not 0 counts as foreground.
pub uninterp spec fn traced_outlines(width: int, height: int, pixels: Seq<u8>) -> Seq<
    Seq<(int, int)>,
>;

/// The points of each outline of a list.
pub open spec fn outline_points(outlines: Seq<Outline>) -> Seq<Seq<(int, int)>> {
    outlines.map_values(|o: Outline| o@)
}

/// Calls `imageproc::contours::find_contours` and keeps the points of each
/// border. Which borders there are is named, not stated.
#[verifier::external_body]
fn trace_pixels(width: u32, height: u32, data: &Vec<u8>) -> (out: Vec<Outline>)
    requires
        data@.len() == width * height,
        width <= i32::MAX,
        height <= i32::MAX,
    ensures
        outline_points(out@) == traced_outlines(width as int, height as int, data@),
{
    let img = image::GrayImage::from_raw(width, height, data.clone()).unwrap();
    imageproc::contours::find_contours::<i32>(&img)
        .into_iter()
        .map(|c| Outline { points: c.points.into_iter().map(|p| Point { x: p.x, y: p.y }).collect() })
        .collect()
}

/// Finds all borders of the foreground regions of an image. Every pixel
/// that is not 0 belongs to the foreground.
pub fn find_contours(img: &GrayImage) -> (outlines: Vec<Outline>)
    requires
        img.spec_width() <= i32::MAX,
        img.spec_height() <= i32::MAX,
    ensures
        outline_points(outlines@) == traced_outlines(img.spec_width(), img.spec_height(), img@),
{
    let (width, height) = img.dimensions();
    trace_pixels(width, height, img.as_raw())
}

} // verus!
