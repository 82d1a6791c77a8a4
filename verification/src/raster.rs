//! Grayscale images as plain values.
//!
//! An image is its width, its height and one byte for each pixel, row by
//! row. The functions of this crate read pixels through this type, so that
//! what they return can be stated over the pixels themselves.

use vstd::prelude::*;

verus! {

/// An 8-bit grayscale image, stored row by row.
pub struct GrayImage {
    width: u32,
    height: u32,
    data: Vec<u8>,
}

impl View for GrayImage {
    type V = Seq<u8>;

    /// The pixels, row by row.
    closed spec fn view(&self) -> Seq<u8> {
        self.data@
    }
}

/// The place of the pixel `(x, y)` among the pixels of an image that is
/// `width` pixels wide.
pub open spec fn pixel_index(width: int, x: int, y: int) -> int {
    y * width + x
}

/// The place of a pixel of the image lies within its pixels.
pub proof fn lemma_pixel_index_in_bounds(width: int, height: int, x: int, y: int)
    requires
        0 <= x < width,
        0 <= y < height,
    ensures
        0 <= pixel_index(width, x, y) < width * height,
{
    assert(y * width + x < width * height) by (nonlinear_arith)
        requires
            0 <= x < width,
            0 <= y < height,
    ;
    assert(0 <= y * width) by (nonlinear_arith)
        requires
            0 <= y,
            0 <= width,
    ;
}

/// The product of two 32-bit numbers fits 64 bits.
pub proof fn lemma_product_fits(a: u32, b: u32)
    ensures
        0 <= a * b <= 0xFFFF_FFFE_0000_0001,
{
    assert(0 <= a * b <= 0xFFFF_FFFF * 0xFFFF_FFFF) by (nonlinear_arith)
        requires
            0 <= a <= 0xFFFF_FFFF,
            0 <= b <= 0xFFFF_FFFF,
    ;
}

impl GrayImage {
    #[verifier::type_invariant]
    spec fn well_formed(&self) -> bool {
        self.data@.len() == self.width * self.height
    }

    /// The width in pixels.
    pub closed spec fn spec_width(&self) -> int {
        self.width as int
    }

    /// The height in pixels.
    pub closed spec fn spec_height(&self) -> int {
        self.height as int
    }

    /// The pixel in column `x` of row `y`.
    pub open spec fn pixel(&self, x: int, y: int) -> u8 {
        self@[pixel_index(self.spec_width(), x, y)]
    }

    /// Makes an image of the given pixels, or `None` where their number is
    /// not that of an image of this width and height.
    pub fn from_raw(width: u32, height: u32, data: Vec<u8>) -> (img: Option<GrayImage>)
        ensures
            img is Some <==> data@.len() == width * height,
            img matches Some(i) ==> i.spec_width() == width && i.spec_height() == height && i@
                == data@,
    {
        proof {
            lemma_product_fits(width, height);
        }
        if data.len() as u64 == (width as u64) * (height as u64) {
            Some(GrayImage { width, height, data })
        } else {
            None
        }
    }

    /// Makes the grayscale image of a colour image given as red, green,
    /// blue and opacity of each pixel, or `None` where these are not four
    /// numbers for each pixel of an image of this width and height.
    pub fn from_rgba(width: u32, height: u32, data: &Vec<u8>) -> (img: Option<GrayImage>)
        ensures
            img is Some <==> data@.len() == 4 * (width * height),
            img matches Some(i) ==> i.spec_width() == width && i.spec_height() == height && i@
                == luma_of_rgba(data@),
    {
        proof {
            lemma_product_fits(width, height);
        }
        if data.len() as u128 != 4 * ((width as u128) * (height as u128)) {
            return None;
        }
        let pixels = rgba_to_luma(width, height, data);
        Some(GrayImage { width, height, data: pixels })
    }

    /// The width in pixels.
    pub fn width(&self) -> (w: u32)
        ensures
            w == self.spec_width(),
    {
        self.width
    }

    /// The height in pixels.
    pub fn height(&self) -> (h: u32)
        ensures
            h == self.spec_height(),
    {
        self.height
    }

    /// The width and the height in pixels.
    pub fn dimensions(&self) -> (d: (u32, u32))
        ensures
            d.0 == self.spec_width(),
            d.1 == self.spec_height(),
            self@.len() == self.spec_width() * self.spec_height(),
    {
        proof {
            use_type_invariant(self);
        }
        (self.width, self.height)
    }

    /// The pixels, row by row.
    pub fn as_raw(&self) -> (data: &Vec<u8>)
        ensures
            data@ == self@,
    {
        &self.data
    }

    /// The pixel in column `x` of row `y`.
    pub fn get_pixel(&self, x: u32, y: u32) -> (p: u8)
        requires
            x < self.spec_width(),
            y < self.spec_height(),
        ensures
            p == self.pixel(x as int, y as int),
    {
        proof {
            use_type_invariant(self);
            lemma_pixel_index_in_bounds(self.width as int, self.height as int, x as int, y as int);
            lemma_product_fits(y, self.width);
        }
        let i = (y as u64) * (self.width as u64) + (x as u64);
        assert(i == pixel_index(self.width as int, x as int, y as int));
        let len = self.data.len();
        assert(i < len);
        self.data[i as usize]
    }

    /// The pixel in column `x` of row `y`, or `None` outside the image.
    pub fn get_pixel_checked(&self, x: u32, y: u32) -> (p: Option<u8>)
        ensures
            p == if x < self.spec_width() && y < self.spec_height() {
                Some(self.pixel(x as int, y as int))
            } else {
                None
            },
    {
        if x < self.width && y < self.height {
            Some(self.get_pixel(x, y))
        } else {
            None
        }
    }

    /// The image with the pixel in column `x` of row `y` set to `value`.
    pub fn with_pixel(self, x: u32, y: u32, value: u8) -> (img: GrayImage)
        requires
            x < self.spec_width(),
            y < self.spec_height(),
        ensures
            img.spec_width() == self.spec_width(),
            img.spec_height() == self.spec_height(),
            img@ == self@.update(pixel_index(self.spec_width(), x as int, y as int), value),
    {
        proof {
            use_type_invariant(&self);
            lemma_pixel_index_in_bounds(self.width as int, self.height as int, x as int, y as int);
            lemma_product_fits(y, self.width);
        }
        let i = (y as u64) * (self.width as u64) + (x as u64);
        assert(i == pixel_index(self.width as int, x as int, y as int));
        let GrayImage { width, height, mut data } = self;
        let len = data.len();
        assert(i < len);
        data.set(i as usize, value);
        GrayImage { width, height, data }
    }

    /// The binarized image: pixels up to `thresh` become black, the others
    /// white.
    pub fn threshold(&self, thresh: u8) -> (img: GrayImage)
        ensures
            img.spec_width() == self.spec_width(),
            img.spec_height() == self.spec_height(),
            img@ == thresholded(self@, thresh),
    {
        proof {
            use_type_invariant(self);
        }
        let data = threshold_pixels(self.width, self.height, &self.data, thresh);
        GrayImage { width: self.width, height: self.height, data }
    }

    /// The negative of the image.
    pub fn invert(&self) -> (img: GrayImage)
        ensures
            img.spec_width() == self.spec_width(),
            img.spec_height() == self.spec_height(),
            img@ == inverted(self@),
    {
        proof {
            use_type_invariant(self);
        }
        let data = invert_pixels(self.width, self.height, &self.data);
        GrayImage { width: self.width, height: self.height, data }
    }

    /// The image scaled to `new_width` by `new_height` pixels, each pixel
    /// taken from the nearest pixel of this image.
    pub fn resize_exact(&self, new_width: u32, new_height: u32) -> (img: GrayImage)
        requires
            self.spec_width() >= 1,
            self.spec_height() >= 1,
            new_width * new_height <= usize::MAX,
        ensures
            img.spec_width() == new_width,
            img.spec_height() == new_height,
            img@ == resized_nearest(
                self.spec_width(),
                self.spec_height(),
                self@,
                new_width as int,
                new_height as int,
            ),
    {
        proof {
            use_type_invariant(self);
        }
        let data = resize_pixels(self.width, self.height, &self.data, new_width, new_height);
        GrayImage { width: new_width, height: new_height, data }
    }

    /// The eroded image: black at every pixel within distance `k` of a
    /// background pixel, white at every other pixel. A pixel is background
    /// if it is 0 and foreground otherwise, and a diagonal step counts as
    /// one. Distances are measured up to a limit only, so with a large `k`
    /// no pixel stays white. The contract names the pixels of the result
    /// and states their number; it does not state which they are.
    pub fn erode(&self, k: u8) -> (img: GrayImage)
        requires
            self.spec_width() + self.spec_height() <= u32::MAX,
        ensures
            img.spec_width() == self.spec_width(),
            img.spec_height() == self.spec_height(),
            img@ == eroded(self.spec_width(), self.spec_height(), self@, k),
    {
        proof {
            use_type_invariant(self);
        }
        let data = erode_pixels(self.width, self.height, &self.data, k);
        GrayImage { width: self.width, height: self.height, data }
    }
}

/// The luminance of a colour: 0.2126 of its red, 0.7152 of its green and
/// 0.0722 of its blue, rounded down.
pub open spec fn luma(red: u8, green: u8, blue: u8) -> u8 {
    ((2126 * red + 7152 * green + 722 * blue) / 10000) as u8
}

/// The luminance of each pixel of a colour image given as red, green, blue
/// and opacity of each pixel.
pub open spec fn luma_of_rgba(data: Seq<u8>) -> Seq<u8> {
    Seq::new(
        (data.len() / 4) as nat,
        |i: int| luma(data[4 * i], data[4 * i + 1], data[4 * i + 2]),
    )
}

/// The pixels of an image binarized at `thresh`: black up to the
/// threshold, white above it.
pub open spec fn thresholded(pixels: Seq<u8>, thresh: u8) -> Seq<u8> {
    pixels.map_values(
        |p: u8|
            if p <= thresh {
                0u8
            } else {
                255u8
            },
    )
}

/// The pixels of the negative of an image.
pub open spec fn inverted(pixels: Seq<u8>) -> Seq<u8> {
    pixels.map_values(|p: u8| (255 - p) as u8)
}

/// The pixels that `image::imageops::resize` with the nearest-neighbour
/// filter gives for an image of `width` by `height` pixels scaled to
/// `new_width` by `new_height`.
pub uninterp spec fn resized_nearest(
    width: int,
    height: int,
    pixels: Seq<u8>,
    new_width: int,
    new_height: int,
) -> Seq<u8>;

/// The pixels that `imageproc::morphology::erode` with the `LInf` norm gives
/// for an image of `width` by `height` pixels and the distance `k`.
pub uninterp spec fn eroded(width: int, height: int, pixels: Seq<u8>, k: u8) -> Seq<u8>;

/// Calls `image::DynamicImage::to_luma8` on an image of four bytes for each
/// pixel, which gives each pixel the luminance of its colour:
/// `(2126 * red + 7152 * green + 722 * blue) / 10000`. The opacity does not
/// count.
#[verifier::external_body]
fn rgba_to_luma(width: u32, height: u32, data: &Vec<u8>) -> (out: Vec<u8>)
    requires
        data@.len() == 4 * (width * height),
    ensures
        out@ == luma_of_rgba(data@),
        out@.len() == width * height,
{
    let img = image::RgbaImage::from_raw(width, height, data.clone()).unwrap();
    image::DynamicImage::ImageRgba8(img).to_luma8().into_raw()
}

/// Calls `imageproc::contrast::threshold_mut`, which sets every pixel up to
/// `thresh` to 0 and every other pixel to 255.
#[verifier::external_body]
fn threshold_pixels(width: u32, height: u32, data: &Vec<u8>, thresh: u8) -> (out: Vec<u8>)
    requires
        data@.len() == width * height,
    ensures
        out@ == thresholded(data@, thresh),
{
    let mut img = image::GrayImage::from_raw(width, height, data.clone()).unwrap();
    imageproc::contrast::threshold_mut(&mut img, thresh);
    img.into_raw()
}

/// Calls `image::imageops::invert`, which replaces every pixel `p` of a
/// grayscale image by `255 - p`.
#[verifier::external_body]
fn invert_pixels(width: u32, height: u32, data: &Vec<u8>) -> (out: Vec<u8>)
    requires
        data@.len() == width * height,
    ensures
        out@ == inverted(data@),
{
    let mut img = image::GrayImage::from_raw(width, height, data.clone()).unwrap();
    image::imageops::invert(&mut img);
    img.into_raw()
}

/// Calls `image::imageops::resize` with `FilterType::Nearest`. The result
/// has `new_width * new_height` pixels; which they are is named, not
/// stated.
#[verifier::external_body]
fn resize_pixels(width: u32, height: u32, data: &Vec<u8>, new_width: u32, new_height: u32) -> (out:
    Vec<u8>)
    requires
        data@.len() == width * height,
        width >= 1,
        height >= 1,
        new_width * new_height <= usize::MAX,
    ensures
        out@ == resized_nearest(
            width as int,
            height as int,
            data@,
            new_width as int,
            new_height as int,
        ),
        out@.len() == new_width * new_height,
{
    let img = image::GrayImage::from_raw(width, height, data.clone()).unwrap();
    let filter = image::imageops::FilterType::Nearest;
    image::imageops::resize(&img, new_width, new_height, filter).into_raw()
}

/// Calls `imageproc::morphology::erode` with `Norm::LInf`. The result has as
/// many pixels as the image; which they are is named, not stated.
#[verifier::external_body]
fn erode_pixels(width: u32, height: u32, data: &Vec<u8>, k: u8) -> (out: Vec<u8>)
    requires
        data@.len() == width * height,
        width + height <= u32::MAX,
    ensures
        out@ == eroded(width as int, height as int, data@, k),
        out@.len() == width * height,
{
    let img = image::GrayImage::from_raw(width, height, data.clone()).unwrap();
    let norm = imageproc::distance_transform::Norm::LInf;
    imageproc::morphology::erode(&img, norm, k).into_raw()
}

} // verus!
