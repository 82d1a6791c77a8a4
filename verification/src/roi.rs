//! Regions of interest.
//!
//! A region of interest is a rectangle of an image that lies within the
//! image, so its pixels can be read one after the other without a check.

use crate::position::Position;
use crate::raster::{pixel_index, GrayImage};
use vstd::prelude::*;

verus! {

/// Whether the rectangle `pos` lies within an image of `width` by `height`
/// pixels.
pub open spec fn lies_within(pos: Position, width: int, height: int) -> bool {
    pos.x + pos.width <= width && pos.y + pos.height <= height
}

/// The pixels of row `row` of the rectangle `pos`, from left to right, in
/// an image that is `width` pixels wide.
pub open spec fn region_row(pixels: Seq<u8>, width: int, pos: Position, row: int) -> Seq<u8> {
    pixels.subrange(
        pixel_index(width, pos.x as int, pos.y + row),
        pixel_index(width, pos.x as int, pos.y + row) + pos.width,
    )
}

/// The pixels of the first `rows` rows of the rectangle `pos`, row by row.
pub open spec fn region_rows(pixels: Seq<u8>, width: int, pos: Position, rows: nat) -> Seq<u8>
    decreases rows,
{
    if rows == 0 {
        Seq::empty()
    } else {
        region_rows(pixels, width, pos, (rows - 1) as nat) + region_row(
            pixels,
            width,
            pos,
            rows - 1,
        )
    }
}

/// The pixels of the rectangle `pos`, row by row.
pub open spec fn region_pixels(pixels: Seq<u8>, width: int, pos: Position) -> Seq<u8> {
    region_rows(pixels, width, pos, pos.height as nat)
}

/// The first rows of a rectangle have as many pixels as rows times width.
pub proof fn lemma_region_rows_len(
    pixels: Seq<u8>,
    width: int,
    height: int,
    pos: Position,
    rows: nat,
)
    requires
        pixels.len() == width * height,
        lies_within(pos, width, height),
        rows <= pos.height,
    ensures
        region_rows(pixels, width, pos, rows).len() == rows * pos.width,
    decreases rows,
{
    if rows > 0 {
        lemma_region_rows_len(pixels, width, height, pos, (rows - 1) as nat);
        lemma_row_in_bounds(pixels, width, height, pos, rows - 1);
        assert((rows - 1) * pos.width + pos.width == rows * pos.width) by (nonlinear_arith);
    } else {
        assert(rows * pos.width == 0) by (nonlinear_arith)
            requires
                rows == 0,
        ;
    }
}

/// A row of a rectangle that lies within the image lies within its pixels.
pub proof fn lemma_row_in_bounds(pixels: Seq<u8>, width: int, height: int, pos: Position, row: int)
    requires
        pixels.len() == width * height,
        lies_within(pos, width, height),
        0 <= row < pos.height,
    ensures
        0 <= pixel_index(width, pos.x as int, pos.y + row),
        pixel_index(width, pos.x as int, pos.y + row) + pos.width <= pixels.len(),
        region_row(pixels, width, pos, row).len() == pos.width,
{
    let y = pos.y + row;
    assert(0 <= y * width) by (nonlinear_arith)
        requires
            0 <= y,
            0 <= width,
    ;
    assert(y * width + width <= width * height) by (nonlinear_arith)
        requires
            0 <= y < height,
            0 <= width,
    ;
}

/// Why a rectangle is no region of interest of an image.
#[derive(Debug, Copy, Clone, PartialEq, Eq, Structural)]
pub enum RoiError {
    /// The rectangle reaches beyond the image.
    OutOfBounds { image_width: u32, image_height: u32, pos: Position },
}

/// The region of interest of an image.
///
/// It eases going through the pixels of a part of an image, and holds that
/// the part lies within the image.
pub struct Roi<'a> {
    img: &'a GrayImage,
    pos: Position,
}

impl<'a> Roi<'a> {
    #[verifier::type_invariant]
    spec fn inside(&self) -> bool {
        lies_within(self.pos, self.img.spec_width(), self.img.spec_height())
    }

    /// The image.
    pub closed spec fn spec_img(&self) -> &'a GrayImage {
        self.img
    }

    /// The rectangle.
    pub closed spec fn spec_pos(&self) -> Position {
        self.pos
    }

    /// The pixels of the region, row by row.
    pub open spec fn view(&self) -> Seq<u8> {
        region_pixels(self.spec_img()@, self.spec_img().spec_width(), self.spec_pos())
    }

    /// Makes the region of interest `pos` of `img`, or fails where `pos`
    /// reaches beyond the image.
    pub fn new(img: &'a GrayImage, pos: Position) -> (res: Result<Roi<'a>, RoiError>)
        ensures
            match res {
                Ok(roi) => {
                    &&& lies_within(pos, img.spec_width(), img.spec_height())
                    &&& roi.spec_img() == img
                    &&& roi.spec_pos() == pos
                },
                Err(RoiError::OutOfBounds { image_width, image_height, pos: p }) => {
                    &&& !lies_within(pos, img.spec_width(), img.spec_height())
                    &&& image_width == img.spec_width()
                    &&& image_height == img.spec_height()
                    &&& p == pos
                },
            },
    {
        let (image_width, image_height) = img.dimensions();
        if pos.x as u64 + pos.width as u64 > image_width as u64 || pos.y as u64 + pos.height as u64
            > image_height as u64 {
            return Err(RoiError::OutOfBounds { image_width, image_height, pos });
        }
        Ok(Roi { img, pos })
    }

    /// Returns a reference to the image.
    pub fn img(&self) -> (img: &'a GrayImage)
        ensures
            img == self.spec_img(),
    {
        self.img
    }

    /// Returns the part of the image that is of interest.
    pub fn pos(&self) -> (pos: &Position)
        ensures
            *pos == self.spec_pos(),
            lies_within(*pos, self.spec_img().spec_width(), self.spec_img().spec_height()),
    {
        proof {
            use_type_invariant(self);
        }
        &self.pos
    }

    /// Returns an iterator over the pixels of the region, row by row.
    pub fn iter(&self) -> (iter: RoiIter)
        ensures
            iter@ == self@,
    {
        let pixels = self.pixels();
        let iter = RoiIter { pixels, next: 0 };
        assert(iter@ =~= self@);
        iter
    }

    /// Returns the pixels of the region, row by row.
    pub fn pixels(&self) -> (out: Vec<u8>)
        ensures
            out@ == self@,
            out@.len() == self.spec_pos().width * self.spec_pos().height,
    {
        proof {
            use_type_invariant(self);
        }
        let (image_width, image_height) = self.img.dimensions();
        let pos = self.pos;
        let ghost pixels = self.img@;
        let mut out: Vec<u8> = Vec::new();
        let mut row: u32 = 0;
        while row < pos.height
            invariant
                row <= pos.height,
                pos == self.pos,
                pixels == self.img@,
                image_width == self.img.spec_width(),
                image_height == self.img.spec_height(),
                pixels.len() == image_width * image_height,
                lies_within(pos, image_width as int, image_height as int),
                out@ == region_rows(pixels, image_width as int, pos, row as nat),
            decreases pos.height - row,
        {
            let ghost done = out@;
            let ghost start = pixel_index(image_width as int, pos.x as int, pos.y + row);
            proof {
                lemma_row_in_bounds(pixels, image_width as int, image_height as int, pos, row as int);
            }
            let mut col: u32 = 0;
            while col < pos.width
                invariant
                    col <= pos.width,
                    row < pos.height,
                    pos == self.pos,
                    pixels == self.img@,
                    image_width == self.img.spec_width(),
                    image_height == self.img.spec_height(),
                    lies_within(pos, image_width as int, image_height as int),
                    start == pixel_index(image_width as int, pos.x as int, pos.y + row),
                    0 <= start,
                    start + pos.width <= pixels.len(),
                    out@ == done + pixels.subrange(start, start + col),
                decreases pos.width - col,
            {
                let p = self.img.get_pixel(pos.x + col, pos.y + row);
                assert(pixel_index(image_width as int, pos.x + col, pos.y + row) == start + col);
                out.push(p);
                assert(pixels.subrange(start, start + col + 1) =~= pixels.subrange(
                    start,
                    start + col,
                ).push(p));
                col = col + 1;
            }
            row = row + 1;
        }
        proof {
            lemma_region_rows_len(
                pixels,
                image_width as int,
                image_height as int,
                pos,
                pos.height as nat,
            );
            assert(pos.height * pos.width == pos.width * pos.height) by (nonlinear_arith);
        }
        out
    }
}

/// The pixel iterator of a region of interest.
pub struct RoiIter {
    pixels: Vec<u8>,
    next: usize,
}

impl View for RoiIter {
    type V = Seq<u8>;

    /// The pixels that are still to come.
    closed spec fn view(&self) -> Seq<u8> {
        self.pixels@.skip(self.next as int)
    }
}

impl RoiIter {
    #[verifier::type_invariant]
    spec fn in_range(&self) -> bool {
        self.next <= self.pixels@.len()
    }

    /// Returns the next pixel, or `None` after the last.
    pub fn next(&mut self) -> (pixel: Option<u8>)
        ensures
            match pixel {
                Some(p) => old(self)@.len() > 0 && p == old(self)@[0] && final(self)@ == old(
                    self,
                )@.skip(1),
                None => old(self)@.len() == 0 && final(self)@ == old(self)@,
            },
    {
        proof {
            use_type_invariant(&*self);
        }
        if self.next < self.pixels.len() {
            let p = self.pixels[self.next];
            assert(self.pixels@.skip(self.next as int).skip(1) =~= self.pixels@.skip(
                self.next + 1,
            ));
            self.next = self.next + 1;
            Some(p)
        } else {
            None
        }
    }
}

/// The rectangle at `(x, y)` of the given size, cut where it leaves an
/// image of `image_width` by `image_height` pixels.
pub open spec fn clamped(x: u32, y: u32, width: u32, height: u32, image_width: int, image_height: int) -> Position {
    let left = if x <= image_width {
        x as int
    } else {
        image_width
    };
    let top = if y <= image_height {
        y as int
    } else {
        image_height
    };
    Position {
        x: left as u32,
        y: top as u32,
        width: (if width <= image_width - left {
            width as int
        } else {
            image_width - left
        }) as u32,
        height: (if height <= image_height - top {
            height as int
        } else {
            image_height - top
        }) as u32,
    }
}

/// Returns the part of the image that the rectangle at `(x, y)` of the
/// given size covers. A rectangle that leaves the image is cut at its
/// border.
pub fn crop(img: &GrayImage, x: u32, y: u32, width: u32, height: u32) -> (part: GrayImage)
    ensures
        ({
            let pos = clamped(x, y, width, height, img.spec_width(), img.spec_height());
            &&& part.spec_width() == pos.width
            &&& part.spec_height() == pos.height
            &&& part@ == region_pixels(img@, img.spec_width(), pos)
        }),
{
    let (image_width, image_height) = img.dimensions();
    let left = if x <= image_width {
        x
    } else {
        image_width
    };
    let top = if y <= image_height {
        y
    } else {
        image_height
    };
    let pos = Position {
        x: left,
        y: top,
        width: if width <= image_width - left {
            width
        } else {
            image_width - left
        },
        height: if height <= image_height - top {
            height
        } else {
            image_height - top
        },
    };
    match Roi::new(img, pos) {
        Ok(roi) => {
            let pixels = roi.pixels();
            match GrayImage::from_raw(pos.width, pos.height, pixels) {
                Some(part) => part,
                None => vstd::pervasive::unreached(),
            }
        },
        Err(_) => vstd::pervasive::unreached(),
    }
}

} // verus!
