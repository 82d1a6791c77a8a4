//! Finding the console's screen on a picture.
//!
//! The screen shows as a bright rectangle of a known aspect ratio. The
//! picture is binarized, the borders of its bright regions are followed,
//! and the largest bounding box with the right proportions is the screen.

use crate::contours::{find_contours, outline_points, traced_outlines};
use crate::position::{bounding_box, Outline, Position};
use crate::raster::{eroded, thresholded, GrayImage};
use vstd::prelude::*;

verus! {

/// The width of the console's screen in pixels.
pub const SCREEN_WIDTH: u32 = 160;

/// The height of the console's screen in pixels.
pub const SCREEN_HEIGHT: u32 = 144;

/// The height of the bright window of the second generation's summary
/// screens in pixels. The window is as wide as the screen.
pub const WINDOW_HEIGHT: u32 = 62;

/// The luminance up to which a pixel of a picture counts as dark.
/// Anything from 30 to 240 finds the screen.
pub const LOCATE_THRESHOLD: u8 = 140;

/// Whether `width : height` differs from `target_width : target_height` by
/// no more than a hundredth.
pub open spec fn ratio_matches(width: int, height: int, target_width: int, target_height: int) -> bool {
    let cross = width * target_height - target_width * height;
    -(height * target_height) <= 100 * cross <= height * target_height
}

/// Whether a box can be the whole screen: at least as large as the screen
/// and with its proportions.
pub open spec fn is_screen_sized(pos: Position) -> bool {
    &&& pos.width >= SCREEN_WIDTH
    &&& pos.height >= SCREEN_HEIGHT
    &&& ratio_matches(pos.width as int, pos.height as int, SCREEN_WIDTH as int, SCREEN_HEIGHT as int)
}

/// Whether a box can be the bright window of the second generation's
/// summary screens.
pub open spec fn is_window_sized(pos: Position) -> bool {
    &&& pos.width >= SCREEN_WIDTH
    &&& pos.height >= WINDOW_HEIGHT
    &&& ratio_matches(pos.width as int, pos.height as int, SCREEN_WIDTH as int, WINDOW_HEIGHT as int)
}

/// The whole screen that an outline stands for, if any: its bounding box.
pub open spec fn rby_screen(points: Seq<(int, int)>) -> Option<Position> {
    match bounding_box(points) {
        Some(pos) => if is_screen_sized(pos) {
            Some(pos)
        } else {
            None
        },
        None => None,
    }
}

/// The whole screen that an outline of the bright window stands for, if
/// any: the window's box with the height that a screen of this width has.
pub open spec fn gsc_screen(points: Seq<(int, int)>) -> Option<Position> {
    match bounding_box(points) {
        Some(pos) => if is_window_sized(pos) {
            Some(
                Position {
                    x: pos.x,
                    y: pos.y,
                    width: pos.width,
                    height: (pos.width * 144 / 160) as u32,
                },
            )
        } else {
            None
        },
        None => None,
    }
}

/// The screens that the outlines stand for by `screen_of`, in the order of
/// the outlines.
pub open spec fn candidates(
    outlines: Seq<Seq<(int, int)>>,
    screen_of: spec_fn(Seq<(int, int)>) -> Option<Position>,
) -> Seq<Position>
    decreases outlines.len(),
{
    if outlines.len() == 0 {
        Seq::empty()
    } else {
        let rest = candidates(outlines.drop_last(), screen_of);
        match screen_of(outlines.last()) {
            Some(pos) => rest.push(pos),
            None => rest,
        }
    }
}

/// The possible positions of the screen of the first generation among the
/// outlines.
pub open spec fn rby_candidates(outlines: Seq<Seq<(int, int)>>) -> Seq<Position> {
    candidates(outlines, |p: Seq<(int, int)>| rby_screen(p))
}

/// The possible positions of the screen of the second generation among the
/// outlines.
pub open spec fn gsc_candidates(outlines: Seq<Seq<(int, int)>>) -> Seq<Position> {
    candidates(outlines, |p: Seq<(int, int)>| gsc_screen(p))
}

/// The number of pixels of a box.
pub open spec fn area(pos: Position) -> int {
    pos.width * pos.height
}

/// The box of the greatest area, and of several such the last.
pub open spec fn largest(boxes: Seq<Position>) -> Option<Position>
    decreases boxes.len(),
{
    if boxes.len() == 0 {
        None
    } else {
        match largest(boxes.drop_last()) {
            Some(best) => if area(best) > area(boxes.last()) {
                Some(best)
            } else {
                Some(boxes.last())
            },
            None => Some(boxes.last()),
        }
    }
}

/// The largest box is one of the boxes, none is larger, and none after it
/// is as large.
pub proof fn lemma_largest(boxes: Seq<Position>)
    ensures
        boxes.len() == 0 <==> largest(boxes) is None,
        largest(boxes) matches Some(best) ==> exists|i: int|
            {
                &&& 0 <= i < boxes.len()
                &&& boxes[i] == best
                &&& forall|j: int| 0 <= j < boxes.len() ==> area(#[trigger] boxes[j]) <= area(best)
                &&& forall|j: int| i < j < boxes.len() ==> area(#[trigger] boxes[j]) < area(best)
            },
    decreases boxes.len(),
{
    if boxes.len() > 0 {
        let rest = boxes.drop_last();
        lemma_largest(rest);
        let last = boxes.len() - 1;
        match largest(rest) {
            Some(prev) => {
                let i = choose|i: int|
                    {
                        &&& 0 <= i < rest.len()
                        &&& rest[i] == prev
                        &&& forall|j: int|
                            0 <= j < rest.len() ==> area(#[trigger] rest[j]) <= area(prev)
                        &&& forall|j: int| i < j < rest.len() ==> area(#[trigger] rest[j]) < area(prev)
                    };
                assert forall|j: int| 0 <= j < rest.len() implies boxes[j] == rest[j] by {}
                if area(prev) > area(boxes.last()) {
                    assert(boxes[i] == prev);
                    assert forall|j: int| 0 <= j < boxes.len() implies area(#[trigger] boxes[j])
                        <= area(prev) by {
                        if j < last {
                            assert(boxes[j] == rest[j]);
                        }
                    }
                    assert forall|j: int| i < j < boxes.len() implies area(#[trigger] boxes[j])
                        < area(prev) by {
                        if j < last {
                            assert(boxes[j] == rest[j]);
                        }
                    }
                } else {
                    assert(boxes[last] == boxes.last());
                    assert forall|j: int| 0 <= j < boxes.len() implies area(#[trigger] boxes[j])
                        <= area(boxes.last()) by {
                        if j < last {
                            assert(boxes[j] == rest[j]);
                        }
                    }
                }
            },
            None => {
                assert(boxes[last] == boxes.last());
            },
        }
    }
}

/// Tests whether `width : height` is `target_width : target_height` up to a
/// hundredth.
fn check_ratio(width: u32, height: u32, target_width: u32, target_height: u32) -> (ok: bool)
    requires
        target_width <= 1000,
        target_height <= 1000,
    ensures
        ok == ratio_matches(
            width as int,
            height as int,
            target_width as int,
            target_height as int,
        ),
{
    assert(0 <= width * target_height <= 0xFFFF_FFFF * 1000) by (nonlinear_arith)
        requires
            0 <= width <= 0xFFFF_FFFF,
            0 <= target_height <= 1000,
    ;
    assert(0 <= target_width * height <= 0xFFFF_FFFF * 1000) by (nonlinear_arith)
        requires
            0 <= height <= 0xFFFF_FFFF,
            0 <= target_width <= 1000,
    ;
    assert(0 <= height * target_height <= 0xFFFF_FFFF * 1000) by (nonlinear_arith)
        requires
            0 <= height <= 0xFFFF_FFFF,
            0 <= target_height <= 1000,
    ;
    let cross: i64 = (width as i64) * (target_height as i64) - (target_width as i64) * (
    height as i64);
    let bound: i64 = (height as i64) * (target_height as i64);
    -bound <= 100 * cross && 100 * cross <= bound
}

/// Returns the possible positions of the screen of the first generation.
///
/// A candidate is the bounding box of an outline that is at least as large
/// as the screen and has its proportions. An all-white border of the
/// screen can keep the border from being found; a black padding or a black
/// pixel within the border helps.
pub fn search_screen_rby(contours: &Vec<Outline>) -> (found: Vec<Position>)
    ensures
        found@ == rby_candidates(outline_points(contours@)),
{
    let ghost screen_of = |p: Seq<(int, int)>| rby_screen(p);
    let mut found: Vec<Position> = Vec::new();
    let mut i: usize = 0;
    while i < contours.len()
        invariant
            i <= contours.len(),
            screen_of == |p: Seq<(int, int)>| rby_screen(p),
            found@ == candidates(outline_points(contours@).take(i as int), screen_of),
        decreases contours.len() - i,
    {
        let ghost all = outline_points(contours@);
        assert(all.take(i + 1).drop_last() =~= all.take(i as int));
        assert(all.take(i + 1).last() == contours@[i as int]@);
        match Position::try_from(&contours[i]) {
            Ok(bbox) => {
                if bbox.width >= SCREEN_WIDTH && bbox.height >= SCREEN_HEIGHT && check_ratio(
                    bbox.width,
                    bbox.height,
                    SCREEN_WIDTH,
                    SCREEN_HEIGHT,
                ) {
                    found.push(bbox);
                }
            },
            Err(_) => {},
        }
        i = i + 1;
    }
    assert(outline_points(contours@).take(i as int) =~= outline_points(contours@));
    found
}

/// Returns the possible positions of the screen of the second generation.
///
/// A candidate comes from an outline of the bright window of the summary
/// screens: the bounding box at least as large as the window and with its
/// proportions, extended downwards to the height of the whole screen.
pub fn search_screen_gsc(contours: &Vec<Outline>) -> (found: Vec<Position>)
    ensures
        found@ == gsc_candidates(outline_points(contours@)),
{
    let ghost screen_of = |p: Seq<(int, int)>| gsc_screen(p);
    let mut found: Vec<Position> = Vec::new();
    let mut i: usize = 0;
    while i < contours.len()
        invariant
            i <= contours.len(),
            screen_of == |p: Seq<(int, int)>| gsc_screen(p),
            found@ == candidates(outline_points(contours@).take(i as int), screen_of),
        decreases contours.len() - i,
    {
        let ghost all = outline_points(contours@);
        assert(all.take(i + 1).drop_last() =~= all.take(i as int));
        assert(all.take(i + 1).last() == contours@[i as int]@);
        match Position::try_from(&contours[i]) {
            Ok(bbox) => {
                if bbox.width >= SCREEN_WIDTH && bbox.height >= WINDOW_HEIGHT && check_ratio(
                    bbox.width,
                    bbox.height,
                    SCREEN_WIDTH,
                    WINDOW_HEIGHT,
                ) {
                    let estimated_height = (bbox.width as u64) * 144 / 160;
                    found.push(
                        Position {
                            x: bbox.x,
                            y: bbox.y,
                            width: bbox.width,
                            height: estimated_height as u32,
                        },
                    );
                }
            },
            Err(_) => {},
        }
        i = i + 1;
    }
    assert(outline_points(contours@).take(i as int) =~= outline_points(contours@));
    found
}

/// The screen among the outlines of a picture: the largest candidate, those
/// of the second generation taken first.
pub open spec fn screen_among(outlines: Seq<Seq<(int, int)>>) -> Option<Position> {
    largest(gsc_candidates(outlines) + rby_candidates(outlines))
}

/// Finds the box of the greatest area, and of several such the last.
fn max_by_area(boxes: &Vec<Position>) -> (best: Option<Position>)
    ensures
        best == largest(boxes@),
{
    let mut best: Option<Position> = None;
    let mut i: usize = 0;
    while i < boxes.len()
        invariant
            i <= boxes.len(),
            best == largest(boxes@.take(i as int)),
        decreases boxes.len() - i,
    {
        assert(boxes@.take(i + 1).drop_last() =~= boxes@.take(i as int));
        let current = boxes[i];
        best =
        match best {
            Some(b) => {
                proof {
                    crate::raster::lemma_product_fits(b.width, b.height);
                    crate::raster::lemma_product_fits(current.width, current.height);
                }
                if (b.width as u64) * (b.height as u64) > (current.width as u64) * (
                current.height as u64) {
                    Some(b)
                } else {
                    Some(current)
                }
            },
            None => Some(current),
        };
        i = i + 1;
    }
    assert(boxes@.take(i as int) =~= boxes@);
    best
}

/// Chooses the screen among the outlines of a picture: the largest
/// candidate of either generation, or `None` where there is no candidate.
pub fn choose_screen(contours: &Vec<Outline>) -> (screen: Option<Position>)
    ensures
        screen == screen_among(outline_points(contours@)),
{
    let rby = search_screen_rby(contours);
    let mut all = search_screen_gsc(contours);
    let ghost gsc = all@;
    let mut i: usize = 0;
    while i < rby.len()
        invariant
            i <= rby.len(),
            all@ == gsc + rby@.take(i as int),
        decreases rby.len() - i,
    {
        all.push(rby[i]);
        assert(rby@.take(i + 1) =~= rby@.take(i as int).push(rby@[i as int]));
        i = i + 1;
    }
    assert(rby@.take(i as int) =~= rby@);
    max_by_area(&all)
}

/// The pixels in which the outlines of a picture are followed: the
/// binarized picture with a black first pixel.
pub open spec fn prepared(pixels: Seq<u8>) -> Seq<u8> {
    thresholded(pixels, LOCATE_THRESHOLD).update(0, 0)
}

/// The position of the screen on a picture of `width` by `height` pixels.
pub open spec fn located(width: int, height: int, pixels: Seq<u8>) -> Option<Position> {
    if width == 0 || height == 0 {
        None
    } else {
        screen_among(traced_outlines(width, height, prepared(pixels)))
    }
}

/// Returns the position of the biggest screen on the picture, or `None`
/// where the picture shows none.
///
/// Works with the summary screens of both generations. The first pixel is
/// blackened before the outlines are followed, because the border of an
/// all-white picture would not be found.
pub fn locate_screen(img: &GrayImage) -> (screen: Option<Position>)
    requires
        img.spec_width() <= i32::MAX,
        img.spec_height() <= i32::MAX,
    ensures
        screen == located(img.spec_width(), img.spec_height(), img@),
{
    if img.width() == 0 || img.height() == 0 {
        return None;
    }
    let binary = img.threshold(LOCATE_THRESHOLD);
    let marked = binary.with_pixel(0, 0, 0);
    let contours = find_contours(&marked);
    choose_screen(&contours)
}

/// The luminance up to which a pixel counts as dark where the picture is
/// eroded before its outlines are followed.
pub const ERODE_THRESHOLD: u8 = 200;

/// A row of `n` black pixels.
pub open spec fn black(n: int) -> Seq<u8> {
    Seq::new(
        if n > 0 {
            n as nat
        } else {
            0
        },
        |i: int| 0u8,
    )
}

/// The first `rows` rows of an image that is `width` pixels wide, each
/// with a black pixel before and after it.
pub open spec fn padded_rows(pixels: Seq<u8>, width: int, rows: nat) -> Seq<u8>
    decreases rows,
{
    if rows == 0 {
        Seq::empty()
    } else {
        padded_rows(pixels, width, (rows - 1) as nat) + black(1) + pixels.subrange(
            (rows - 1) * width,
            rows * width,
        ) + black(1)
    }
}

/// The pixels of an image of `width` by `height` pixels with a black
/// border of one pixel around it.
pub open spec fn padded(pixels: Seq<u8>, width: int, height: int) -> Seq<u8> {
    black(width + 2) + padded_rows(pixels, width, height as nat) + black(width + 2)
}

/// The rows of an image with a pixel before and after each have as many
/// pixels as rows times the width and two.
proof fn lemma_padded_rows_len(pixels: Seq<u8>, width: int, height: int, rows: nat)
    requires
        0 <= width,
        rows <= height,
        pixels.len() == width * height,
    ensures
        padded_rows(pixels, width, rows).len() == rows * (width + 2),
        rows * width <= pixels.len(),
    decreases rows,
{
    if rows > 0 {
        lemma_padded_rows_len(pixels, width, height, (rows - 1) as nat);
        assert((rows - 1) * (width + 2) + (width + 2) == rows * (width + 2)) by (nonlinear_arith);
        assert((rows - 1) * width + width == rows * width) by (nonlinear_arith);
        assert(rows * width <= width * height) by (nonlinear_arith)
            requires
                0 <= width,
                rows <= height,
        ;
        assert(0 <= (rows - 1) * width) by (nonlinear_arith)
            requires
                0 <= width,
                rows >= 1,
        ;
    } else {
        assert(rows * (width + 2) == 0) by (nonlinear_arith)
            requires
                rows == 0,
        ;
        assert(rows * width == 0) by (nonlinear_arith)
            requires
                rows == 0,
        ;
    }
}

/// Appends `n` black pixels.
fn push_black(data: &mut Vec<u8>, n: u32)
    ensures
        final(data)@ == old(data)@ + black(n as int),
{
    let ghost start = data@;
    let mut i: u32 = 0;
    assert(data@ =~= start + black(0));
    while i < n
        invariant
            i <= n,
            data@ == start + black(i as int),
        decreases n - i,
    {
        data.push(0);
        assert(data@ =~= start + black(i + 1));
        i = i + 1;
    }
}

/// Returns the image with a black border of one pixel around it.
pub fn pad(img: &GrayImage) -> (out: GrayImage)
    requires
        img.spec_width() + 2 <= u32::MAX,
        img.spec_height() + 2 <= u32::MAX,
    ensures
        out.spec_width() == img.spec_width() + 2,
        out.spec_height() == img.spec_height() + 2,
        out@ == padded(img@, img.spec_width(), img.spec_height()),
{
    let (width, height) = img.dimensions();
    let pixels = img.as_raw();
    let mut data: Vec<u8> = Vec::new();
    push_black(&mut data, width + 2);
    let ghost top = data@;
    let mut y: u32 = 0;
    assert(data@ =~= top + padded_rows(pixels@, width as int, 0));
    while y < height
        invariant
            y <= height,
            width == img.spec_width(),
            height == img.spec_height(),
            pixels@ == img@,
            pixels@.len() == width * height,
            data@ == top + padded_rows(pixels@, width as int, y as nat),
        decreases height - y,
    {
        let ghost done = padded_rows(pixels@, width as int, y as nat);
        proof {
            lemma_padded_rows_len(pixels@, width as int, height as int, (y + 1) as nat);
            lemma_padded_rows_len(pixels@, width as int, height as int, y as nat);
            crate::raster::lemma_product_fits(y, width);
            assert((y + 1) * width == y * width + width) by (nonlinear_arith);
        }
        data.push(0);
        let len = pixels.len();
        assert(y * width + width <= len);
        let start: usize = ((y as u64) * (width as u64)) as usize;
        let ghost before = data@;
        let mut x: u32 = 0;
        assert(data@ =~= before + pixels@.subrange(start as int, start + 0));
        while x < width
            invariant
                x <= width,
                start == y * width,
                start + width <= len,
                len == pixels@.len(),
                data@ == before + pixels@.subrange(start as int, start + x),
            decreases width - x,
        {
            let p = pixels[start + x as usize];
            data.push(p);
            assert(pixels@.subrange(start as int, start + x + 1) =~= pixels@.subrange(
                start as int,
                start + x,
            ).push(p));
            x = x + 1;
        }
        data.push(0);
        proof {
            assert(data@ =~= top + (done + black(1) + pixels@.subrange(
                y * width,
                (y + 1) * width,
            ) + black(1)));
        }
        y = y + 1;
    }
    push_black(&mut data, width + 2);
    proof {
        lemma_padded_rows_len(pixels@, width as int, height as int, height as nat);
        assert((width + 2) + height * (width + 2) + (width + 2) == (width + 2) * (height + 2))
            by (nonlinear_arith);
    }
    match GrayImage::from_raw(width + 2, height + 2, data) {
        Some(out) => out,
        None => vstd::pervasive::unreached(),
    }
}

/// The screen that a box on the padded and eroded picture stands for: the
/// box moved back by the border and the erosion, and grown by the
/// erosion on either side.
pub open spec fn compensated(pos: Position) -> (u32, u32, u32, u32) {
    (
        if pos.x >= 2 {
            (pos.x - 2) as u32
        } else {
            0
        },
        if pos.y >= 2 {
            (pos.y - 2) as u32
        } else {
            0
        },
        if pos.width + 2 <= u32::MAX {
            (pos.width + 2) as u32
        } else {
            u32::MAX
        },
        if pos.height + 2 <= u32::MAX {
            (pos.height + 2) as u32
        } else {
            u32::MAX
        },
    )
}

/// The place of the screen on a picture of `width` by `height` pixels, as
/// the eroded picture shows it.
pub open spec fn located_eroded(width: int, height: int, pixels: Seq<u8>) -> Option<
    (u32, u32, u32, u32),
> {
    let prepared = eroded(
        width + 2,
        height + 2,
        padded(thresholded(pixels, ERODE_THRESHOLD), width, height),
        1,
    );
    match largest(rby_candidates(traced_outlines(width + 2, height + 2, prepared))) {
        Some(pos) => Some(compensated(pos)),
        None => None,
    }
}

/// Returns the place of the screen of the first generation on a picture
/// as its left, its top, its width and its height, or `None` where the
/// picture shows none.
///
/// The picture is binarized, set into a black border and eroded by one
/// pixel before its outlines are followed, which takes little dots away.
/// The box that is found is moved and grown back by as much.
pub fn locate_gameboy_screen(img: &GrayImage) -> (screen: Option<(u32, u32, u32, u32)>)
    requires
        img.spec_width() + 2 <= i32::MAX,
        img.spec_height() + 2 <= i32::MAX,
    ensures
        screen == located_eroded(img.spec_width(), img.spec_height(), img@),
{
    let img_threshold = img.threshold(ERODE_THRESHOLD);
    let img_border = pad(&img_threshold);
    let image_erode = img_border.erode(1);
    let contours = find_contours(&image_erode);
    let screen_candidates = search_screen_rby(&contours);
    match max_by_area(&screen_candidates) {
        Some(p) => Some(
            (
                p.x.saturating_sub(2),
                p.y.saturating_sub(2),
                p.width.saturating_add(2),
                p.height.saturating_add(2),
            ),
        ),
        None => None,
    }
}

} // verus!
