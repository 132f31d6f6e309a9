//! Pixel-perfect selection: a sprite is hit only where it is not transparent.

use vstd::prelude::*;
use crate::lattice::Lattice;

verus! {

/// A pixel whose alpha is above this is solid.
pub const ALPHA_THRESHOLD: u8 = 10;

/// Something that can be clicked, and whether it just was.
#[derive(Clone, Copy, Debug, PartialEq, Eq, Structural)]
pub struct Clickable {
    just_clicked: bool,
}

impl Default for Clickable {
    fn default() -> (clickable: Clickable)
        ensures
            !clickable.spec_just_clicked(),
    {
        Clickable { just_clicked: false }
    }
}

impl Clickable {
    /// Whether a click has landed on it.
    pub closed spec fn spec_just_clicked(&self) -> bool {
        self.just_clicked
    }

    /// Whether a click has landed on it.
    #[verifier::when_used_as_spec(spec_just_clicked)]
    pub fn just_clicked(&self) -> (clicked: bool)
        ensures
            clicked == self.spec_just_clicked(),
    {
        self.just_clicked
    }
}

/// The place of the alpha byte of the pixel `(x, y)` in the bytes of an
/// image of four bytes per pixel, stored row by row.
pub open spec fn alpha_index(image_width: int, x: int, y: int) -> int {
    4 * (y * image_width + x) + 3
}

/// The image has a pixel `(x, y)` and its alpha is above the threshold.
pub open spec fn solid(data: Seq<u8>, image_width: int, x: int, y: int) -> bool {
    &&& 0 <= x < image_width
    &&& 0 <= y
    &&& alpha_index(image_width, x, y) < data.len()
    &&& data[alpha_index(image_width, x, y)] > ALPHA_THRESHOLD
}

/// The solid pixels of a sprite.
///
/// The view is the sequence of columns of the mask: `hit_box@[x][y]` tells
/// whether the pixel `x` from the left and `y` from the top is solid.
pub struct PixelPerfectHitBox {
    mask: Lattice<bool>,
}

impl View for PixelPerfectHitBox {
    type V = Seq<Seq<bool>>;

    closed spec fn view(&self) -> Seq<Seq<bool>> {
        self.mask@
    }
}

/// Whether the image has a solid pixel at `(x, y)`.
fn is_solid(data: &Vec<u8>, image_width: usize, x: usize, y: usize) -> (found: bool)
    ensures
        found == solid(data@, image_width as int, x as int, y as int),
{
    if x >= image_width {
        return false;
    }
    assert(y * image_width <= 0xffff_ffff_ffff_ffff * 0xffff_ffff_ffff_ffff) by (nonlinear_arith)
        requires
            0 <= y <= 0xffff_ffff_ffff_ffff,
            0 <= image_width <= 0xffff_ffff_ffff_ffff,
    ;
    let pixel: u128 = (y as u128) * (image_width as u128) + (x as u128);
    let pixels: u128 = (data.len() / 4) as u128;
    if pixel < pixels {
        let index: usize = (4 * pixel + 3) as usize;
        data[index] > ALPHA_THRESHOLD
    } else {
        false
    }
}

impl PixelPerfectHitBox {
    /// Width of the sprite in pixels.
    pub closed spec fn spec_width(&self) -> usize {
        self.mask.spec_width()
    }

    /// Height of the sprite in pixels.
    pub closed spec fn spec_height(&self) -> usize {
        self.mask.spec_height()
    }

    /// The view is a rectangle of the sprite's own width and height.
    pub open spec fn wf(&self) -> bool {
        crate::lattice::rectangular(self@, self.spec_width() as nat, self.spec_height() as nat)
    }

    /// Whether a click at `rel_x` pixels from the left edge of the sprite and
    /// `rel_y` pixels from its bottom edge lands on a solid pixel. The mask
    /// counts rows from the top, so the row is `height - rel_y - 1`.
    pub open spec fn spec_hit(&self, rel_x: int, rel_y: int) -> bool {
        &&& 0 <= rel_x < self.spec_width()
        &&& 0 <= rel_y < self.spec_height()
        &&& self@[rel_x][self.spec_height() - rel_y - 1]
    }

    /// Width of the sprite in pixels.
    #[verifier::when_used_as_spec(spec_width)]
    pub fn width(&self) -> (w: usize)
        ensures
            w == self.spec_width(),
            self.wf(),
    {
        self.mask.width()
    }

    /// Height of the sprite in pixels.
    #[verifier::when_used_as_spec(spec_height)]
    pub fn height(&self) -> (h: usize)
        ensures
            h == self.spec_height(),
            self.wf(),
    {
        self.mask.height()
    }

    /// The hit box of the sprite that fills the rectangle from `(min_x,
    /// min_y)` up to, not including, `(max_x, max_y)` of an image that is
    /// `image_width` pixels wide and stored in `data` with four bytes per
    /// pixel, the alpha last. A pixel of the sprite is solid when the image
    /// has that pixel and its alpha is above the threshold. An image that
    /// holds a pixel has to have a width.
    pub fn add_graphic_to_hitboxes(
        min_x: usize,
        min_y: usize,
        max_x: usize,
        max_y: usize,
        image_width: usize,
        data: &Vec<u8>,
    ) -> (hit_box: PixelPerfectHitBox)
        requires
            min_x <= max_x,
            min_y <= max_y,
            image_width > 0 || data@.len() < 4,
        ensures
            hit_box.spec_width() == max_x - min_x,
            hit_box.spec_height() == max_y - min_y,
            hit_box.wf(),
            forall|x: int, y: int|
                0 <= x < max_x - min_x && 0 <= y < max_y - min_y ==> #[trigger] hit_box@[x][y]
                    == solid(data@, image_width as int, min_x + x, min_y + y),
    {
        let width = max_x - min_x;
        let height = max_y - min_y;
        let mut mask: Lattice<bool> = Lattice::new(width, height, false);
        let mut x: usize = 0;
        while x < width
            invariant
                x <= width,
                width == max_x - min_x,
                height == max_y - min_y,
                mask.wf(),
                mask.spec_width() == width,
                mask.spec_height() == height,
                forall|i: int, j: int|
                    0 <= i < x && 0 <= j < height ==> #[trigger] mask@[i][j] == solid(
                        data@,
                        image_width as int,
                        min_x + i,
                        min_y + j,
                    ),
            decreases width - x,
        {
            let mut y: usize = 0;
            while y < height
                invariant
                    x < width,
                    y <= height,
                    width == max_x - min_x,
                    height == max_y - min_y,
                    mask.wf(),
                    mask.spec_width() == width,
                    mask.spec_height() == height,
                    forall|i: int, j: int|
                        0 <= i < x && 0 <= j < height ==> #[trigger] mask@[i][j] == solid(
                            data@,
                            image_width as int,
                            min_x + i,
                            min_y + j,
                        ),
                    forall|j: int|
                        0 <= j < y ==> #[trigger] mask@[x as int][j] == solid(
                            data@,
                            image_width as int,
                            min_x + x,
                            min_y + j,
                        ),
                decreases height - y,
            {
                let found = is_solid(data, image_width, min_x + x, min_y + y);
                mask.set(x, y, found);
                y += 1;
            }
            x += 1;
        }
        PixelPerfectHitBox { mask }
    }

    /// Whether a click at `rel_x` pixels from the left edge of the sprite and
    /// `rel_y` pixels from its bottom edge lands on a solid pixel.
    pub fn hit(&self, rel_x: isize, rel_y: isize) -> (over: bool)
        ensures
            over == self.spec_hit(rel_x as int, rel_y as int),
    {
        let width = self.mask.width();
        let height = self.mask.height();
        if rel_x >= 0 && rel_y >= 0 && (rel_x as usize) < width && (rel_y as usize) < height {
            self.mask.get(rel_x as usize, height - (rel_y as usize) - 1)
        } else {
            false
        }
    }

    /// Tests a click against the sprite and marks `click` as clicked when it
    /// lands on a solid pixel; otherwise `click` stays as it was. Returns
    /// whether the click landed.
    pub fn test_hitbox(&self, rel_x: isize, rel_y: isize, click: &mut Clickable) -> (over: bool)
        ensures
            over == self.spec_hit(rel_x as int, rel_y as int),
            final(click).spec_just_clicked() == (old(click).spec_just_clicked() || over),
    {
        let over = self.hit(rel_x, rel_y);
        if over {
            click.just_clicked = true;
        }
        over
    }
}

} // verus!
