//! The wall mask: which tiles are closed to gas and heat.

use vstd::prelude::*;
use crate::lattice::{rectangular, with_cell, Lattice};
use crate::wall::WallGrid;

verus! {

/// The mask that a layout of walls gives: a tile is blocked exactly when the
/// layout holds a wall on it.
pub open spec fn mask_of<E>(walls: Seq<Seq<Option<E>>>) -> Seq<Seq<bool>> {
    Seq::new(walls.len(), |x: int| Seq::new(walls[x].len(), |y: int| walls[x][y] is Some))
}

/// A boolean per tile; `true` marks a tile that nothing diffuses into or out of.
///
/// The view is the sequence of columns: `mask@[x][y]` tells whether `(x, y)`
/// is blocked.
pub struct WallMask {
    blocked: Lattice<bool>,
}

impl View for WallMask {
    type V = Seq<Seq<bool>>;

    closed spec fn view(&self) -> Seq<Seq<bool>> {
        self.blocked@
    }
}

impl WallMask {
    /// Number of tiles along x.
    pub closed spec fn spec_width(&self) -> usize {
        self.blocked.spec_width()
    }

    /// Number of tiles along y.
    pub closed spec fn spec_height(&self) -> usize {
        self.blocked.spec_height()
    }

    /// The view is a rectangle of the mask's own width and height.
    pub open spec fn wf(&self) -> bool {
        rectangular(self@, self.spec_width() as nat, self.spec_height() as nat)
    }

    /// `(x, y)` is a tile of the mask.
    pub open spec fn contains(&self, x: int, y: int) -> bool {
        0 <= x < self.spec_width() && 0 <= y < self.spec_height()
    }

    /// Number of tiles along x.
    #[verifier::when_used_as_spec(spec_width)]
    pub fn width(&self) -> (w: usize)
        ensures
            w == self.spec_width(),
            self.wf(),
    {
        self.blocked.width()
    }

    /// Number of tiles along y.
    #[verifier::when_used_as_spec(spec_height)]
    pub fn height(&self) -> (h: usize)
        ensures
            h == self.spec_height(),
            self.wf(),
    {
        self.blocked.height()
    }

    /// A mask of the given size that blocks no tile.
    pub fn new(width: usize, height: usize) -> (mask: WallMask)
        ensures
            mask.spec_width() == width,
            mask.spec_height() == height,
            mask.wf(),
            forall|x: int, y: int| mask.contains(x, y) ==> !#[trigger] mask@[x][y],
    {
        WallMask { blocked: Lattice::new(width, height, false) }
    }

    /// The mask of a layout of walls, built from nothing but the layout: a
    /// tile is blocked exactly when the layout holds a wall on it.
    pub fn sync<E: Copy>(layout: &WallGrid<E>) -> (mask: WallMask)
        ensures
            mask.spec_width() == layout.spec_width(),
            mask.spec_height() == layout.spec_height(),
            mask.wf(),
            mask@ == mask_of(layout@),
    {
        let width = layout.width();
        let height = layout.height();
        let mut blocked: Lattice<bool> = Lattice::new(width, height, false);
        let mut x: usize = 0;
        while x < width
            invariant
                x <= width,
                width == layout.spec_width(),
                height == layout.spec_height(),
                layout.wf(),
                blocked.wf(),
                blocked.spec_width() == width,
                blocked.spec_height() == height,
                forall|i: int, j: int|
                    0 <= i < x && 0 <= j < height ==> #[trigger] blocked@[i][j] == (
                    layout@[i][j] is Some),
            decreases width - x,
        {
            let mut y: usize = 0;
            while y < height
                invariant
                    x < width,
                    y <= height,
                    width == layout.spec_width(),
                    height == layout.spec_height(),
                    layout.wf(),
                    blocked.wf(),
                    blocked.spec_width() == width,
                    blocked.spec_height() == height,
                    forall|i: int, j: int|
                        0 <= i < x && 0 <= j < height ==> #[trigger] blocked@[i][j] == (
                        layout@[i][j] is Some),
                    forall|j: int|
                        0 <= j < y ==> #[trigger] blocked@[x as int][j] == (
                        layout@[x as int][j] is Some),
                decreases height - y,
            {
                let wall = layout.wall_at(x, y);
                blocked.set(x, y, wall.is_some());
                y += 1;
            }
            x += 1;
        }
        let mask = WallMask { blocked };
        assert(mask@ =~~= mask_of(layout@));
        mask
    }

    /// Whether the tile `(x, y)` is blocked.
    pub fn is_wall(&self, x: usize, y: usize) -> (blocked: bool)
        requires
            self.contains(x as int, y as int),
        ensures
            blocked == self@[x as int][y as int],
            self.wf(),
    {
        self.blocked.get(x, y)
    }

    /// Blocks or opens the tile `(x, y)`; every other tile stays as it was.
    pub fn set_wall(&mut self, x: usize, y: usize, blocked: bool)
        requires
            old(self).contains(x as int, y as int),
        ensures
            final(self).spec_width() == old(self).spec_width(),
            final(self).spec_height() == old(self).spec_height(),
            old(self).wf(),
            final(self).wf(),
            final(self)@ == with_cell(old(self)@, x as int, y as int, blocked),
    {
        self.blocked.set(x, y, blocked);
    }
}

/// A mask is rebuilt, never patched: it blocks a tile exactly when the layout
/// it was built from holds a wall there, whatever any earlier mask said.
pub proof fn lemma_mask_follows_layout<E>(walls: Seq<Seq<Option<E>>>, x: int, y: int)
    requires
        0 <= x < walls.len(),
        0 <= y < walls[x].len(),
    ensures
        mask_of(walls)[x][y] == (walls[x][y] is Some),
{
}

/// Once the wall on `(x, y)` is taken out of the layout, the rebuilt mask
/// leaves `(x, y)` open; the tiles that still hold a wall stay blocked and no
/// other tile changes.
pub proof fn lemma_removed_wall_is_forgotten<E>(walls: Seq<Seq<Option<E>>>, x: int, y: int)
    requires
        0 <= x < walls.len(),
        0 <= y < walls[x].len(),
    ensures
        !mask_of(with_cell(walls, x, y, None))[x][y],
        mask_of(with_cell(walls, x, y, None)) == with_cell(mask_of(walls), x, y, false),
{
    let after = with_cell(walls, x, y, None::<E>);
    assert(mask_of(after) =~~= with_cell(mask_of(walls), x, y, false)) by {
        assert forall|i: int| 0 <= i < walls.len() implies #[trigger] mask_of(after)[i]
            =~= with_cell(mask_of(walls), x, y, false)[i] by {
            if i == x {
                assert forall|j: int| 0 <= j < walls[x].len() implies #[trigger] mask_of(
                    after,
                )[x][j] == with_cell(mask_of(walls), x, y, false)[x][j] by {}
            }
        }
    }
}

} // verus!
