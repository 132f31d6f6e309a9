//! The gas grid: one mixture per tile, the mask of the tiles that are
//! blocked, and what happens to them in a tick.

use vstd::prelude::*;
use vstd::std_specs::ops::{AddSpec, DivSpec, MulSpec, SubSpec};
use crate::diffusion::{
    cell_rests, isolated, lemma_relaxation_ignores_wall, lemma_relaxation_keeps_isolated_cell,
    relax, relaxed, same_but_at, Relaxation,
};
use crate::gas::{
    lemma_clamped_mixture_is_in_range, lemma_clamped_mixture_lies_in_range,
    lemma_clamped_mixture_stays, Gas, GasMixture, GAS_COUNT,
};
use crate::lattice::{rectangular, with_cell, Lattice};
use crate::mask::{mask_of, WallMask};
use crate::number::{
    at_least, at_most, bounds, comparable, count, exact, from_count, from_wide_count, greater,
    is_at_least, is_less, less, ordered, ordered_bounds, total, wide_count, Number,
};
use crate::wall::WallGrid;

verus! {

/// Why an operation on a grid was refused.
#[derive(Clone, Copy, Debug, PartialEq, Eq, Structural)]
pub enum GridError {
    /// The coordinates name no cell of the grid.
    CellOutOfBounds,
    /// Two grids that have to be of one size are not.
    SizeMismatch,
    /// The grid would have more cells than can be counted in 32 bits.
    TooManyCells,
}

/// The tuning of the solver.
#[derive(Debug)]
pub struct SolverSettings<Q> {
    /// How fast heat spreads, per unit of time and per cell of the grid.
    pub thermal_rate: Q,
    /// How fast gas spreads, per unit of time.
    pub molar_rate: Q,
    /// Sweeps of the temperature relaxation in one step.
    pub temperature_passes: u32,
    /// Sweeps of the relaxation of the amounts in one step.
    pub molar_passes: u32,
}

/// A leak that vents one species from one cell for a while.
#[derive(Debug)]
pub struct Breach<Q> {
    /// The cell that leaks.
    pub x: usize,
    pub y: usize,
    /// The species that is lost.
    pub gas: Gas,
    /// Moles lost per unit of time.
    pub rate: Q,
    /// The breach is active while less than this time has passed.
    pub duration: Q,
}

impl<Q: Copy> Clone for SolverSettings<Q> {
    fn clone(&self) -> (copy: SolverSettings<Q>)
        ensures
            copy == *self,
    {
        *self
    }
}

impl<Q: Copy> Copy for SolverSettings<Q> {

}

impl<Q: Copy> Clone for Breach<Q> {
    fn clone(&self) -> (copy: Breach<Q>)
        ensures
            copy == *self,
    {
        *self
    }
}

impl<Q: Copy> Copy for Breach<Q> {

}

/// What a grid holds: its cells and its wall mask, each as a sequence of
/// columns, and the length of the side of a tile. The number of cells along
/// x and along y is given by [`GasGrid::spec_width`] and
/// [`GasGrid::spec_height`]; the number of all cells, which the grid keeps
/// beside them, is their product.
pub struct GasGridView<Q> {
    pub cells: Seq<Seq<GasMixture<Q>>>,
    pub wall_mask: Seq<Seq<bool>>,
    pub tile_size: Q,
}

/// A rectangle of gas cells with the wall mask that gates what the cells
/// exchange.
pub struct GasGrid<Q> {
    cells: Lattice<GasMixture<Q>>,
    wall_mask: WallMask,
    cell_count: u32,
    tile_size: Q,
}

impl<Q> View for GasGrid<Q> {
    type V = GasGridView<Q>;

    closed spec fn view(&self) -> GasGridView<Q> {
        GasGridView { cells: self.cells@, wall_mask: self.wall_mask@, tile_size: self.tile_size }
    }
}

/// The rate of the temperature relaxation of a step over the time `dt` on a
/// grid of `cells` cells: dt * thermal rate * cells.
pub open spec fn thermal_rate_of<Q: Number>(settings: SolverSettings<Q>, dt: Q, cells: u32) -> Q {
    dt.mul_spec(settings.thermal_rate).mul_spec(wide_count::<Q>(cells as u64))
}

/// The rate of the relaxation of the amounts of a step over the time `dt`:
/// dt * molar rate.
pub open spec fn molar_rate_of<Q: Number>(settings: SolverSettings<Q>, dt: Q) -> Q {
    dt.mul_spec(settings.molar_rate)
}

/// What one step of the solver over the time `dt` makes of the cells
/// `before` under `mask`: the temperatures are relaxed, then the amounts,
/// both against the cells as they were before the step.
pub open spec fn stepped<Q: Number>(
    settings: SolverSettings<Q>,
    dt: Q,
    mask: Seq<Seq<bool>>,
    width: nat,
    height: nat,
    before: Seq<Seq<GasMixture<Q>>>,
) -> Seq<Seq<GasMixture<Q>>> {
    let heated = relaxed(
        Relaxation::Temperature,
        thermal_rate_of(settings, dt, (width * height) as u32),
        before,
        mask,
        width,
        height,
        before,
        settings.temperature_passes as nat,
    );
    relaxed(
        Relaxation::Amounts,
        molar_rate_of(settings, dt),
        before,
        mask,
        width,
        height,
        heated,
        settings.molar_passes as nat,
    )
}

/// Where `position` lies along one axis of a grid of tiles of `tile_size`
/// whose first tile has its centre at `origin`, counted in tiles from the
/// lower edge of the first tile: (position - origin + tile size / 2) / tile
/// size. The whole part of it is the index of the tile.
pub open spec fn tile_coordinate<Q: Number>(position: Q, origin: Q, tile_size: Q) -> Q {
    position.sub_spec(origin).add_spec(
        count::<Q>(1).div_spec(count::<Q>(2)).mul_spec(tile_size),
    ).div_spec(tile_size)
}

/// The amounts of the species with index `species` in the cells that come
/// before `(x, y)`, added up from zero column by column and within a column
/// from the bottom up.
pub open spec fn amount_sum<Q: Number>(
    cells: Seq<Seq<GasMixture<Q>>>,
    species: int,
    height: nat,
    x: nat,
    y: nat,
) -> Q
    decreases x, y,
{
    if y > 0 {
        amount_sum(cells, species, height, x, (y - 1) as nat).add_spec(
            cells[x as int][y - 1].amount[species],
        )
    } else if x > 0 {
        amount_sum(cells, species, height, (x - 1) as nat, height)
    } else {
        count::<Q>(0)
    }
}

/// The cells with every amount of every cell brought into the range from
/// `low` to `high`.
pub open spec fn all_clamped<Q: Number>(cells: Seq<Seq<GasMixture<Q>>>, low: Q, high: Q) -> Seq<
    Seq<GasMixture<Q>>,
> {
    Seq::new(
        cells.len(),
        |x: int| Seq::new(cells[x].len(), |y: int| cells[x][y].clamped(low, high)),
    )
}

/// The coordinate `place`, counted in tiles, lies on the tile with the given
/// index: it is at least the index and less than the index after it.
pub open spec fn on_tile<Q: Number>(place: Q, index: int) -> bool {
    at_least(place, wide_count::<Q>(index as u64)) && less(
        place,
        wide_count::<Q>((index + 1) as u64),
    )
}

/// The index of the tile on which the coordinate `place`, counted in tiles,
/// lies, among the first `tiles` tiles: the first tile that `place` lies
/// on. A coordinate on none of them gives nothing.
pub fn tile_index<Q: Number>(place: Q, tiles: usize) -> (found: Option<usize>)
    requires
        total::<Q>(),
    ensures
        found matches Some(index) ==> index < tiles,
        exact::<Q>() ==> match found {
            Some(index) => on_tile(place, index as int) && forall|before: int|
                0 <= before < index ==> !#[trigger] on_tile(place, before),
            None => forall|index: int| 0 <= index < tiles ==> !#[trigger] on_tile(place, index),
        },
{
    let mut index: usize = 0;
    while index < tiles
        invariant
            index <= tiles,
            total::<Q>(),
            exact::<Q>() ==> forall|before: int|
                0 <= before < index ==> !#[trigger] on_tile(place, before),
        decreases tiles - index,
    {
        let low: Q = from_wide_count(index as u64);
        let high: Q = from_wide_count((index + 1) as u64);
        if is_at_least(place, low) && is_less(place, high) {
            return Some(index);
        }
        index += 1;
    }
    None
}

/// Where `position` lies along one axis of a grid of tiles of `tile_size`
/// whose first tile has its centre at `origin`, counted in tiles.
pub fn tile_along<Q: Number>(position: Q, origin: Q, tile_size: Q) -> (place: Q)
    requires
        total::<Q>(),
    ensures
        exact::<Q>() ==> place == tile_coordinate(position, origin, tile_size),
{
    let one: Q = from_count(1);
    let two: Q = from_count(2);
    (position - origin + one / two * tile_size) / tile_size
}

impl<Q> GasGrid<Q> {
    #[verifier::type_invariant]
    spec fn masked(&self) -> bool {
        &&& self.wall_mask.spec_width() == self.cells.spec_width()
        &&& self.wall_mask.spec_height() == self.cells.spec_height()
        &&& self.cell_count == self.cells.spec_width() * self.cells.spec_height()
    }

    /// Number of cells along x.
    pub closed spec fn spec_width(&self) -> usize {
        self.cells.spec_width()
    }

    /// Number of cells along y.
    pub closed spec fn spec_height(&self) -> usize {
        self.cells.spec_height()
    }

    /// The length of the side of a tile.
    pub open spec fn spec_tile_size(&self) -> Q {
        self@.tile_size
    }

    /// Cells and mask are rectangles of the grid's own width and height, and
    /// the number of cells can be counted in 32 bits.
    pub open spec fn wf(&self) -> bool {
        &&& rectangular(self@.cells, self.spec_width() as nat, self.spec_height() as nat)
        &&& rectangular(self@.wall_mask, self.spec_width() as nat, self.spec_height() as nat)
        &&& self.spec_width() * self.spec_height() <= u32::MAX
    }

    /// `(x, y)` names a cell of the grid.
    pub open spec fn contains(&self, x: int, y: int) -> bool {
        0 <= x < self.spec_width() && 0 <= y < self.spec_height()
    }

    /// The grid is of the given size, every cell holds `fill`, and no tile
    /// is blocked.
    pub open spec fn fresh(
        &self,
        width: usize,
        height: usize,
        tile_size: Q,
        fill: GasMixture<Q>,
    ) -> bool {
        &&& self.spec_width() == width
        &&& self.spec_height() == height
        &&& self.spec_tile_size() == tile_size
        &&& self.wf()
        &&& forall|x: int, y: int| self.contains(x, y) ==> #[trigger] self@.cells[x][y] == fill
        &&& forall|x: int, y: int| self.contains(x, y) ==> !#[trigger] self@.wall_mask[x][y]
    }

    /// Number of cells along x.
    #[verifier::when_used_as_spec(spec_width)]
    pub fn width(&self) -> (w: usize)
        ensures
            w == self.spec_width(),
            self.wf(),
    {
        proof {
            use_type_invariant(self);
        }
        let _ = self.wall_mask.width();
        self.cells.width()
    }

    /// Number of cells along y.
    #[verifier::when_used_as_spec(spec_height)]
    pub fn height(&self) -> (h: usize)
        ensures
            h == self.spec_height(),
            self.wf(),
    {
        proof {
            use_type_invariant(self);
        }
        let _ = self.wall_mask.width();
        self.cells.height()
    }

    /// The cell that the signed coordinates `(x, y)` name. Coordinates
    /// outside the grid are refused.
    pub fn locate(&self, x: i64, y: i64) -> (found: Result<(usize, usize), GridError>)
        ensures
            self.wf(),
            found == (if self.contains(x as int, y as int) {
                Ok((x as usize, y as usize))
            } else {
                Err(GridError::CellOutOfBounds)
            }),
    {
        let _ = self.width();
        if self.cells.in_bounds(x, y) {
            Ok((x as usize, y as usize))
        } else {
            Err(GridError::CellOutOfBounds)
        }
    }

    /// The wall mask of the grid.
    pub fn wall_mask(&self) -> (mask: &WallMask)
        ensures
            mask@ == self@.wall_mask,
            mask.spec_width() == self.spec_width(),
            mask.spec_height() == self.spec_height(),
            self.wf(),
    {
        let _ = self.width();
        proof {
            use_type_invariant(self);
        }
        &self.wall_mask
    }
}

impl<Q: Number> GasGrid<Q> {
    /// The layout of walls covers the same tiles as the grid.
    pub open spec fn fits<E>(&self, layout: &WallGrid<E>) -> bool {
        layout.spec_width() == self.spec_width() && layout.spec_height() == self.spec_height()
    }

    /// A grid of the given size, with tiles of `tile_size`, whose cells all
    /// hold `fill` and whose mask blocks no tile. A grid of more cells than
    /// can be counted in 32 bits is refused with `TooManyCells`.
    pub fn new(width: usize, height: usize, tile_size: Q, fill: GasMixture<Q>) -> (made: Result<
        GasGrid<Q>,
        GridError,
    >)
        ensures
            match made {
                Ok(grid) => width * height <= u32::MAX && grid.fresh(
                    width,
                    height,
                    tile_size,
                    fill,
                ),
                Err(error) => width * height > u32::MAX && error == GridError::TooManyCells,
            },
    {
        assert(width * height <= 0xffff_ffff_ffff_ffff * 0xffff_ffff_ffff_ffff) by (nonlinear_arith)
            requires
                0 <= width <= 0xffff_ffff_ffff_ffff,
                0 <= height <= 0xffff_ffff_ffff_ffff,
        ;
        let cells: u128 = (width as u128) * (height as u128);
        if cells > u32::MAX as u128 {
            return Err(GridError::TooManyCells);
        }
        let grid = GasGrid {
            cells: Lattice::new(width, height, fill),
            wall_mask: WallMask::new(width, height),
            cell_count: cells as u32,
            tile_size,
        };
        let _ = grid.width();
        Ok(grid)
    }

    /// The length of the side of a tile.
    pub fn tile_size(&self) -> (size: Q)
        ensures
            size == self.spec_tile_size(),
    {
        self.tile_size
    }

    /// Where `position` lies on the grid when the centre of the grid's first
    /// tile is at `origin`, along each axis and counted in tiles. The whole
    /// part of each coordinate is the index of the tile; see
    /// [`GasGrid::locate`].
    pub fn tile_of(&self, position: (Q, Q), origin: (Q, Q)) -> (place: (Q, Q))
        requires
            total::<Q>(),
        ensures
            exact::<Q>() ==> place == (
                tile_coordinate(position.0, origin.0, self.spec_tile_size()),
                tile_coordinate(position.1, origin.1, self.spec_tile_size()),
            ),
    {
        (
            tile_along(position.0, origin.0, self.tile_size),
            tile_along(position.1, origin.1, self.tile_size),
        )
    }

    /// The cell on which `position` lies when the centre of the grid's first
    /// tile is at `origin`. A position on none of the grid's tiles is refused
    /// with `CellOutOfBounds`.
    pub fn cell_at(&self, position: (Q, Q), origin: (Q, Q)) -> (found: Result<
        (usize, usize),
        GridError,
    >)
        requires
            total::<Q>(),
        ensures
            self.wf(),
            match found {
                Ok((x, y)) => self.contains(x as int, y as int) && (exact::<Q>() ==> on_tile(
                    tile_coordinate(position.0, origin.0, self.spec_tile_size()),
                    x as int,
                ) && on_tile(
                    tile_coordinate(position.1, origin.1, self.spec_tile_size()),
                    y as int,
                )),
                Err(error) => error == GridError::CellOutOfBounds && (exact::<Q>() ==> (forall|
                    x: int,
                |
                    0 <= x < self.spec_width() ==> !#[trigger] on_tile(
                        tile_coordinate(position.0, origin.0, self.spec_tile_size()),
                        x,
                    )) || (forall|y: int|
                    0 <= y < self.spec_height() ==> !#[trigger] on_tile(
                        tile_coordinate(position.1, origin.1, self.spec_tile_size()),
                        y,
                    ))),
            },
    {
        let width = self.width();
        let height = self.height();
        let place = self.tile_of(position, origin);
        match tile_index(place.0, width) {
            None => Err(GridError::CellOutOfBounds),
            Some(x) => {
                match tile_index(place.1, height) {
                    None => Err(GridError::CellOutOfBounds),
                    Some(y) => Ok((x, y)),
                }
            },
        }
    }

    /// The amount of `gas` in the whole grid: the amounts in the cells, added
    /// up from zero column by column and within a column from the bottom up.
    pub fn total_of(&self, gas: Gas) -> (sum: Q)
        requires
            total::<Q>(),
        ensures
            self.wf(),
            exact::<Q>() ==> sum == amount_sum(
                self@.cells,
                gas.ordinal() as int,
                self.spec_height() as nat,
                self.spec_width() as nat,
                0,
            ),
    {
        let width = self.width();
        let height = self.height();
        let mut sum: Q = from_count(0);
        let mut x: usize = 0;
        while x < width
            invariant
                x <= width,
                total::<Q>(),
                width == self.spec_width(),
                height == self.spec_height(),
                self.wf(),
                exact::<Q>() ==> sum == amount_sum(
                    self@.cells,
                    gas.ordinal() as int,
                    height as nat,
                    x as nat,
                    0,
                ),
            decreases width - x,
        {
            let mut y: usize = 0;
            while y < height
                invariant
                    x < width,
                    y <= height,
                    total::<Q>(),
                    width == self.spec_width(),
                    height == self.spec_height(),
                    self.wf(),
                    exact::<Q>() ==> sum == amount_sum(
                        self@.cells,
                        gas.ordinal() as int,
                        height as nat,
                        x as nat,
                        y as nat,
                    ),
                decreases height - y,
            {
                let cell = self.cells.get(x, y);
                sum = sum + cell.amount_of(gas);
                y += 1;
            }
            x += 1;
        }
        sum
    }

    /// The cell at `(x, y)`, or `CellOutOfBounds` when the grid has no such cell.
    pub fn cell(&self, x: usize, y: usize) -> (found: Result<GasMixture<Q>, GridError>)
        ensures
            self.wf(),
            found == (if self.contains(x as int, y as int) {
                Ok(self@.cells[x as int][y as int])
            } else {
                Err(GridError::CellOutOfBounds)
            }),
    {
        if x < self.width() && y < self.height() {
            Ok(self.cells.get(x, y))
        } else {
            Err(GridError::CellOutOfBounds)
        }
    }

    /// Whether the tile `(x, y)` is blocked, or `CellOutOfBounds` when the
    /// grid has no such tile.
    pub fn is_wall(&self, x: usize, y: usize) -> (found: Result<bool, GridError>)
        ensures
            self.wf(),
            found == (if self.contains(x as int, y as int) {
                Ok(self@.wall_mask[x as int][y as int])
            } else {
                Err(GridError::CellOutOfBounds)
            }),
    {
        if x < self.width() && y < self.height() {
            proof {
                use_type_invariant(self);
            }
            Ok(self.wall_mask.is_wall(x, y))
        } else {
            Err(GridError::CellOutOfBounds)
        }
    }

    /// Replaces the cell at `(x, y)`. Outside the grid nothing changes and
    /// `CellOutOfBounds` is returned.
    pub fn set_cell(&mut self, x: usize, y: usize, value: GasMixture<Q>) -> (done: Result<
        (),
        GridError,
    >)
        ensures
            final(self).spec_width() == old(self).spec_width(),
            final(self).spec_height() == old(self).spec_height(),
            final(self).spec_tile_size() == old(self).spec_tile_size(),
            old(self).wf(),
            final(self).wf(),
            final(self)@.wall_mask == old(self)@.wall_mask,
            match done {
                Ok(_) => old(self).contains(x as int, y as int) && final(self)@.cells == with_cell(
                    old(self)@.cells,
                    x as int,
                    y as int,
                    value,
                ),
                Err(error) => !old(self).contains(x as int, y as int) && error
                    == GridError::CellOutOfBounds && final(self)@ == old(self)@,
            },
    {
        if x < self.width() && y < self.height() {
            proof {
                use_type_invariant(&*self);
            }
            self.cells.set(x, y, value);
            let _ = self.width();
            Ok(())
        } else {
            Err(GridError::CellOutOfBounds)
        }
    }

    /// A copy of the cells as they are now.
    pub fn snapshot(&self) -> (copy: Lattice<GasMixture<Q>>)
        ensures
            copy@ == self@.cells,
            copy.spec_width() == self.spec_width(),
            copy.spec_height() == self.spec_height(),
            copy.wf(),
            self.wf(),
    {
        let _ = self.width();
        self.cells.snapshot()
    }

    /// Rebuilds the wall mask from a layout of walls. The new mask blocks a
    /// tile exactly when the layout holds a wall on it; nothing of the old
    /// mask is kept. A layout of another size is refused with `SizeMismatch`
    /// and the grid stays as it was.
    pub fn sync_walls<E: Copy>(&mut self, layout: &WallGrid<E>) -> (done: Result<(), GridError>)
        ensures
            final(self).spec_width() == old(self).spec_width(),
            final(self).spec_height() == old(self).spec_height(),
            final(self).spec_tile_size() == old(self).spec_tile_size(),
            old(self).wf(),
            final(self).wf(),
            final(self)@.cells == old(self)@.cells,
            match done {
                Ok(_) => old(self).fits(layout) && final(self)@.wall_mask == mask_of(layout@),
                Err(error) => {
                    &&& !old(self).fits(layout)
                    &&& error == GridError::SizeMismatch
                    &&& final(self)@ == old(self)@
                },
            },
    {
        if layout.width() == self.width() && layout.height() == self.height() {
            proof {
                use_type_invariant(&*self);
            }
            self.wall_mask = WallMask::sync(layout);
            let _ = self.width();
            Ok(())
        } else {
            Err(GridError::SizeMismatch)
        }
    }

    /// One step of the solver over the time `dt`. The cells are copied
    /// twice, into a record of the state before the step and into a working
    /// field. The working field is relaxed by `settings.temperature_passes`
    /// sweeps for the temperature at the rate dt * thermal rate * number of
    /// cells, then by `settings.molar_passes` sweeps for the amounts at the
    /// rate dt * molar rate, and is written back as the grid's cells. The
    /// mask is not touched.
    pub fn step(&mut self, settings: &SolverSettings<Q>, dt: Q)
        requires
            total::<Q>(),
        ensures
            final(self).spec_width() == old(self).spec_width(),
            final(self).spec_height() == old(self).spec_height(),
            final(self).spec_tile_size() == old(self).spec_tile_size(),
            old(self).wf(),
            final(self).wf(),
            final(self)@.wall_mask == old(self)@.wall_mask,
            exact::<Q>() ==> final(self)@.cells == stepped(
                *settings,
                dt,
                old(self)@.wall_mask,
                old(self).spec_width() as nat,
                old(self).spec_height() as nat,
                old(self)@.cells,
            ),
    {
        let _ = self.width();
        proof {
            use_type_invariant(&*self);
        }
        let cells: Q = from_wide_count(self.cell_count as u64);
        let thermal = dt * settings.thermal_rate * cells;
        let molar = dt * settings.molar_rate;
        let previous = self.cells.snapshot();
        let mut current = self.cells.snapshot();
        relax(
            Relaxation::Temperature,
            thermal,
            &previous,
            &mut current,
            &self.wall_mask,
            settings.temperature_passes,
        );
        relax(
            Relaxation::Amounts,
            molar,
            &previous,
            &mut current,
            &self.wall_mask,
            settings.molar_passes,
        );
        self.cells = current;
        let _ = self.width();
    }

    /// The clamp pass: brings every amount of every cell into the range from
    /// `low` to `high`. Temperatures and the mask are not touched.
    pub fn gas_clamp(&mut self, low: Q, high: Q)
        ensures
            final(self).spec_width() == old(self).spec_width(),
            final(self).spec_height() == old(self).spec_height(),
            final(self).spec_tile_size() == old(self).spec_tile_size(),
            old(self).wf(),
            final(self).wf(),
            final(self)@.wall_mask == old(self)@.wall_mask,
            forall|x: int, y: int|
                old(self).contains(x, y) ==> (#[trigger] final(self)@.cells[x][y]).temperature
                    == old(self)@.cells[x][y].temperature,
            ordered::<Q>() ==> final(self)@.cells == all_clamped(old(self)@.cells, low, high),
    {
        let width = self.width();
        let height = self.height();
        proof {
            use_type_invariant(&*self);
        }
        let mut cells = self.cells.snapshot();
        let mut x: usize = 0;
        while x < width
            invariant
                x <= width,
                width == self.spec_width(),
                height == self.spec_height(),
                self.wf(),
                cells.wf(),
                cells.spec_width() == width,
                cells.spec_height() == height,
                forall|i: int, j: int|
                    0 <= i < width && 0 <= j < height ==> (#[trigger] cells@[i][j]).temperature
                        == self@.cells[i][j].temperature,
                ordered::<Q>() ==> forall|i: int, j: int|
                    0 <= i < x && 0 <= j < height ==> #[trigger] cells@[i][j]
                        == self@.cells[i][j].clamped(low, high),
                forall|i: int, j: int|
                    x <= i < width && 0 <= j < height ==> #[trigger] cells@[i][j]
                        == self@.cells[i][j],
            decreases width - x,
        {
            let mut y: usize = 0;
            while y < height
                invariant
                    x < width,
                    y <= height,
                    width == self.spec_width(),
                    height == self.spec_height(),
                    self.wf(),
                    cells.wf(),
                    cells.spec_width() == width,
                    cells.spec_height() == height,
                    forall|i: int, j: int|
                        0 <= i < width && 0 <= j < height ==> (
                        #[trigger] cells@[i][j]).temperature == self@.cells[i][j].temperature,
                    ordered::<Q>() ==> forall|i: int, j: int|
                        0 <= i < x && 0 <= j < height ==> #[trigger] cells@[i][j]
                            == self@.cells[i][j].clamped(low, high),
                    ordered::<Q>() ==> forall|j: int|
                        0 <= j < y ==> #[trigger] cells@[x as int][j]
                            == self@.cells[x as int][j].clamped(low, high),
                    forall|j: int|
                        y <= j < height ==> #[trigger] cells@[x as int][j]
                            == self@.cells[x as int][j],
                    forall|i: int, j: int|
                        x < i < width && 0 <= j < height ==> #[trigger] cells@[i][j]
                            == self@.cells[i][j],
                decreases height - y,
            {
                let mut cell = cells.get(x, y);
                cell.gas_clamp(low, high);
                cells.set(x, y, cell);
                y += 1;
            }
            x += 1;
        }
        proof {
            if ordered::<Q>() {
                assert(cells@ =~~= all_clamped(self@.cells, low, high));
            }
        }
        self.cells = cells;
        let _ = self.width();
    }

    /// A breath of `to_breath` moles taken from the cell `(x, y)`; see
    /// [`GasMixture::breathe`]. Returns whether the breather suffocates.
    /// Outside the grid nothing changes and `CellOutOfBounds` is returned.
    pub fn breathe_at(&mut self, x: usize, y: usize, to_breath: Q) -> (outcome: Result<
        bool,
        GridError,
    >)
        requires
            total::<Q>(),
        ensures
            final(self).spec_width() == old(self).spec_width(),
            final(self).spec_height() == old(self).spec_height(),
            final(self).spec_tile_size() == old(self).spec_tile_size(),
            old(self).wf(),
            final(self).wf(),
            final(self)@.wall_mask == old(self)@.wall_mask,
            match outcome {
                Ok(suffocating) => old(self).contains(x as int, y as int) && final(self)@.cells
                    == with_cell(
                    old(self)@.cells,
                    x as int,
                    y as int,
                    final(self)@.cells[x as int][y as int],
                ) && (exact::<Q>() ==> {
                    let cell = old(self)@.cells[x as int][y as int];
                    &&& suffocating == cell.suffocates(to_breath)
                    &&& final(self)@.cells == with_cell(
                        old(self)@.cells,
                        x as int,
                        y as int,
                        cell.breathed(to_breath),
                    )
                }),
                Err(error) => !old(self).contains(x as int, y as int) && error
                    == GridError::CellOutOfBounds && final(self)@ == old(self)@,
            },
    {
        if x < self.width() && y < self.height() {
            let mut cell = self.cells.get(x, y);
            let suffocating = cell.breathe(to_breath);
            proof {
                use_type_invariant(&*self);
            }
            self.cells.set(x, y, cell);
            let _ = self.width();
            Ok(suffocating)
        } else {
            Err(GridError::CellOutOfBounds)
        }
    }

    /// Heats the cell `(x, y)` at `rate` for the time `dt`; see
    /// [`GasMixture::heat`]. Outside the grid nothing changes and
    /// `CellOutOfBounds` is returned.
    pub fn heat_at(&mut self, x: usize, y: usize, rate: Q, dt: Q) -> (done: Result<(), GridError>)
        requires
            total::<Q>(),
        ensures
            final(self).spec_width() == old(self).spec_width(),
            final(self).spec_height() == old(self).spec_height(),
            final(self).spec_tile_size() == old(self).spec_tile_size(),
            old(self).wf(),
            final(self).wf(),
            final(self)@.wall_mask == old(self)@.wall_mask,
            match done {
                Ok(_) => {
                    let before = old(self)@.cells[x as int][y as int];
                    let after = final(self)@.cells[x as int][y as int];
                    &&& old(self).contains(x as int, y as int)
                    &&& final(self)@.cells == with_cell(old(self)@.cells, x as int, y as int, after)
                    &&& after.amount == before.amount
                    &&& exact::<Q>() ==> after == before.heated(rate, dt)
                },
                Err(error) => !old(self).contains(x as int, y as int) && error
                    == GridError::CellOutOfBounds && final(self)@ == old(self)@,
            },
    {
        if x < self.width() && y < self.height() {
            let mut cell = self.cells.get(x, y);
            cell.heat(rate, dt);
            proof {
                use_type_invariant(&*self);
            }
            self.cells.set(x, y, cell);
            let _ = self.width();
            Ok(())
        } else {
            Err(GridError::CellOutOfBounds)
        }
    }

    /// Lets `breach` vent for the time `dt`, `elapsed` after it opened. A
    /// breach whose cell lies outside the grid is refused with
    /// `CellOutOfBounds`. While `elapsed` is less than the breach's
    /// duration, the cell loses gas as [`GasMixture::breach`] says and
    /// `true` is returned; after that nothing changes and `false` is
    /// returned.
    pub fn breach(&mut self, breach: &Breach<Q>, elapsed: Q, dt: Q, low: Q, high: Q) -> (outcome:
        Result<bool, GridError>)
        requires
            total::<Q>(),
        ensures
            final(self).spec_width() == old(self).spec_width(),
            final(self).spec_height() == old(self).spec_height(),
            final(self).spec_tile_size() == old(self).spec_tile_size(),
            old(self).wf(),
            final(self).wf(),
            final(self)@.wall_mask == old(self)@.wall_mask,
            match outcome {
                Ok(vented) => old(self).contains(breach.x as int, breach.y as int) && (!vented
                    ==> final(self)@ == old(self)@) && final(self)@.cells == with_cell(
                    old(self)@.cells,
                    breach.x as int,
                    breach.y as int,
                    final(self)@.cells[breach.x as int][breach.y as int],
                ) && (exact::<Q>() ==> {
                    let cell = old(self)@.cells[breach.x as int][breach.y as int];
                    &&& vented == less(elapsed, breach.duration)
                    &&& vented ==> final(self)@.cells == with_cell(
                        old(self)@.cells,
                        breach.x as int,
                        breach.y as int,
                        cell.vented(breach.gas, breach.rate, dt, low, high),
                    )
                }),
                Err(error) => !old(self).contains(breach.x as int, breach.y as int) && error
                    == GridError::CellOutOfBounds && final(self)@ == old(self)@,
            },
    {
        if breach.x < self.width() && breach.y < self.height() {
            if is_less(elapsed, breach.duration) {
                let mut cell = self.cells.get(breach.x, breach.y);
                cell.breach(breach.gas, breach.rate, dt, low, high);
                proof {
                    use_type_invariant(&*self);
                }
                self.cells.set(breach.x, breach.y, cell);
                let _ = self.width();
                Ok(true)
            } else {
                assert(self@.cells =~~= with_cell(
                    self@.cells,
                    breach.x as int,
                    breach.y as int,
                    self@.cells[breach.x as int][breach.y as int],
                ));
                Ok(false)
            }
        } else {
            Err(GridError::CellOutOfBounds)
        }
    }
}

/// A step of the solver leaves a cell without a passable tile next to it
/// exactly as it was: with no open side nothing flows in and nothing flows
/// out, whatever the other cells hold and however many sweeps are made. It
/// is asked of the cell that its temperature and its amounts rest at the
/// rates of the step.
pub proof fn lemma_step_keeps_isolated_cell<Q: Number>(
    settings: SolverSettings<Q>,
    dt: Q,
    mask: Seq<Seq<bool>>,
    width: nat,
    height: nat,
    before: Seq<Seq<GasMixture<Q>>>,
    x: int,
    y: int,
)
    requires
        rectangular(before, width, height),
        0 <= x < width,
        0 <= y < height,
        isolated(mask, x, y),
        cell_rests(
            Relaxation::Temperature,
            thermal_rate_of(settings, dt, (width * height) as u32),
            before[x][y],
        ),
        cell_rests(Relaxation::Amounts, molar_rate_of(settings, dt), before[x][y]),
    ensures
        stepped(settings, dt, mask, width, height, before)[x][y] == before[x][y],
{
    let thermal = thermal_rate_of(settings, dt, (width * height) as u32);
    let heated = relaxed(
        Relaxation::Temperature,
        thermal,
        before,
        mask,
        width,
        height,
        before,
        settings.temperature_passes as nat,
    );
    lemma_relaxation_keeps_isolated_cell(
        Relaxation::Temperature,
        thermal,
        before,
        mask,
        width,
        height,
        before,
        settings.temperature_passes as nat,
        x,
        y,
    );
    lemma_relaxation_keeps_isolated_cell(
        Relaxation::Amounts,
        molar_rate_of(settings, dt),
        before,
        mask,
        width,
        height,
        heated,
        settings.molar_passes as nat,
        x,
        y,
    );
}

/// What a blocked tile holds does not reach the cells around it: two steps
/// that differ in nothing but in what the blocked tile `(wall_x, wall_y)`
/// holds leave the same in every other cell.
pub proof fn lemma_step_ignores_wall<Q: Number>(
    settings: SolverSettings<Q>,
    dt: Q,
    mask: Seq<Seq<bool>>,
    width: nat,
    height: nat,
    before: Seq<Seq<GasMixture<Q>>>,
    other_before: Seq<Seq<GasMixture<Q>>>,
    wall_x: int,
    wall_y: int,
)
    requires
        rectangular(mask, width, height),
        0 <= wall_x < width,
        0 <= wall_y < height,
        mask[wall_x][wall_y],
        same_but_at(before, other_before, width, height, wall_x, wall_y),
    ensures
        same_but_at(
            stepped(settings, dt, mask, width, height, before),
            stepped(settings, dt, mask, width, height, other_before),
            width,
            height,
            wall_x,
            wall_y,
        ),
{
    let thermal = thermal_rate_of(settings, dt, (width * height) as u32);
    let molar = molar_rate_of(settings, dt);
    lemma_relaxation_ignores_wall(
        Relaxation::Temperature,
        thermal,
        mask,
        width,
        height,
        before,
        other_before,
        before,
        other_before,
        settings.temperature_passes as nat,
        wall_x,
        wall_y,
    );
    lemma_relaxation_ignores_wall(
        Relaxation::Amounts,
        molar,
        mask,
        width,
        height,
        before,
        other_before,
        relaxed(
            Relaxation::Temperature,
            thermal,
            before,
            mask,
            width,
            height,
            before,
            settings.temperature_passes as nat,
        ),
        relaxed(
            Relaxation::Temperature,
            thermal,
            other_before,
            mask,
            width,
            height,
            other_before,
            settings.temperature_passes as nat,
        ),
        settings.molar_passes as nat,
        wall_x,
        wall_y,
    );
}

/// After the clamp pass no amount in any cell is less than the lower bound
/// or greater than the upper one, and every temperature is as it was.
pub proof fn lemma_clamp_pass_stays_in_range<Q: Number>(
    cells: Seq<Seq<GasMixture<Q>>>,
    low: Q,
    high: Q,
    x: int,
    y: int,
    species: int,
)
    requires
        bounds(low, high),
        0 <= x < cells.len(),
        0 <= y < cells[x].len(),
        0 <= species < GAS_COUNT,
    ensures
        !less(all_clamped(cells, low, high)[x][y].amount[species], low),
        !greater(all_clamped(cells, low, high)[x][y].amount[species], high),
        all_clamped(cells, low, high)[x][y].temperature == cells[x][y].temperature,
{
    lemma_clamped_mixture_is_in_range(cells[x][y], low, high, species);
}

/// After the clamp pass every amount that could be compared with the bounds
/// lies in the range from the lower bound to the upper one.
pub proof fn lemma_clamp_pass_lies_in_range<Q: Number>(
    cells: Seq<Seq<GasMixture<Q>>>,
    low: Q,
    high: Q,
    x: int,
    y: int,
    species: int,
)
    requires
        ordered_bounds(low, high),
        0 <= x < cells.len(),
        0 <= y < cells[x].len(),
        0 <= species < GAS_COUNT,
        comparable(cells[x][y].amount[species], low),
        comparable(cells[x][y].amount[species], high),
    ensures
        at_least(all_clamped(cells, low, high)[x][y].amount[species], low),
        at_most(all_clamped(cells, low, high)[x][y].amount[species], high),
{
    lemma_clamped_mixture_lies_in_range(cells[x][y], low, high, species);
}

/// Two clamp passes in a row leave the cells as one pass does.
pub proof fn lemma_clamp_pass_is_idempotent<Q: Number>(
    cells: Seq<Seq<GasMixture<Q>>>,
    low: Q,
    high: Q,
)
    requires
        bounds(low, high),
    ensures
        all_clamped(all_clamped(cells, low, high), low, high) == all_clamped(cells, low, high),
{
    let once = all_clamped(cells, low, high);
    let twice = all_clamped(once, low, high);
    assert(twice =~~= once) by {
        assert forall|x: int| 0 <= x < cells.len() implies #[trigger] twice[x] =~= once[x] by {
            assert forall|y: int| 0 <= y < cells[x].len() implies twice[x][y] == once[x][y] by {
                lemma_clamped_mixture_stays(cells[x][y], low, high);
            }
        }
    }
}

} // verus!
