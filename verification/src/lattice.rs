//! A rectangular arrangement of values, addressed by tile coordinates.
//!
//! The station is laid out on a fixed rectangle of tiles. Everything that
//! lives "per tile" (gas cells, the wall mask, wall handles, sprite masks) is
//! stored in a [`Lattice`], whose first coordinate runs along the x axis and
//! whose second runs along the y axis.

use vstd::prelude::*;

verus! {

/// `cells` has `width` columns of `height` values each.
pub open spec fn rectangular<T>(cells: Seq<Seq<T>>, width: nat, height: nat) -> bool {
    &&& cells.len() == width
    &&& forall|i: int| 0 <= i < width ==> (#[trigger] cells[i]).len() == height
}

/// `cells` with the value at `(i, j)` replaced by `value`.
pub open spec fn with_cell<T>(cells: Seq<Seq<T>>, i: int, j: int, value: T) -> Seq<Seq<T>> {
    cells.update(i, cells[i].update(j, value))
}

/// A `width` by `height` rectangle of values.
///
/// The view is the sequence of columns: `lattice@[i][j]` is the value at
/// x = `i`, y = `j`. The view has `spec_width()` columns of `spec_height()`
/// values each; a lattice without a column still has its height, which only
/// `spec_height()` tells.
pub struct Lattice<T> {
    width: usize,
    height: usize,
    columns: Vec<Vec<T>>,
}

impl<T> View for Lattice<T> {
    type V = Seq<Seq<T>>;

    closed spec fn view(&self) -> Seq<Seq<T>> {
        Seq::new(self.columns.len() as nat, |i: int| self.columns[i]@)
    }
}

/// Overwrites one value of a column store and leaves every other value as it was.
fn store<T>(columns: &mut Vec<Vec<T>>, i: usize, j: usize, value: T)
    requires
        i < old(columns).len(),
        j < old(columns)[i as int].len(),
    ensures
        final(columns).len() == old(columns).len(),
        final(columns)[i as int]@ == old(columns)[i as int]@.update(j as int, value),
        forall|k: int|
            0 <= k < old(columns).len() && k != i ==> final(columns)[k] == old(columns)[k],
    no_unwind
{
    columns[i][j] = value;
}

impl<T> Lattice<T> {
    #[verifier::type_invariant]
    spec fn shaped(&self) -> bool {
        &&& self.columns.len() == self.width
        &&& forall|i: int| 0 <= i < self.width ==> (#[trigger] self.columns[i]).len() == self.height
    }

    /// Number of columns.
    pub closed spec fn spec_width(&self) -> usize {
        self.width
    }

    /// Number of values in each column.
    pub closed spec fn spec_height(&self) -> usize {
        self.height
    }

    /// The view is a rectangle of the lattice's own width and height. Every
    /// lattice built by this module satisfies it.
    pub open spec fn wf(&self) -> bool {
        rectangular(self@, self.spec_width() as nat, self.spec_height() as nat)
    }

    /// `(i, j)` addresses a value of the lattice.
    pub open spec fn contains(&self, i: int, j: int) -> bool {
        0 <= i < self.spec_width() && 0 <= j < self.spec_height()
    }

    /// Number of columns.
    #[verifier::when_used_as_spec(spec_width)]
    pub fn width(&self) -> (w: usize)
        ensures
            w == self.spec_width(),
            self.wf(),
        no_unwind
    {
        proof {
            use_type_invariant(self);
            assert(self@.len() == self.width);
            assert forall|i: int| 0 <= i < self.width implies (#[trigger] self@[i]).len()
                == self.height by {
                assert(self.columns[i].len() == self.height);
            }
        }
        self.width
    }

    /// Number of values in each column.
    #[verifier::when_used_as_spec(spec_height)]
    pub fn height(&self) -> (h: usize)
        ensures
            h == self.spec_height(),
            self.wf(),
        no_unwind
    {
        let _ = self.width();
        self.height
    }

    /// Whether the signed coordinates `(x, y)` address a value of the lattice.
    pub fn in_bounds(&self, x: i64, y: i64) -> (inside: bool)
        ensures
            inside == self.contains(x as int, y as int),
            self.wf(),
    {
        let _ = self.width();
        x >= 0 && y >= 0 && (x as u64) < (self.width as u64) && (y as u64) < (self.height as u64)
    }
}

impl<T: Copy> Lattice<T> {
    /// A lattice of the given size with `fill` everywhere.
    pub fn new(width: usize, height: usize, fill: T) -> (lattice: Lattice<T>)
        ensures
            lattice.spec_width() == width,
            lattice.spec_height() == height,
            lattice.wf(),
            forall|i: int, j: int| lattice.contains(i, j) ==> #[trigger] lattice@[i][j] == fill,
    {
        let mut columns: Vec<Vec<T>> = Vec::new();
        let mut i: usize = 0;
        while i < width
            invariant
                i <= width,
                columns.len() == i,
                forall|k: int| 0 <= k < i ==> (#[trigger] columns[k]).len() == height,
                forall|k: int, j: int| 0 <= k < i && 0 <= j < height ==> columns[k][j] == fill,
            decreases width - i,
        {
            let mut column: Vec<T> = Vec::new();
            let mut j: usize = 0;
            while j < height
                invariant
                    j <= height,
                    column.len() == j,
                    forall|k: int| 0 <= k < j ==> column[k] == fill,
                decreases height - j,
            {
                column.push(fill);
                j += 1;
            }
            columns.push(column);
            i += 1;
        }
        let lattice = Lattice { width, height, columns };
        assert(lattice@.len() == width);
        assert forall|k: int| 0 <= k < width implies (#[trigger] lattice@[k]).len() == height by {
            assert(lattice.columns[k].len() == height);
        }
        lattice
    }

    /// The value at `(i, j)`.
    pub fn get(&self, i: usize, j: usize) -> (value: T)
        requires
            self.contains(i as int, j as int),
        ensures
            value == self@[i as int][j as int],
            self.wf(),
    {
        let _ = self.width();
        proof {
            use_type_invariant(self);
        }
        self.columns[i][j]
    }

    /// Replaces the value at `(i, j)`; every other value stays.
    pub fn set(&mut self, i: usize, j: usize, value: T)
        requires
            old(self).contains(i as int, j as int),
        ensures
            final(self).spec_width() == old(self).spec_width(),
            final(self).spec_height() == old(self).spec_height(),
            old(self).wf(),
            final(self).wf(),
            final(self)@ == with_cell(old(self)@, i as int, j as int, value),
        no_unwind
    {
        proof {
            use_type_invariant(&*self);
        }
        store(&mut self.columns, i, j, value);
        assert(self@ =~= with_cell(old(self)@, i as int, j as int, value));
        let _ = self.width();
    }

    /// An independent copy with the same values.
    pub fn snapshot(&self) -> (copy: Lattice<T>)
        ensures
            copy@ == self@,
            copy.spec_width() == self.spec_width(),
            copy.spec_height() == self.spec_height(),
            copy.wf(),
    {
        let width = self.width();
        let height = self.height();
        proof {
            use_type_invariant(self);
        }
        let mut columns: Vec<Vec<T>> = Vec::new();
        let mut i: usize = 0;
        while i < width
            invariant
                i <= width,
                width == self.columns.len(),
                columns.len() == i,
                forall|k: int| 0 <= k < width ==> (#[trigger] self.columns[k]).len() == height,
                forall|k: int| 0 <= k < i ==> (#[trigger] columns[k])@ == self.columns[k]@,
            decreases width - i,
        {
            let mut column: Vec<T> = Vec::new();
            let mut j: usize = 0;
            while j < height
                invariant
                    i < width,
                    width == self.columns.len(),
                    self.columns[i as int].len() == height,
                    j <= height,
                    column.len() == j,
                    forall|k: int| 0 <= k < j ==> column[k] == self.columns[i as int][k],
                decreases height - j,
            {
                column.push(self.columns[i][j]);
                j += 1;
            }
            assert(column@ =~= self.columns[i as int]@);
            columns.push(column);
            i += 1;
        }
        let copy = Lattice { width, height, columns };
        assert(copy@ =~= self@);
        let _ = copy.width();
        copy
    }
}

} // verus!
