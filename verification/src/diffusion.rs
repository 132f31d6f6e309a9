//! The relaxation solver that spreads heat and gas over the cells.
//!
//! A step relaxes the temperatures and then the gas amounts. Each
//! relaxation sweeps over the cells a fixed number of times, column by
//! column and within a column from the bottom up. A cell is settled from its
//! own value at the start of the step and from the present values of the
//! neighbours that it is open to, so that a cell already sees the new values
//! of the cells settled before it. Nothing flows across a side that faces a
//! blocked tile or the edge of the grid.

use vstd::prelude::*;
use vstd::std_specs::ops::{AddSpec, DivSpec, MulSpec};
use crate::gas::{GasMixture, GAS_COUNT};
use crate::lattice::{rectangular, with_cell, Lattice};
use crate::mask::WallMask;
use crate::number::{count, exact, from_count, total, Number};

verus! {

/// What a cell has on each of its four sides. A side holds nothing when the
/// tile beyond it lies outside the grid or is blocked. `left` and `right`
/// are the tiles at x - 1 and x + 1, `below` and `above` the tiles at y - 1
/// and y + 1.
#[derive(Debug)]
pub struct Neighborhood<C> {
    pub left: Option<C>,
    pub right: Option<C>,
    pub below: Option<C>,
    pub above: Option<C>,
}

impl<C: Copy> Clone for Neighborhood<C> {
    fn clone(&self) -> (copy: Neighborhood<C>)
        ensures
            copy == *self,
    {
        Neighborhood { left: self.left, right: self.right, below: self.below, above: self.above }
    }
}

impl<C: Copy> Copy for Neighborhood<C> {

}

impl<C> Neighborhood<C> {
    /// Number of sides that hold something.
    pub open spec fn spec_open_count(&self) -> u16 {
        let left: int = if self.left is Some { 1 } else { 0 };
        let right: int = if self.right is Some { 1 } else { 0 };
        let below: int = if self.below is Some { 1 } else { 0 };
        let above: int = if self.above is Some { 1 } else { 0 };
        (left + right + below + above) as u16
    }

    /// Number of sides that hold something, from 0 to 4.
    #[verifier::when_used_as_spec(spec_open_count)]
    pub fn open_count(&self) -> (sides: u16)
        ensures
            sides == self.spec_open_count(),
            sides <= 4,
    {
        let mut sides: u16 = 0;
        if self.left.is_some() {
            sides += 1;
        }
        if self.right.is_some() {
            sides += 1;
        }
        if self.below.is_some() {
            sides += 1;
        }
        if self.above.is_some() {
            sides += 1;
        }
        sides
    }
}

/// Nothing on any side.
pub open spec fn nothing_around<C>() -> Neighborhood<C> {
    Neighborhood { left: None, right: None, below: None, above: None }
}

/// `(x, y)` is a tile of the mask and is not blocked.
pub open spec fn passable(mask: Seq<Seq<bool>>, x: int, y: int) -> bool {
    0 <= x < mask.len() && 0 <= y < mask[x].len() && !mask[x][y]
}

/// The tile `(x, y)` has no passable tile next to it.
pub open spec fn isolated(mask: Seq<Seq<bool>>, x: int, y: int) -> bool {
    &&& !passable(mask, x - 1, y)
    &&& !passable(mask, x + 1, y)
    &&& !passable(mask, x, y - 1)
    &&& !passable(mask, x, y + 1)
}

/// The value of `field` at `(x, y)` if that tile is passable, nothing otherwise.
pub open spec fn neighbour<C>(field: Seq<Seq<C>>, mask: Seq<Seq<bool>>, x: int, y: int) -> Option<
    C,
> {
    if passable(mask, x, y) {
        Some(field[x][y])
    } else {
        None
    }
}

/// The neighbours that the cell `(x, y)` of `field` is open to under `mask`.
pub open spec fn around<C>(field: Seq<Seq<C>>, mask: Seq<Seq<bool>>, x: int, y: int) -> Neighborhood<
    C,
> {
    Neighborhood {
        left: neighbour(field, mask, x - 1, y),
        right: neighbour(field, mask, x + 1, y),
        below: neighbour(field, mask, x, y - 1),
        above: neighbour(field, mask, x, y + 1),
    }
}

/// `after` has the shape of `before` and the relaxation `kind` could have
/// made it of `before`: a temperature relaxation has left every amount as it
/// was, and a relaxation of the amounts has left every temperature.
pub open spec fn spread_only<Q>(
    kind: Relaxation,
    before: Seq<Seq<GasMixture<Q>>>,
    after: Seq<Seq<GasMixture<Q>>>,
) -> bool {
    &&& after.len() == before.len()
    &&& forall|x: int| 0 <= x < before.len() ==> (#[trigger] after[x]).len() == before[x].len()
    &&& forall|x: int, y: int|
        0 <= x < before.len() && 0 <= y < before[x].len() ==> match kind {
            Relaxation::Temperature => (#[trigger] after[x][y]).amount == before[x][y].amount,
            Relaxation::Amounts => (#[trigger] after[x][y]).temperature
                == before[x][y].temperature,
        }
}

/// `sum` with one inflow added, if there is one.
pub open spec fn with_flow<Q: Number>(sum: Q, flow: Option<Q>) -> Q {
    match flow {
        Some(amount) => sum.add_spec(amount),
        None => sum,
    }
}

/// The new value of a cell quantity: the value at the start of the step plus
/// the inflows over the open sides, taken left, right, below, above, and the
/// whole divided by 1 + k * `weight`, where k is the number of open sides.
pub open spec fn settled<Q: Number>(previous: Q, flows: Neighborhood<Q>, weight: Q) -> Q {
    with_flow(
        with_flow(with_flow(with_flow(previous, flows.left), flows.right), flows.below),
        flows.above,
    ).div_spec(count::<Q>(1).add_spec(count::<Q>(flows.spec_open_count()).mul_spec(weight)))
}

/// The heat that flows in from a neighbour: `rate` times its temperature.
pub open spec fn heat_flow<Q: Number>(rate: Q, from: Option<GasMixture<Q>>) -> Option<Q> {
    match from {
        Some(cell) => Some(rate.mul_spec(cell.temperature)),
        None => None,
    }
}

/// The heat that flows in over each side.
pub open spec fn heat_flows<Q: Number>(rate: Q, near: Neighborhood<GasMixture<Q>>) -> Neighborhood<
    Q,
> {
    Neighborhood {
        left: heat_flow(rate, near.left),
        right: heat_flow(rate, near.right),
        below: heat_flow(rate, near.below),
        above: heat_flow(rate, near.above),
    }
}

/// The amount of the species with index `species` that flows in from a
/// neighbour: `rate` times its amount of that species times its temperature.
pub open spec fn gas_flow<Q: Number>(rate: Q, species: int, from: Option<GasMixture<Q>>) -> Option<
    Q,
> {
    match from {
        Some(cell) => Some(rate.mul_spec(cell.amount[species]).mul_spec(cell.temperature)),
        None => None,
    }
}

/// The amount of one species that flows in over each side.
pub open spec fn gas_flows<Q: Number>(
    rate: Q,
    species: int,
    near: Neighborhood<GasMixture<Q>>,
) -> Neighborhood<Q> {
    Neighborhood {
        left: gas_flow(rate, species, near.left),
        right: gas_flow(rate, species, near.right),
        below: gas_flow(rate, species, near.below),
        above: gas_flow(rate, species, near.above),
    }
}

/// The new amount of the species with index `species` in a cell: settled
/// from the amount at the start of the step and the inflows of that species,
/// with `rate` times the cell's present temperature as the weight.
pub open spec fn settled_amount<Q: Number>(
    rate: Q,
    species: int,
    previous: GasMixture<Q>,
    now: GasMixture<Q>,
    near: Neighborhood<GasMixture<Q>>,
) -> Q {
    settled(
        previous.amount[species],
        gas_flows(rate, species, near),
        rate.mul_spec(now.temperature),
    )
}

/// Which quantity a relaxation spreads.
#[derive(Clone, Copy, Debug, PartialEq, Eq, Structural)]
pub enum Relaxation {
    /// The temperature; the amounts are left alone.
    Temperature,
    /// The amount of every species; the temperature is left alone.
    Amounts,
}

/// What a cell becomes when it is settled. `previous` is the cell at the
/// start of the step, `now` the cell as it is, and `near` holds the
/// neighbours that the cell is open to, as they are now.
pub open spec fn settled_cell<Q: Number>(
    kind: Relaxation,
    rate: Q,
    previous: GasMixture<Q>,
    now: GasMixture<Q>,
    near: Neighborhood<GasMixture<Q>>,
) -> GasMixture<Q> {
    match kind {
        Relaxation::Temperature => GasMixture {
            amount: now.amount,
            temperature: settled(previous.temperature, heat_flows(rate, near), rate),
        },
        Relaxation::Amounts => GasMixture {
            amount: [
                settled_amount(rate, 0, previous, now, near),
                settled_amount(rate, 1, previous, now, near),
                settled_amount(rate, 2, previous, now, near),
                settled_amount(rate, 3, previous, now, near),
                settled_amount(rate, 4, previous, now, near),
                settled_amount(rate, 5, previous, now, near),
                settled_amount(rate, 6, previous, now, near),
            ],
            temperature: now.temperature,
        },
    }
}

/// What `start` has become when a sweep has come to `(x, y)`: every cell of
/// the columns left of `x`, from the bottom up, and the cells of column `x`
/// below `y` have been settled one after the other, each from the field as
/// the cells before it left it.
pub open spec fn swept<Q: Number>(
    kind: Relaxation,
    rate: Q,
    previous: Seq<Seq<GasMixture<Q>>>,
    mask: Seq<Seq<bool>>,
    height: nat,
    start: Seq<Seq<GasMixture<Q>>>,
    x: nat,
    y: nat,
) -> Seq<Seq<GasMixture<Q>>>
    decreases x, y,
{
    if y > 0 {
        let before = swept(kind, rate, previous, mask, height, start, x, (y - 1) as nat);
        with_cell(
            before,
            x as int,
            y - 1,
            settled_cell(
                kind,
                rate,
                previous[x as int][y - 1],
                before[x as int][y - 1],
                around(before, mask, x as int, y - 1),
            ),
        )
    } else if x > 0 {
        swept(kind, rate, previous, mask, height, start, (x - 1) as nat, height)
    } else {
        start
    }
}

/// What `start` has become after `passes` sweeps over all `width` by
/// `height` cells.
pub open spec fn relaxed<Q: Number>(
    kind: Relaxation,
    rate: Q,
    previous: Seq<Seq<GasMixture<Q>>>,
    mask: Seq<Seq<bool>>,
    width: nat,
    height: nat,
    start: Seq<Seq<GasMixture<Q>>>,
    passes: nat,
) -> Seq<Seq<GasMixture<Q>>>
    decreases passes,
{
    if passes == 0 {
        start
    } else {
        swept(
            kind,
            rate,
            previous,
            mask,
            height,
            relaxed(kind, rate, previous, mask, width, height, start, (passes - 1) as nat),
            width,
            0,
        )
    }
}

/// The neighbours that the cell `(x, y)` of `field` is open to.
pub fn gather<C: Copy>(field: &Lattice<C>, mask: &WallMask, x: usize, y: usize) -> (found:
    Neighborhood<C>)
    requires
        field.contains(x as int, y as int),
        mask.spec_width() == field.spec_width(),
        mask.spec_height() == field.spec_height(),
    ensures
        found == around(field@, mask@, x as int, y as int),
{
    let width = mask.width();
    let height = mask.height();
    let left = if x > 0 && !mask.is_wall(x - 1, y) {
        Some(field.get(x - 1, y))
    } else {
        None
    };
    let right = if x < width - 1 && !mask.is_wall(x + 1, y) {
        Some(field.get(x + 1, y))
    } else {
        None
    };
    let below = if y > 0 && !mask.is_wall(x, y - 1) {
        Some(field.get(x, y - 1))
    } else {
        None
    };
    let above = if y < height - 1 && !mask.is_wall(x, y + 1) {
        Some(field.get(x, y + 1))
    } else {
        None
    };
    Neighborhood { left, right, below, above }
}

/// `sum` with one inflow added, if there is one.
fn add_flow<Q: Number>(sum: Q, flow: Option<Q>) -> (result: Q)
    requires
        total::<Q>(),
    ensures
        exact::<Q>() ==> result == with_flow(sum, flow),
{
    match flow {
        Some(amount) => sum + amount,
        None => sum,
    }
}

/// The new value of a cell quantity: (`previous` + inflows) / (1 + k *
/// `weight`), where k is the number of sides with an inflow.
pub fn settle<Q: Number>(previous: Q, flows: &Neighborhood<Q>, weight: Q) -> (result: Q)
    requires
        total::<Q>(),
    ensures
        exact::<Q>() ==> result == settled(previous, *flows, weight),
{
    let sides = flows.open_count();
    let mut sum = previous;
    sum = add_flow(sum, flows.left);
    sum = add_flow(sum, flows.right);
    sum = add_flow(sum, flows.below);
    sum = add_flow(sum, flows.above);
    let one: Q = from_count(1);
    let open: Q = from_count(sides);
    sum / (one + open * weight)
}

/// The heat that flows in from a neighbour.
fn heat_from<Q: Number>(rate: Q, from: Option<GasMixture<Q>>) -> (flow: Option<Q>)
    requires
        total::<Q>(),
    ensures
        exact::<Q>() ==> flow == heat_flow(rate, from),
        flow is Some == from is Some,
{
    match from {
        Some(cell) => Some(rate * cell.temperature),
        None => None,
    }
}

/// The amount of one species that flows in from a neighbour.
fn gas_from<Q: Number>(rate: Q, species: usize, from: Option<GasMixture<Q>>) -> (flow: Option<Q>)
    requires
        total::<Q>(),
        species < GAS_COUNT,
    ensures
        exact::<Q>() ==> flow == gas_flow(rate, species as int, from),
        flow is Some == from is Some,
{
    match from {
        Some(cell) => Some(rate * cell.amount[species] * cell.temperature),
        None => None,
    }
}

/// The new amount of one species in a cell.
fn settle_amount<Q: Number>(
    rate: Q,
    species: usize,
    previous: &GasMixture<Q>,
    now: &GasMixture<Q>,
    near: &Neighborhood<GasMixture<Q>>,
) -> (result: Q)
    requires
        total::<Q>(),
        species < GAS_COUNT,
    ensures
        exact::<Q>() ==> result == settled_amount(rate, species as int, *previous, *now, *near),
{
    let flows = Neighborhood {
        left: gas_from(rate, species, near.left),
        right: gas_from(rate, species, near.right),
        below: gas_from(rate, species, near.below),
        above: gas_from(rate, species, near.above),
    };
    settle(previous.amount[species], &flows, rate * now.temperature)
}

/// Settles one cell. `previous` is the cell at the start of the step, `now`
/// the cell as it is, and `near` holds the neighbours that the cell is open
/// to, as they are now.
pub fn settle_cell<Q: Number>(
    kind: Relaxation,
    rate: Q,
    previous: &GasMixture<Q>,
    now: &GasMixture<Q>,
    near: &Neighborhood<GasMixture<Q>>,
) -> (result: GasMixture<Q>)
    requires
        total::<Q>(),
    ensures
        kind == Relaxation::Temperature ==> result.amount == now.amount,
        kind == Relaxation::Amounts ==> result.temperature == now.temperature,
        exact::<Q>() ==> result == settled_cell(kind, rate, *previous, *now, *near),
{
    match kind {
        Relaxation::Temperature => {
            let flows = Neighborhood {
                left: heat_from(rate, near.left),
                right: heat_from(rate, near.right),
                below: heat_from(rate, near.below),
                above: heat_from(rate, near.above),
            };
            GasMixture {
                amount: now.amount,
                temperature: settle(previous.temperature, &flows, rate),
            }
        },
        Relaxation::Amounts => {
            let result = GasMixture {
                amount: [
                    settle_amount(rate, 0, previous, now, near),
                    settle_amount(rate, 1, previous, now, near),
                    settle_amount(rate, 2, previous, now, near),
                    settle_amount(rate, 3, previous, now, near),
                    settle_amount(rate, 4, previous, now, near),
                    settle_amount(rate, 5, previous, now, near),
                    settle_amount(rate, 6, previous, now, near),
                ],
                temperature: now.temperature,
            };
            proof {
                if exact::<Q>() {
                    let wanted = settled_cell(kind, rate, *previous, *now, *near);
                    assert(result.amount@ =~= wanted.amount@);
                    assert(result.amount == wanted.amount);
                }
            }
            result
        },
    }
}

/// One sweep: settles every cell of `current` once, column by column and
/// within a column from the bottom up. `previous` holds the cells as they
/// were at the start of the step.
pub fn sweep<Q: Number>(
    kind: Relaxation,
    rate: Q,
    previous: &Lattice<GasMixture<Q>>,
    current: &mut Lattice<GasMixture<Q>>,
    mask: &WallMask,
)
    requires
        total::<Q>(),
        old(current).spec_width() == previous.spec_width(),
        old(current).spec_height() == previous.spec_height(),
        mask.spec_width() == previous.spec_width(),
        mask.spec_height() == previous.spec_height(),
    ensures
        final(current).spec_width() == old(current).spec_width(),
        final(current).spec_height() == old(current).spec_height(),
        final(current).wf(),
        spread_only(kind, old(current)@, final(current)@),
        exact::<Q>() ==> final(current)@ == swept(
            kind,
            rate,
            previous@,
            mask@,
            previous.spec_height() as nat,
            old(current)@,
            previous.spec_width() as nat,
            0,
        ),
{
    let width = previous.width();
    let height = previous.height();
    let ghost start = current@;
    let _ = current.width();
    let mut x: usize = 0;
    while x < width
        invariant
            x <= width,
            total::<Q>(),
            width == previous.spec_width(),
            height == previous.spec_height(),
            current.spec_width() == width,
            current.spec_height() == height,
            mask.spec_width() == width,
            mask.spec_height() == height,
            current.wf(),
            spread_only(kind, start, current@),
            exact::<Q>() ==> current@ == swept(
                kind,
                rate,
                previous@,
                mask@,
                height as nat,
                start,
                x as nat,
                0,
            ),
        decreases width - x,
    {
        let mut y: usize = 0;
        while y < height
            invariant
                x < width,
                y <= height,
                total::<Q>(),
                width == previous.spec_width(),
                height == previous.spec_height(),
                current.spec_width() == width,
                current.spec_height() == height,
                mask.spec_width() == width,
                mask.spec_height() == height,
                current.wf(),
                spread_only(kind, start, current@),
                exact::<Q>() ==> current@ == swept(
                    kind,
                    rate,
                    previous@,
                    mask@,
                    height as nat,
                    start,
                    x as nat,
                    y as nat,
                ),
            decreases height - y,
        {
            let near = gather(current, mask, x, y);
            let before = previous.get(x, y);
            let now = current.get(x, y);
            let value = settle_cell(kind, rate, &before, &now, &near);
            current.set(x, y, value);
            y += 1;
        }
        x += 1;
    }
}

/// Relaxes `current` by `passes` sweeps in a row.
pub fn relax<Q: Number>(
    kind: Relaxation,
    rate: Q,
    previous: &Lattice<GasMixture<Q>>,
    current: &mut Lattice<GasMixture<Q>>,
    mask: &WallMask,
    passes: u32,
)
    requires
        total::<Q>(),
        old(current).spec_width() == previous.spec_width(),
        old(current).spec_height() == previous.spec_height(),
        mask.spec_width() == previous.spec_width(),
        mask.spec_height() == previous.spec_height(),
    ensures
        final(current).spec_width() == old(current).spec_width(),
        final(current).spec_height() == old(current).spec_height(),
        final(current).wf(),
        spread_only(kind, old(current)@, final(current)@),
        exact::<Q>() ==> final(current)@ == relaxed(
            kind,
            rate,
            previous@,
            mask@,
            previous.spec_width() as nat,
            previous.spec_height() as nat,
            old(current)@,
            passes as nat,
        ),
{
    let ghost start = current@;
    let ghost width = previous.spec_width() as nat;
    let ghost height = previous.spec_height() as nat;
    let _ = current.width();
    let mut done: u32 = 0;
    while done < passes
        invariant
            done <= passes,
            total::<Q>(),
            width == previous.spec_width(),
            height == previous.spec_height(),
            current.spec_width() == previous.spec_width(),
            current.spec_height() == previous.spec_height(),
            mask.spec_width() == previous.spec_width(),
            mask.spec_height() == previous.spec_height(),
            current.wf(),
            spread_only(kind, start, current@),
            exact::<Q>() ==> current@ == relaxed(
                kind,
                rate,
                previous@,
                mask@,
                width,
                height,
                start,
                done as nat,
            ),
        decreases passes - done,
    {
        sweep(kind, rate, previous, current, mask);
        done += 1;
    }
}

/// A side of a cell holds the neighbour's present value when the tile beyond
/// it is passable, and nothing when that tile lies outside the grid or is
/// blocked: nothing crosses a closed side.
pub proof fn lemma_closed_side_gives_nothing<C>(
    field: Seq<Seq<C>>,
    mask: Seq<Seq<bool>>,
    x: int,
    y: int,
)
    ensures
        around(field, mask, x, y).left == (if passable(mask, x - 1, y) {
            Some(field[x - 1][y])
        } else {
            None
        }),
        around(field, mask, x, y).right == (if passable(mask, x + 1, y) {
            Some(field[x + 1][y])
        } else {
            None
        }),
        around(field, mask, x, y).below == (if passable(mask, x, y - 1) {
            Some(field[x][y - 1])
        } else {
            None
        }),
        around(field, mask, x, y).above == (if passable(mask, x, y + 1) {
            Some(field[x][y + 1])
        } else {
            None
        }),
{
}

/// A cell on the edge of the grid has nothing on the side that faces outward.
pub proof fn lemma_edge_is_closed<C>(
    field: Seq<Seq<C>>,
    mask: Seq<Seq<bool>>,
    width: nat,
    height: nat,
    x: int,
    y: int,
)
    requires
        rectangular(mask, width, height),
        0 <= x < width,
        0 <= y < height,
    ensures
        x == 0 ==> around(field, mask, x, y).left is None,
        x == width - 1 ==> around(field, mask, x, y).right is None,
        y == 0 ==> around(field, mask, x, y).below is None,
        y == height - 1 ==> around(field, mask, x, y).above is None,
{
}

/// The value of a blocked tile reaches no cell: whatever the blocked tile
/// `(wall_x, wall_y)` holds, every cell has the same neighbours.
pub proof fn lemma_wall_gives_nothing<C>(
    field: Seq<Seq<C>>,
    mask: Seq<Seq<bool>>,
    width: nat,
    height: nat,
    wall_x: int,
    wall_y: int,
    value: C,
    x: int,
    y: int,
)
    requires
        rectangular(field, width, height),
        rectangular(mask, width, height),
        0 <= wall_x < width,
        0 <= wall_y < height,
        mask[wall_x][wall_y],
    ensures
        around(with_cell(field, wall_x, wall_y, value), mask, x, y) == around(field, mask, x, y),
{
    let changed = with_cell(field, wall_x, wall_y, value);
    assert(neighbour(changed, mask, x - 1, y) == neighbour(field, mask, x - 1, y));
    assert(neighbour(changed, mask, x + 1, y) == neighbour(field, mask, x + 1, y));
    assert(neighbour(changed, mask, x, y - 1) == neighbour(field, mask, x, y - 1));
    assert(neighbour(changed, mask, x, y + 1) == neighbour(field, mask, x, y + 1));
}

/// A cell without a passable tile next to it is open to nothing, whatever
/// the field holds.
pub proof fn lemma_isolated_cell_sees_nothing<C>(
    field: Seq<Seq<C>>,
    mask: Seq<Seq<bool>>,
    x: int,
    y: int,
)
    requires
        isolated(mask, x, y),
    ensures
        around(field, mask, x, y) == nothing_around::<C>(),
        around(field, mask, x, y).spec_open_count() == 0,
{
}

/// A quantity of the value `value` rests under the weight `weight`: one plus
/// zero times the weight is one, and the value divided by one is itself.
pub open spec fn rests<Q: Number>(value: Q, weight: Q) -> bool {
    &&& count::<Q>(1).add_spec(count::<Q>(0).mul_spec(weight)) == count::<Q>(1)
    &&& value.div_spec(count::<Q>(1)) == value
}

/// The quantity that a relaxation of the kind `kind` at the rate `rate`
/// spreads rests in the cell `cell`: its temperature under the rate, or each
/// of its amounts under the rate times its temperature.
pub open spec fn cell_rests<Q: Number>(kind: Relaxation, rate: Q, cell: GasMixture<Q>) -> bool {
    match kind {
        Relaxation::Temperature => rests(cell.temperature, rate),
        Relaxation::Amounts => forall|species: int|
            0 <= species < GAS_COUNT ==> rests(
                #[trigger] cell.amount[species],
                rate.mul_spec(cell.temperature),
            ),
    }
}

/// With no open side a quantity that rests settles at the value that it had
/// at the start of the step.
pub proof fn lemma_lone_quantity_rests<Q: Number>(previous: Q, weight: Q)
    requires
        rests(previous, weight),
    ensures
        settled(previous, nothing_around::<Q>(), weight) == previous,
{
    assert(nothing_around::<Q>().spec_open_count() == 0);
}

/// A cell with no open side that is as it was at the start of the step
/// settles as it is, if the quantity that is spread rests in it.
pub proof fn lemma_lone_cell_rests<Q: Number>(kind: Relaxation, rate: Q, cell: GasMixture<Q>)
    requires
        cell_rests(kind, rate, cell),
    ensures
        settled_cell(kind, rate, cell, cell, nothing_around::<GasMixture<Q>>()) == cell,
{
    let nothing = nothing_around::<GasMixture<Q>>();
    let result = settled_cell(kind, rate, cell, cell, nothing);
    match kind {
        Relaxation::Temperature => {
            assert(heat_flows(rate, nothing) == nothing_around::<Q>());
            lemma_lone_quantity_rests(cell.temperature, rate);
        },
        Relaxation::Amounts => {
            assert forall|species: int| 0 <= species < GAS_COUNT implies settled_amount(
                rate,
                species,
                cell,
                cell,
                nothing,
            ) == cell.amount[species] by {
                assert(gas_flows(rate, species, nothing) == nothing_around::<Q>());
                assert(rests(cell.amount[species], rate.mul_spec(cell.temperature)));
                lemma_lone_quantity_rests(cell.amount[species], rate.mul_spec(cell.temperature));
            }
            assert(result.amount@ =~= cell.amount@);
            assert(result.amount == cell.amount);
        },
    }
}

/// A sweep keeps the shape of the field; the temperature relaxation leaves
/// every amount as it was, and the relaxation of the amounts leaves every
/// temperature as it was.
pub proof fn lemma_sweep_spreads_one_quantity<Q: Number>(
    kind: Relaxation,
    rate: Q,
    previous: Seq<Seq<GasMixture<Q>>>,
    mask: Seq<Seq<bool>>,
    width: nat,
    height: nat,
    start: Seq<Seq<GasMixture<Q>>>,
    swept_x: nat,
    swept_y: nat,
)
    requires
        rectangular(start, width, height),
        (swept_x < width && swept_y <= height) || (swept_x == width && swept_y == 0),
    ensures
        rectangular(
            swept(kind, rate, previous, mask, height, start, swept_x, swept_y),
            width,
            height,
        ),
        kind == Relaxation::Temperature ==> forall|x: int, y: int|
            0 <= x < width && 0 <= y < height ==> (#[trigger] swept(
                kind,
                rate,
                previous,
                mask,
                height,
                start,
                swept_x,
                swept_y,
            )[x][y]).amount == start[x][y].amount,
        kind == Relaxation::Amounts ==> forall|x: int, y: int|
            0 <= x < width && 0 <= y < height ==> (#[trigger] swept(
                kind,
                rate,
                previous,
                mask,
                height,
                start,
                swept_x,
                swept_y,
            )[x][y]).temperature == start[x][y].temperature,
    decreases swept_x, swept_y,
{
    let current = swept(kind, rate, previous, mask, height, start, swept_x, swept_y);
    if swept_y > 0 {
        let below = (swept_y - 1) as nat;
        let before = swept(kind, rate, previous, mask, height, start, swept_x, below);
        lemma_sweep_spreads_one_quantity(
            kind,
            rate,
            previous,
            mask,
            width,
            height,
            start,
            swept_x,
            (swept_y - 1) as nat,
        );
        assert forall|i: int| 0 <= i < width implies (#[trigger] current[i]).len() == height by {
            assert(before[i].len() == height);
        }
        assert forall|x: int, y: int| 0 <= x < width && 0 <= y < height implies (kind
            == Relaxation::Temperature ==> (#[trigger] current[x][y]).amount == start[x][y].amount)
            && (kind == Relaxation::Amounts ==> current[x][y].temperature
            == start[x][y].temperature) by {
            if !(x == swept_x && y == swept_y - 1) {
                assert(current[x][y] == before[x][y]);
            }
        }
    } else if swept_x > 0 {
        lemma_sweep_spreads_one_quantity(
            kind,
            rate,
            previous,
            mask,
            width,
            height,
            start,
            (swept_x - 1) as nat,
            height,
        );
    }
}

/// While a sweep is under way, a cell without a passable tile next to it
/// stays as it was at the start of the step, if it was so when the sweep
/// began and the quantity that is spread rests in it.
pub proof fn lemma_sweep_keeps_isolated_cell<Q: Number>(
    kind: Relaxation,
    rate: Q,
    previous: Seq<Seq<GasMixture<Q>>>,
    mask: Seq<Seq<bool>>,
    width: nat,
    height: nat,
    start: Seq<Seq<GasMixture<Q>>>,
    swept_x: nat,
    swept_y: nat,
    x: int,
    y: int,
)
    requires
        rectangular(start, width, height),
        (swept_x < width && swept_y <= height) || (swept_x == width && swept_y == 0),
        0 <= x < width,
        0 <= y < height,
        isolated(mask, x, y),
        cell_rests(kind, rate, previous[x][y]),
        start[x][y] == previous[x][y],
    ensures
        swept(kind, rate, previous, mask, height, start, swept_x, swept_y)[x][y] == previous[x][y],
    decreases swept_x, swept_y,
{
    if swept_y > 0 {
        let below = (swept_y - 1) as nat;
        let before = swept(kind, rate, previous, mask, height, start, swept_x, below);
        lemma_sweep_keeps_isolated_cell(
            kind,
            rate,
            previous,
            mask,
            width,
            height,
            start,
            swept_x,
            (swept_y - 1) as nat,
            x,
            y,
        );
        lemma_sweep_spreads_one_quantity(
            kind,
            rate,
            previous,
            mask,
            width,
            height,
            start,
            swept_x,
            (swept_y - 1) as nat,
        );
        if swept_x == x && swept_y - 1 == y {
            lemma_isolated_cell_sees_nothing(before, mask, x, y);
            lemma_lone_cell_rests(kind, rate, previous[x][y]);
        }
    } else if swept_x > 0 {
        lemma_sweep_keeps_isolated_cell(
            kind,
            rate,
            previous,
            mask,
            width,
            height,
            start,
            (swept_x - 1) as nat,
            height,
            x,
            y,
        );
    }
}

/// A relaxation keeps the shape of the field and leaves a cell without a
/// passable tile next to it as it was at the start of the step, if it was so
/// when the relaxation began and the quantity that is spread rests in it.
pub proof fn lemma_relaxation_keeps_isolated_cell<Q: Number>(
    kind: Relaxation,
    rate: Q,
    previous: Seq<Seq<GasMixture<Q>>>,
    mask: Seq<Seq<bool>>,
    width: nat,
    height: nat,
    start: Seq<Seq<GasMixture<Q>>>,
    passes: nat,
    x: int,
    y: int,
)
    requires
        rectangular(start, width, height),
        0 <= x < width,
        0 <= y < height,
        isolated(mask, x, y),
        cell_rests(kind, rate, previous[x][y]),
        start[x][y] == previous[x][y],
    ensures
        rectangular(
            relaxed(kind, rate, previous, mask, width, height, start, passes),
            width,
            height,
        ),
        relaxed(kind, rate, previous, mask, width, height, start, passes)[x][y] == previous[x][y],
    decreases passes,
{
    if passes > 0 {
        let before = relaxed(kind, rate, previous, mask, width, height, start, (passes - 1) as nat);
        lemma_relaxation_keeps_isolated_cell(
            kind,
            rate,
            previous,
            mask,
            width,
            height,
            start,
            (passes - 1) as nat,
            x,
            y,
        );
        lemma_sweep_spreads_one_quantity(
            kind,
            rate,
            previous,
            mask,
            width,
            height,
            before,
            width,
            0,
        );
        lemma_sweep_keeps_isolated_cell(
            kind,
            rate,
            previous,
            mask,
            width,
            height,
            before,
            width,
            0,
            x,
            y,
        );
    }
}

/// Two open cells that lie side by side exchange with each other: each
/// holds the other on the side that faces it.
pub proof fn lemma_open_cells_face_each_other<C>(
    field: Seq<Seq<C>>,
    mask: Seq<Seq<bool>>,
    x: int,
    y: int,
)
    requires
        passable(mask, x, y),
    ensures
        passable(mask, x + 1, y) ==> around(field, mask, x, y).right == Some(field[x + 1][y])
            && around(field, mask, x + 1, y).left == Some(field[x][y]),
        passable(mask, x, y + 1) ==> around(field, mask, x, y).above == Some(field[x][y + 1])
            && around(field, mask, x, y + 1).below == Some(field[x][y]),
{
}

/// Two fields of one shape hold the same in every cell but `(x, y)`.
pub open spec fn same_but_at<C>(
    one: Seq<Seq<C>>,
    other: Seq<Seq<C>>,
    width: nat,
    height: nat,
    x: int,
    y: int,
) -> bool {
    &&& rectangular(one, width, height)
    &&& rectangular(other, width, height)
    &&& forall|i: int, j: int|
        0 <= i < width && 0 <= j < height && !(i == x && j == y) ==> (#[trigger] one[i][j])
            == other[i][j]
}

/// What a blocked tile holds does not reach the cells around it while a
/// sweep is under way: two sweeps that differ in nothing but in what the
/// blocked tile `(wall_x, wall_y)` holds, now and at the start of the step,
/// leave the same in every other cell.
pub proof fn lemma_sweep_ignores_wall<Q: Number>(
    kind: Relaxation,
    rate: Q,
    mask: Seq<Seq<bool>>,
    width: nat,
    height: nat,
    previous: Seq<Seq<GasMixture<Q>>>,
    other_previous: Seq<Seq<GasMixture<Q>>>,
    start: Seq<Seq<GasMixture<Q>>>,
    other_start: Seq<Seq<GasMixture<Q>>>,
    swept_x: nat,
    swept_y: nat,
    wall_x: int,
    wall_y: int,
)
    requires
        rectangular(mask, width, height),
        0 <= wall_x < width,
        0 <= wall_y < height,
        mask[wall_x][wall_y],
        same_but_at(previous, other_previous, width, height, wall_x, wall_y),
        same_but_at(start, other_start, width, height, wall_x, wall_y),
        (swept_x < width && swept_y <= height) || (swept_x == width && swept_y == 0),
    ensures
        same_but_at(
            swept(kind, rate, previous, mask, height, start, swept_x, swept_y),
            swept(kind, rate, other_previous, mask, height, other_start, swept_x, swept_y),
            width,
            height,
            wall_x,
            wall_y,
        ),
    decreases swept_x, swept_y,
{
    let one = swept(kind, rate, previous, mask, height, start, swept_x, swept_y);
    let other = swept(kind, rate, other_previous, mask, height, other_start, swept_x, swept_y);
    if swept_y > 0 {
        let below = (swept_y - 1) as nat;
        let x = swept_x as int;
        let y = swept_y - 1;
        let one_before = swept(kind, rate, previous, mask, height, start, swept_x, below);
        let other_before = swept(
            kind,
            rate,
            other_previous,
            mask,
            height,
            other_start,
            swept_x,
            below,
        );
        lemma_sweep_ignores_wall(
            kind,
            rate,
            mask,
            width,
            height,
            previous,
            other_previous,
            start,
            other_start,
            swept_x,
            below,
            wall_x,
            wall_y,
        );
        assert forall|i: int| 0 <= i < width implies (#[trigger] one[i]).len() == height by {
            assert(one_before[i].len() == height);
        }
        assert forall|i: int| 0 <= i < width implies (#[trigger] other[i]).len() == height by {
            assert(other_before[i].len() == height);
        }
        if !(x == wall_x && y == wall_y) {
            assert(one_before[x][y] == other_before[x][y]);
            assert(previous[x][y] == other_previous[x][y]);
            assert(neighbour(one_before, mask, x - 1, y) == neighbour(
                other_before,
                mask,
                x - 1,
                y,
            )) by {
                if passable(mask, x - 1, y) {
                    assert(one_before[x - 1][y] == other_before[x - 1][y]);
                }
            }
            assert(neighbour(one_before, mask, x + 1, y) == neighbour(
                other_before,
                mask,
                x + 1,
                y,
            )) by {
                if passable(mask, x + 1, y) {
                    assert(one_before[x + 1][y] == other_before[x + 1][y]);
                }
            }
            assert(neighbour(one_before, mask, x, y - 1) == neighbour(
                other_before,
                mask,
                x,
                y - 1,
            )) by {
                if passable(mask, x, y - 1) {
                    assert(one_before[x][y - 1] == other_before[x][y - 1]);
                }
            }
            assert(neighbour(one_before, mask, x, y + 1) == neighbour(
                other_before,
                mask,
                x,
                y + 1,
            )) by {
                if passable(mask, x, y + 1) {
                    assert(one_before[x][y + 1] == other_before[x][y + 1]);
                }
            }
            assert(around(one_before, mask, x, y) == around(other_before, mask, x, y));
        }
        assert forall|i: int, j: int|
            0 <= i < width && 0 <= j < height && !(i == wall_x && j == wall_y) implies (
        #[trigger] one[i][j]) == other[i][j] by {
            if !(i == x && j == y) {
                assert(one[i][j] == one_before[i][j]);
                assert(other[i][j] == other_before[i][j]);
            }
        }
    } else if swept_x > 0 {
        lemma_sweep_ignores_wall(
            kind,
            rate,
            mask,
            width,
            height,
            previous,
            other_previous,
            start,
            other_start,
            (swept_x - 1) as nat,
            height,
            wall_x,
            wall_y,
        );
    }
}

/// What a blocked tile holds does not reach the cells around it in a whole
/// relaxation.
pub proof fn lemma_relaxation_ignores_wall<Q: Number>(
    kind: Relaxation,
    rate: Q,
    mask: Seq<Seq<bool>>,
    width: nat,
    height: nat,
    previous: Seq<Seq<GasMixture<Q>>>,
    other_previous: Seq<Seq<GasMixture<Q>>>,
    start: Seq<Seq<GasMixture<Q>>>,
    other_start: Seq<Seq<GasMixture<Q>>>,
    passes: nat,
    wall_x: int,
    wall_y: int,
)
    requires
        rectangular(mask, width, height),
        0 <= wall_x < width,
        0 <= wall_y < height,
        mask[wall_x][wall_y],
        same_but_at(previous, other_previous, width, height, wall_x, wall_y),
        same_but_at(start, other_start, width, height, wall_x, wall_y),
    ensures
        same_but_at(
            relaxed(kind, rate, previous, mask, width, height, start, passes),
            relaxed(kind, rate, other_previous, mask, width, height, other_start, passes),
            width,
            height,
            wall_x,
            wall_y,
        ),
    decreases passes,
{
    if passes > 0 {
        let fewer = (passes - 1) as nat;
        lemma_relaxation_ignores_wall(
            kind,
            rate,
            mask,
            width,
            height,
            previous,
            other_previous,
            start,
            other_start,
            fewer,
            wall_x,
            wall_y,
        );
        lemma_sweep_ignores_wall(
            kind,
            rate,
            mask,
            width,
            height,
            previous,
            other_previous,
            relaxed(kind, rate, previous, mask, width, height, start, fewer),
            relaxed(kind, rate, other_previous, mask, width, height, other_start, fewer),
            width,
            0,
            wall_x,
            wall_y,
        );
    }
}

} // verus!
