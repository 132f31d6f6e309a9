//! The structural layout of the station: which tiles hold a wall, and how a
//! wall is drawn so that it joins its neighbours.

use vstd::prelude::*;
use crate::lattice::{with_cell, Lattice};

verus! {

/// How many neighbouring walls a wall joins, and in what arrangement.
#[derive(Clone, Copy, Debug, PartialEq, Eq, Hash, Structural)]
pub enum WallConnection {
    /// No neighbouring wall.
    Isolated,
    /// One neighbouring wall.
    One,
    /// Two neighbouring walls on adjacent sides.
    Corner,
    /// Two neighbouring walls on opposite sides.
    Cross,
    /// Three neighbouring walls.
    T,
    /// Four neighbouring walls.
    All,
}

impl Default for WallConnection {
    fn default() -> (connection: WallConnection)
        ensures
            connection == WallConnection::Isolated,
    {
        WallConnection::Isolated
    }
}

/// On which sides a wall has a neighbouring wall. `left` and `right` are the
/// tiles at x - 1 and x + 1, `down` and `up` the tiles at y - 1 and y + 1.
#[derive(Clone, Copy, Debug, PartialEq, Eq, Structural)]
pub struct WallLinks {
    pub left: bool,
    pub right: bool,
    pub up: bool,
    pub down: bool,
}

/// The sprite of a wall and the angle, in degrees counter-clockwise, by which
/// it is turned.
#[derive(Clone, Copy, Debug, PartialEq, Eq, Structural)]
pub struct WallAppearance {
    pub connection: WallConnection,
    pub rotation_degrees: i16,
}

/// The sides that the sprite of `connection` joins when it is not turned.
pub open spec fn upright(connection: WallConnection) -> WallLinks {
    match connection {
        WallConnection::Isolated => WallLinks { left: false, right: false, up: false, down: false },
        WallConnection::One => WallLinks { left: false, right: true, up: false, down: false },
        WallConnection::Corner => WallLinks { left: false, right: true, up: false, down: true },
        WallConnection::Cross => WallLinks { left: true, right: true, up: false, down: false },
        WallConnection::T => WallLinks { left: true, right: true, up: false, down: true },
        WallConnection::All => WallLinks { left: true, right: true, up: true, down: true },
    }
}

/// `links` after one quarter turn counter-clockwise: what pointed right now
/// points up, up now points left, left now points down, down now points right.
pub open spec fn quarter_turn(links: WallLinks) -> WallLinks {
    WallLinks { left: links.up, right: links.down, up: links.right, down: links.left }
}

/// `links` after `quarters` quarter turns counter-clockwise.
pub open spec fn turned(links: WallLinks, quarters: nat) -> WallLinks
    decreases quarters,
{
    if quarters == 0 {
        links
    } else {
        quarter_turn(turned(links, (quarters - 1) as nat))
    }
}

/// The sprite of `connection`, turned by `quarters` quarter turns, joins
/// exactly the sides in `links`.
pub open spec fn fits(connection: WallConnection, quarters: nat, links: WallLinks) -> bool {
    turned(upright(connection), quarters) == links
}

impl WallLinks {
    /// Number of sides with a neighbouring wall.
    pub open spec fn count(self) -> nat {
        (if self.left { 1nat } else { 0nat }) + (if self.right { 1nat } else { 0nat })
            + (if self.up { 1nat } else { 0nat }) + (if self.down { 1nat } else { 0nat })
    }

    /// The connection is fixed by the number of linked sides; two linked
    /// sides make a `Cross` when they face each other and a `Corner` otherwise.
    pub open spec fn connection(self) -> WallConnection {
        if self.count() == 0 {
            WallConnection::Isolated
        } else if self.count() == 1 {
            WallConnection::One
        } else if self.count() == 2 {
            if (self.left && self.right) || (self.up && self.down) {
                WallConnection::Cross
            } else {
                WallConnection::Corner
            }
        } else if self.count() == 3 {
            WallConnection::T
        } else {
            WallConnection::All
        }
    }

    /// The first of 0, 90, 180 and -90 degrees at which the sprite of
    /// `self.connection()` joins exactly the linked sides.
    pub open spec fn rotation_degrees(self) -> int {
        if fits(self.connection(), 0, self) {
            0
        } else if fits(self.connection(), 1, self) {
            90
        } else if fits(self.connection(), 2, self) {
            180
        } else {
            -90
        }
    }

    /// The sprite and rotation with which a wall with these links is drawn.
    pub fn appearance(self) -> (look: WallAppearance)
        ensures
            look.connection == self.connection(),
            look.rotation_degrees == self.rotation_degrees(),
    {
        proof {
            reveal_with_fuel(turned, 4);
        }
        let (connection, rotation_degrees): (WallConnection, i16) = match (
            self.left,
            self.right,
            self.up,
            self.down,
        ) {
            (false, false, false, false) => (WallConnection::Isolated, 0),
            (false, false, false, true) => (WallConnection::One, -90),
            (false, false, true, false) => (WallConnection::One, 90),
            (false, false, true, true) => (WallConnection::Cross, 90),
            (false, true, false, false) => (WallConnection::One, 0),
            (false, true, false, true) => (WallConnection::Corner, 0),
            (false, true, true, false) => (WallConnection::Corner, 90),
            (false, true, true, true) => (WallConnection::T, 90),
            (true, false, false, false) => (WallConnection::One, 180),
            (true, false, false, true) => (WallConnection::Corner, -90),
            (true, false, true, false) => (WallConnection::Corner, 180),
            (true, false, true, true) => (WallConnection::T, -90),
            (true, true, false, false) => (WallConnection::Cross, 0),
            (true, true, false, true) => (WallConnection::T, 0),
            (true, true, true, false) => (WallConnection::T, 180),
            (true, true, true, true) => (WallConnection::All, 0),
        };
        WallAppearance { connection, rotation_degrees }
    }
}

/// The number of quarter turns that an angle of 0, 90, 180 or -90 degrees stands for.
pub open spec fn quarters_of(degrees: int) -> nat {
    if degrees == 90 {
        1
    } else if degrees == 180 {
        2
    } else if degrees == -90 {
        3
    } else {
        0
    }
}

/// Whatever the links of a wall, the sprite chosen for it, turned by the
/// chosen angle, joins exactly the linked sides and no other.
pub proof fn lemma_appearance_fits(links: WallLinks)
    ensures
        fits(links.connection(), quarters_of(links.rotation_degrees()), links),
{
    reveal_with_fuel(turned, 4);
}

/// The walls of the station. A tile either holds a wall, known by the handle
/// `E` under which the caller keeps it, or is free.
///
/// The view is the sequence of columns: `grid@[x][y]` is the wall at `(x, y)`.
pub struct WallGrid<E> {
    walls: Lattice<Option<E>>,
}

impl<E> View for WallGrid<E> {
    type V = Seq<Seq<Option<E>>>;

    closed spec fn view(&self) -> Seq<Seq<Option<E>>> {
        self.walls@
    }
}

/// The walls on the tiles that come before `(x, y)`, column by column and
/// within a column from the bottom up.
pub open spec fn walls_before<E>(walls: Seq<Seq<Option<E>>>, height: nat, x: nat, y: nat) -> Seq<E>
    decreases x, y,
{
    if y > 0 {
        let before = walls_before(walls, height, x, (y - 1) as nat);
        match walls[x as int][y - 1] {
            Some(wall) => before.push(wall),
            None => before,
        }
    } else if x > 0 {
        walls_before(walls, height, (x - 1) as nat, height)
    } else {
        Seq::empty()
    }
}

/// The links of the tile `(x, y)` in a layout of walls: a side is linked when
/// the tile beyond it lies in the layout and holds a wall.
pub open spec fn links_at<E>(walls: Seq<Seq<Option<E>>>, x: int, y: int) -> WallLinks {
    WallLinks {
        left: x > 0 && walls[x - 1][y] is Some,
        right: x + 1 < walls.len() && walls[x + 1][y] is Some,
        down: y > 0 && walls[x][y - 1] is Some,
        up: y + 1 < walls[x].len() && walls[x][y + 1] is Some,
    }
}

/// How a wall on the tile `(x, y)` is drawn so that it joins the walls
/// around it.
pub open spec fn look_at<E>(walls: Seq<Seq<Option<E>>>, x: int, y: int) -> WallAppearance {
    WallAppearance {
        connection: links_at(walls, x, y).connection(),
        rotation_degrees: links_at(walls, x, y).rotation_degrees() as i16,
    }
}

/// The walls on the tiles that come before `(x, y)`, each with how it is
/// drawn, column by column and within a column from the bottom up.
pub open spec fn looks_before<E>(walls: Seq<Seq<Option<E>>>, height: nat, x: nat, y: nat) -> Seq<
    (E, WallAppearance),
>
    decreases x, y,
{
    if y > 0 {
        let before = looks_before(walls, height, x, (y - 1) as nat);
        match walls[x as int][y - 1] {
            Some(wall) => before.push((wall, look_at(walls, x as int, y - 1))),
            None => before,
        }
    } else if x > 0 {
        looks_before(walls, height, (x - 1) as nat, height)
    } else {
        Seq::empty()
    }
}

impl<E> WallGrid<E> {
    /// Number of tiles along x.
    pub closed spec fn spec_width(&self) -> usize {
        self.walls.spec_width()
    }

    /// Number of tiles along y.
    pub closed spec fn spec_height(&self) -> usize {
        self.walls.spec_height()
    }

    /// The view is a rectangle of the grid's own width and height.
    pub open spec fn wf(&self) -> bool {
        crate::lattice::rectangular(self@, self.spec_width() as nat, self.spec_height() as nat)
    }

    /// `(x, y)` is a tile of the grid.
    pub open spec fn contains(&self, x: int, y: int) -> bool {
        0 <= x < self.spec_width() && 0 <= y < self.spec_height()
    }

    /// Number of tiles along x.
    #[verifier::when_used_as_spec(spec_width)]
    pub fn width(&self) -> (w: usize)
        ensures
            w == self.spec_width(),
            self.wf(),
    {
        self.walls.width()
    }

    /// Number of tiles along y.
    #[verifier::when_used_as_spec(spec_height)]
    pub fn height(&self) -> (h: usize)
        ensures
            h == self.spec_height(),
            self.wf(),
    {
        self.walls.height()
    }
}

impl<E: Copy> WallGrid<E> {
    /// A layout of the given size without any wall.
    pub fn new(width: usize, height: usize) -> (grid: WallGrid<E>)
        ensures
            grid.spec_width() == width,
            grid.spec_height() == height,
            grid.wf(),
            forall|x: int, y: int| grid.contains(x, y) ==> #[trigger] grid@[x][y] is None,
    {
        WallGrid { walls: Lattice::new(width, height, None) }
    }

    /// The wall at `(x, y)`, if the tile holds one.
    pub fn wall_at(&self, x: usize, y: usize) -> (wall: Option<E>)
        requires
            self.contains(x as int, y as int),
        ensures
            wall == self@[x as int][y as int],
            self.wf(),
    {
        self.walls.get(x, y)
    }

    /// Puts the wall `wall` on the tile `(x, y)` if the tile is free, and
    /// returns it; on a tile that holds a wall already nothing changes and
    /// nothing is returned.
    pub fn create_wall(&mut self, x: usize, y: usize, wall: E) -> (created: Option<E>)
        requires
            old(self).contains(x as int, y as int),
        ensures
            final(self).spec_width() == old(self).spec_width(),
            final(self).spec_height() == old(self).spec_height(),
            old(self).wf(),
            final(self).wf(),
            match created {
                Some(made) => {
                    &&& old(self)@[x as int][y as int] is None
                    &&& made == wall
                    &&& final(self)@ == with_cell(old(self)@, x as int, y as int, Some(wall))
                },
                None => old(self)@[x as int][y as int] is Some && final(self)@ == old(self)@,
            },
    {
        match self.walls.get(x, y) {
            Some(_) => None,
            None => {
                self.walls.set(x, y, Some(wall));
                Some(wall)
            },
        }
    }

    /// Frees the tile `(x, y)` and returns the wall that stood there, if any.
    pub fn remove_wall(&mut self, x: usize, y: usize) -> (removed: Option<E>)
        requires
            old(self).contains(x as int, y as int),
        ensures
            final(self).spec_width() == old(self).spec_width(),
            final(self).spec_height() == old(self).spec_height(),
            old(self).wf(),
            final(self).wf(),
            removed == old(self)@[x as int][y as int],
            final(self)@ == with_cell(old(self)@, x as int, y as int, None),
    {
        let removed = self.walls.get(x, y);
        self.walls.set(x, y, None);
        removed
    }

    /// Every wall of the layout, column by column and within a column from
    /// the bottom up.
    pub fn handles(&self) -> (all: Vec<E>)
        ensures
            self.wf(),
            all@ == walls_before(self@, self.spec_height() as nat, self.spec_width() as nat, 0),
    {
        let width = self.walls.width();
        let height = self.walls.height();
        let mut all: Vec<E> = Vec::new();
        let mut x: usize = 0;
        while x < width
            invariant
                x <= width,
                width == self.spec_width(),
                height == self.spec_height(),
                self.wf(),
                all@ == walls_before(self@, height as nat, x as nat, 0),
            decreases width - x,
        {
            let mut y: usize = 0;
            while y < height
                invariant
                    x < width,
                    y <= height,
                    width == self.spec_width(),
                    height == self.spec_height(),
                    self.wf(),
                    all@ == walls_before(self@, height as nat, x as nat, y as nat),
                decreases height - y,
            {
                match self.walls.get(x, y) {
                    Some(wall) => {
                        all.push(wall);
                    },
                    None => {},
                }
                y += 1;
            }
            x += 1;
        }
        all
    }

    /// What the mouse does to the tile `(x, y)` under it. With the left
    /// button down a free tile gets a wall, whose handle `spawn` makes; then,
    /// with the right button down, the tile is freed. Returns the wall that
    /// was built and the wall that was taken away, if any.
    pub fn mouse_create_wall<F: Fn(usize, usize) -> E>(
        &mut self,
        x: usize,
        y: usize,
        left: bool,
        right: bool,
        spawn: &F,
    ) -> (done: (Option<E>, Option<E>))
        requires
            old(self).contains(x as int, y as int),
            forall|i: usize, j: usize| spawn.requires((i, j)),
        ensures
            final(self).spec_width() == old(self).spec_width(),
            final(self).spec_height() == old(self).spec_height(),
            old(self).wf(),
            final(self).wf(),
            done.0 is Some <==> left && old(self)@[x as int][y as int] is None,
            done.0 matches Some(built) ==> spawn.ensures((x, y), built),
            done.1 == (if !right {
                None
            } else if done.0 is Some {
                done.0
            } else {
                old(self)@[x as int][y as int]
            }),
            final(self)@ == with_cell(
                old(self)@,
                x as int,
                y as int,
                if right {
                    None
                } else if done.0 is Some {
                    done.0
                } else {
                    old(self)@[x as int][y as int]
                },
            ),
    {
        let _ = self.width();
        let mut built: Option<E> = None;
        if left {
            match self.wall_at(x, y) {
                Some(_) => {},
                None => {
                    let wall = spawn(x, y);
                    built = self.create_wall(x, y, wall);
                },
            }
        }
        let mut removed: Option<E> = None;
        if right {
            removed = self.remove_wall(x, y);
        }
        assert(self@ =~~= with_cell(
            old(self)@,
            x as int,
            y as int,
            if right {
                None
            } else if built is Some {
                built
            } else {
                old(self)@[x as int][y as int]
            },
        ));
        (built, removed)
    }

    /// On which sides the tile `(x, y)` has a neighbouring wall.
    pub fn links(&self, x: usize, y: usize) -> (links: WallLinks)
        requires
            self.contains(x as int, y as int),
        ensures
            links == links_at(self@, x as int, y as int),
            self.wf(),
    {
        let width = self.walls.width();
        let height = self.walls.height();
        let left = x > 0 && self.walls.get(x - 1, y).is_some();
        let right = x < width - 1 && self.walls.get(x + 1, y).is_some();
        let down = y > 0 && self.walls.get(x, y - 1).is_some();
        let up = y < height - 1 && self.walls.get(x, y + 1).is_some();
        WallLinks { left, right, up, down }
    }

    /// How the wall on `(x, y)` is drawn so that it joins the walls around
    /// it; nothing for a free tile.
    pub fn wall_update(&self, x: usize, y: usize) -> (look: Option<WallAppearance>)
        requires
            self.contains(x as int, y as int),
        ensures
            self.wf(),
            look == (match self@[x as int][y as int] {
                Some(_) => Some(look_at(self@, x as int, y as int)),
                None => None,
            }),
    {
        match self.walls.get(x, y) {
            None => None,
            Some(_) => Some(self.links(x, y).appearance()),
        }
    }

    /// Every wall of the layout with how it is drawn, column by column and
    /// within a column from the bottom up.
    pub fn wall_looks(&self) -> (all: Vec<(E, WallAppearance)>)
        ensures
            self.wf(),
            all@ == looks_before(self@, self.spec_height() as nat, self.spec_width() as nat, 0),
    {
        let width = self.walls.width();
        let height = self.walls.height();
        let mut all: Vec<(E, WallAppearance)> = Vec::new();
        let mut x: usize = 0;
        while x < width
            invariant
                x <= width,
                width == self.spec_width(),
                height == self.spec_height(),
                self.wf(),
                all@ == looks_before(self@, height as nat, x as nat, 0),
            decreases width - x,
        {
            let mut y: usize = 0;
            while y < height
                invariant
                    x < width,
                    y <= height,
                    width == self.spec_width(),
                    height == self.spec_height(),
                    self.wf(),
                    all@ == looks_before(self@, height as nat, x as nat, y as nat),
                decreases height - y,
            {
                match self.walls.get(x, y) {
                    Some(wall) => {
                        all.push((wall, self.links(x, y).appearance()));
                    },
                    None => {},
                }
                y += 1;
            }
            x += 1;
        }
        all
    }
}

/// The tiles of the bottom and top rows of a room, from left to right, the
/// bottom tile of each column before the top one.
pub open spec fn outline_rows(x_offset: int, y_offset: int, width: int, height: int) -> Seq<
    (int, int),
> {
    Seq::new(
        (2 * width) as nat,
        |k: int|
            if k % 2 == 0 {
                (x_offset + k / 2, y_offset)
            } else {
                (x_offset + k / 2, y_offset + height - 1)
            },
    )
}

/// The tiles of the left and right sides of a room between its bottom and top
/// rows, from bottom to top, the left tile of each row before the right one.
pub open spec fn outline_sides(x_offset: int, y_offset: int, width: int, height: int) -> Seq<
    (int, int),
> {
    Seq::new(
        (if height >= 2 {
            2 * (height - 2)
        } else {
            0
        }) as nat,
        |k: int|
            if k % 2 == 0 {
                (x_offset, y_offset + 1 + k / 2)
            } else {
                (x_offset + width - 1, y_offset + 1 + k / 2)
            },
    )
}

/// The tiles on which the walls of a room stand, in the order in which they
/// are built: first the bottom and top rows, then the two sides.
pub open spec fn outline(x_offset: int, y_offset: int, width: int, height: int) -> Seq<
    (int, int),
> {
    outline_rows(x_offset, y_offset, width, height) + outline_sides(
        x_offset,
        y_offset,
        width,
        height,
    )
}

/// `(x, y)` lies on the border of the rectangle of the given size whose
/// lowest corner is `(x_offset, y_offset)`.
pub open spec fn on_border(
    x_offset: int,
    y_offset: int,
    width: int,
    height: int,
    x: int,
    y: int,
) -> bool {
    &&& x_offset <= x < x_offset + width
    &&& y_offset <= y < y_offset + height
    &&& (x == x_offset || x == x_offset + width - 1 || y == y_offset || y == y_offset + height
        - 1)
}

/// The tiles that the walls of a room of `width` by `height` tiles stand on,
/// when the room's lowest corner is `(x_offset, y_offset)`. A room one tile
/// high or wide names its tiles twice.
pub fn room_outline(x_offset: usize, y_offset: usize, width: usize, height: usize) -> (tiles: Vec<
    (usize, usize),
>)
    requires
        width >= 1,
        height >= 1,
        x_offset + width <= usize::MAX,
        y_offset + height <= usize::MAX,
    ensures
        tiles@.len() == outline(
            x_offset as int,
            y_offset as int,
            width as int,
            height as int,
        ).len(),
        forall|k: int|
            0 <= k < tiles@.len() ==> (#[trigger] tiles@[k]).0 == outline(
                x_offset as int,
                y_offset as int,
                width as int,
                height as int,
            )[k].0 && tiles@[k].1 == outline(
                x_offset as int,
                y_offset as int,
                width as int,
                height as int,
            )[k].1,
{
    let ghost rows = outline_rows(x_offset as int, y_offset as int, width as int, height as int);
    let ghost sides = outline_sides(x_offset as int, y_offset as int, width as int, height as int);
    let mut tiles: Vec<(usize, usize)> = Vec::new();
    let y2: usize = height - 1;
    let mut x: usize = 0;
    while x < width
        invariant
            x <= width,
            y2 == height - 1,
            x_offset + width <= usize::MAX,
            y_offset + height <= usize::MAX,
            rows == outline_rows(x_offset as int, y_offset as int, width as int, height as int),
            tiles@.len() == 2 * x,
            forall|k: int|
                0 <= k < 2 * x ==> (#[trigger] tiles@[k]).0 == rows[k].0 && tiles@[k].1
                    == rows[k].1,
        decreases width - x,
    {
        tiles.push((x + x_offset, y_offset));
        tiles.push((x + x_offset, y2 + y_offset));
        x += 1;
    }
    let x2: usize = width - 1;
    let mut y: usize = 1;
    while y < y2
        invariant
            1 <= y,
            height >= 1,
            y2 == height - 1,
            height >= 2 ==> y <= height - 1,
            height < 2 ==> y == 1,
            x2 == width - 1,
            x_offset + width <= usize::MAX,
            y_offset + height <= usize::MAX,
            rows == outline_rows(x_offset as int, y_offset as int, width as int, height as int),
            sides == outline_sides(x_offset as int, y_offset as int, width as int, height as int),
            tiles@.len() == 2 * width + 2 * (y - 1),
            forall|k: int|
                0 <= k < 2 * width ==> (#[trigger] tiles@[k]).0 == rows[k].0 && tiles@[k].1
                    == rows[k].1,
            forall|k: int|
                0 <= k < 2 * (y - 1) ==> (#[trigger] tiles@[2 * width + k]).0 == sides[k].0
                    && tiles@[2 * width + k].1 == sides[k].1,
        decreases height - y,
    {
        tiles.push((x_offset, y + y_offset));
        tiles.push((x2 + x_offset, y + y_offset));
        y += 1;
    }
    proof {
        let all = outline(x_offset as int, y_offset as int, width as int, height as int);
        assert(all.len() == tiles@.len());
        assert forall|k: int| 0 <= k < tiles@.len() implies (#[trigger] tiles@[k]).0 == all[k].0
            && tiles@[k].1 == all[k].1 by {
            if k >= 2 * width {
                let m = k - 2 * width;
                assert(tiles@[2 * width + m].0 == sides[m].0);
                assert(all[k] == sides[m]);
            } else {
                assert(all[k] == rows[k]);
            }
        }
    }
    tiles
}

/// The walls of a room stand on exactly the border of its rectangle.
pub proof fn lemma_outline_is_border(
    x_offset: int,
    y_offset: int,
    width: int,
    height: int,
    x: int,
    y: int,
)
    requires
        width >= 1,
        height >= 1,
    ensures
        outline(x_offset, y_offset, width, height).contains((x, y)) <==> on_border(
            x_offset,
            y_offset,
            width,
            height,
            x,
            y,
        ),
{
    let rows = outline_rows(x_offset, y_offset, width, height);
    let sides = outline_sides(x_offset, y_offset, width, height);
    let all = outline(x_offset, y_offset, width, height);
    if on_border(x_offset, y_offset, width, height, x, y) {
        if y == y_offset {
            let k = 2 * (x - x_offset);
            assert(rows[k] == (x, y));
            assert(all[k] == (x, y));
        } else if y == y_offset + height - 1 {
            let k = 2 * (x - x_offset) + 1;
            assert(rows[k] == (x, y));
            assert(all[k] == (x, y));
        } else if x == x_offset {
            let k = 2 * (y - y_offset - 1);
            assert(sides[k] == (x, y));
            assert(all[rows.len() + k] == (x, y));
        } else {
            let k = 2 * (y - y_offset - 1) + 1;
            assert(sides[k] == (x, y));
            assert(all[rows.len() + k] == (x, y));
        }
    }
    if all.contains((x, y)) {
        let k = choose|k: int| 0 <= k < all.len() && all[k] == (x, y);
        if k < rows.len() {
            assert(all[k] == rows[k]);
        } else {
            assert(all[k] == sides[k - rows.len()]);
        }
    }
}

/// One of the first `count` tiles of `tiles` is `(x, y)`.
pub open spec fn among_first(tiles: Seq<(int, int)>, count: int, x: int, y: int) -> bool {
    exists|k: int| 0 <= k < count && k < tiles.len() && #[trigger] tiles[k] == (x, y)
}

impl<E: Copy> WallGrid<E> {
    /// Builds the walls of a room of `width` by `height` tiles whose lowest
    /// corner is `(x_offset, y_offset)`: every tile on the border of the room
    /// that is free gets a wall, whose handle `spawn` makes for it; walls that
    /// stand already are kept. Returns the handles of the new walls in the
    /// order in which they were built.
    pub fn create_room<F: Fn(usize, usize) -> E>(
        &mut self,
        x_offset: usize,
        y_offset: usize,
        width: usize,
        height: usize,
        spawn: &F,
    ) -> (created: Vec<E>)
        requires
            width >= 1,
            height >= 1,
            x_offset + width <= old(self).spec_width(),
            y_offset + height <= old(self).spec_height(),
            forall|x: usize, y: usize| spawn.requires((x, y)),
        ensures
            final(self).spec_width() == old(self).spec_width(),
            final(self).spec_height() == old(self).spec_height(),
            old(self).wf(),
            final(self).wf(),
            forall|x: int, y: int|
                old(self).contains(x, y) ==> ((#[trigger] final(self)@[x][y]) is Some <==> {
                    ||| old(self)@[x][y] is Some
                    ||| on_border(
                        x_offset as int,
                        y_offset as int,
                        width as int,
                        height as int,
                        x,
                        y,
                    )
                }),
            forall|x: int, y: int|
                old(self).contains(x, y) && old(self)@[x][y] is Some
                    ==> #[trigger] final(self)@[x][y] == old(self)@[x][y],
            forall|x: int, y: int|
                {
                    &&& old(self).contains(x, y)
                    &&& old(self)@[x][y] is None
                    &&& (#[trigger] final(self)@[x][y]) is Some
                } ==> spawn.ensures((x as usize, y as usize), final(self)@[x][y]->Some_0),
    {
        let _ = self.width();
        let ghost start = self@;
        let ghost border = outline(x_offset as int, y_offset as int, width as int, height as int);
        let tiles = room_outline(x_offset, y_offset, width, height);
        let mut created: Vec<E> = Vec::new();
        let mut k: usize = 0;
        while k < tiles.len()
            invariant
                k <= tiles.len(),
                width >= 1,
                height >= 1,
                x_offset + width <= self.spec_width(),
                y_offset + height <= self.spec_height(),
                self.spec_width() == old(self).spec_width(),
                self.spec_height() == old(self).spec_height(),
                self.wf(),
                crate::lattice::rectangular(
                    start,
                    self.spec_width() as nat,
                    self.spec_height() as nat,
                ),
                start == old(self)@,
                border == outline(x_offset as int, y_offset as int, width as int, height as int),
                tiles@.len() == border.len(),
                forall|j: int|
                    0 <= j < tiles@.len() ==> (#[trigger] tiles@[j]).0 == border[j].0
                        && tiles@[j].1 == border[j].1,
                forall|x: usize, y: usize| spawn.requires((x, y)),
                forall|x: int, y: int|
                    self.contains(x, y) ==> ((#[trigger] self@[x][y]) is Some <==> {
                        ||| start[x][y] is Some
                        ||| among_first(border, k as int, x, y)
                    }),
                forall|x: int, y: int|
                    self.contains(x, y) && start[x][y] is Some ==> #[trigger] self@[x][y]
                        == start[x][y],
                forall|x: int, y: int|
                    self.contains(x, y) && start[x][y] is None && (#[trigger] self@[x][y]) is Some
                        ==> spawn.ensures((x as usize, y as usize), self@[x][y]->Some_0),
            decreases tiles.len() - k,
        {
            let (x, y) = tiles[k];
            proof {
                assert(border[k as int] == (x as int, y as int));
                assert(border.contains((x as int, y as int)));
                lemma_outline_is_border(
                    x_offset as int,
                    y_offset as int,
                    width as int,
                    height as int,
                    x as int,
                    y as int,
                );
            }
            let ghost before = self@;
            match self.wall_at(x, y) {
                Some(_) => {},
                None => {
                    let wall = spawn(x, y);
                    let _ = self.create_wall(x, y, wall);
                    created.push(wall);
                },
            }
            proof {
                assert forall|i: int, j: int| self.contains(i, j) implies ((
                #[trigger] self@[i][j]) is Some <==> start[i][j] is Some || among_first(
                    border,
                    k + 1,
                    i,
                    j,
                )) by {
                    if i == x && j == y {
                        assert(border[k as int] == (i, j));
                    } else {
                        assert(self@[i][j] == before[i][j]);
                        if among_first(border, k + 1, i, j) {
                            let w = choose|w: int|
                                0 <= w < k + 1 && w < border.len() && #[trigger] border[w] == (
                                    i,
                                    j,
                                );
                            assert(w != k);
                            assert(among_first(border, k as int, i, j));
                        }
                        if among_first(border, k as int, i, j) {
                            let w = choose|w: int|
                                0 <= w < k && w < border.len() && #[trigger] border[w] == (i, j);
                            assert(among_first(border, k + 1, i, j));
                        }
                    }
                }
            }
            k += 1;
        }
        proof {
            assert forall|x: int, y: int| old(self).contains(x, y) implies ((
            #[trigger] self@[x][y]) is Some <==> start[x][y] is Some || on_border(
                x_offset as int,
                y_offset as int,
                width as int,
                height as int,
                x,
                y,
            )) by {
                lemma_outline_is_border(
                    x_offset as int,
                    y_offset as int,
                    width as int,
                    height as int,
                    x,
                    y,
                );
                if among_first(border, tiles@.len() as int, x, y) {
                    let w = choose|w: int|
                        0 <= w < tiles@.len() && w < border.len() && #[trigger] border[w] == (x, y);
                    assert(border.contains((x, y)));
                }
                if border.contains((x, y)) {
                    let w = choose|w: int| 0 <= w < border.len() && border[w] == (x, y);
                    assert(border[w] == (x, y));
                    assert(among_first(border, tiles@.len() as int, x, y));
                }
            }
        }
        created
    }
}

} // verus!
