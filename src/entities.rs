//! Things that stand on the grid and move across it.
use vstd::prelude::*;
use crate::geometry::Point;
use crate::grid::{Direction, Hex, HexGrid, hex_at, hex_hit, step_of};

verus! {

/// Cell `(x, y)` (column, row) exists in `map`.
pub open spec fn in_grid(map: HexGrid, x: int, y: int) -> bool {
    0 <= y < map.grid@.len() && 0 <= x < map.grid@[y]@.len()
}

pub open spec fn fits_i8(v: int) -> bool {
    i8::MIN <= v <= i8::MAX
}

/// A cell whose indices fit the `i8` coordinates that entities keep.
pub open spec fn addressable(h: Hex) -> bool {
    h.idx < 128 && h.idy < 128
}

/// `after` is `before` moved onto cell `h`, its sprite kept.
pub open spec fn placed_on<E: Entity>(before: E, after: E, h: Hex) -> bool {
    &&& after.col() == h.idx as int
    &&& after.row() == h.idy as int
    &&& after.cell() == h
    &&& after.sprite() == before.sprite()
}

/// An occupant of the grid: it stands on one cell and can move.
pub trait Entity: Sized {
    /// Column of the cell it stands on.
    spec fn col(&self) -> int;

    /// Row of the cell it stands on.
    spec fn row(&self) -> int;

    /// The cell it stands on.
    spec fn cell(&self) -> Hex;

    /// Handle of the image it is drawn with.
    spec fn sprite(&self) -> usize;

    /// Whether it asks for a turn of its own.
    spec fn wants_turn(&self) -> bool;

    /// Moves by `dx` columns and `dy` rows when that cell exists; otherwise
    /// stays where it is.
    fn move_on_map(&mut self, dx: i8, dy: i8, map: &HexGrid)
        requires
            map.wf(),
        ensures
            in_grid(*map, old(self).col() + dx, old(self).row() + dy) ==> {
                &&& final(self).col() == old(self).col() + dx
                &&& final(self).row() == old(self).row() + dy
                &&& final(self).cell() == map.grid@[old(self).row() + dy]@[old(self).col() + dx]
                &&& final(self).sprite() == old(self).sprite()
            },
            !in_grid(*map, old(self).col() + dx, old(self).row() + dy) ==> *final(self)
                == *old(self),
    ;

    /// Moves onto `hex`, wherever it is.
    fn move_to_hex(&mut self, hex: &Hex)
        requires
            addressable(*hex),
        ensures
            final(self).col() == hex.idx as int,
            final(self).row() == hex.idy as int,
            final(self).cell() == *hex,
            final(self).sprite() == old(self).sprite(),
    ;

    /// Moves `dist` unit steps in direction `dir` when that cell exists;
    /// otherwise stays where it is.
    fn move_direction(&mut self, dir: Direction, dist: i8, map: &HexGrid)
        requires
            map.wf(),
            fits_i8(step_of(dir).0 * dist),
            fits_i8(step_of(dir).1 * dist),
        ensures
            ({
                let x = old(self).col() + step_of(dir).0 * dist;
                let y = old(self).row() + step_of(dir).1 * dist;
                &&& in_grid(*map, x, y) ==> {
                    &&& final(self).col() == x
                    &&& final(self).row() == y
                    &&& final(self).cell() == map.grid@[y]@[x]
                    &&& final(self).sprite() == old(self).sprite()
                }
                &&& !in_grid(*map, x, y) ==> *final(self) == *old(self)
            }),
    ;

    fn needs_updating(&self) -> (r: bool)
        ensures
            r == self.wants_turn(),
    ;

    /// Plays a turn on `map`.
    fn take_turn(&mut self, map: &mut HexGrid)
        requires
            old(map).wf(),
        ensures
            final(map).wf(),
    ;
}

/// The cell `(x + dx, y + dy)` when it exists in `map`.
pub fn target_cell(map: &HexGrid, x: i8, y: i8, dx: i8, dy: i8) -> (r: Option<(i8, i8)>)
    requires
        map.wf(),
    ensures
        r == (if in_grid(*map, x + dx, y + dy) {
            Some(((x + dx) as i8, (y + dy) as i8))
        } else {
            None
        }),
{
    let nx: i16 = x as i16 + dx as i16;
    let ny: i16 = y as i16 + dy as i16;
    if ny >= 0 && (ny as usize) < map.grid.len() && nx >= 0 && (nx as usize) < map.grid[ny as usize].len() {
        Some((nx as i8, ny as i8))
    } else {
        None
    }
}

/// The player's piece.
#[derive(Clone, Copy, Debug, PartialEq, Eq, Structural)]
pub struct Character {
    pub posx: i8,
    pub posy: i8,
    pub hex: Hex,
    pub sprite: usize,
}

impl Entity for Character {
    open spec fn col(&self) -> int {
        self.posx as int
    }

    open spec fn row(&self) -> int {
        self.posy as int
    }

    open spec fn cell(&self) -> Hex {
        self.hex
    }

    open spec fn sprite(&self) -> usize {
        self.sprite
    }

    open spec fn wants_turn(&self) -> bool {
        false
    }

    fn move_on_map(&mut self, dx: i8, dy: i8, map: &HexGrid) {
        if let Some((x, y)) = target_cell(map, self.posx, self.posy, dx, dy) {
            self.posx = x;
            self.posy = y;
            self.hex = map.grid[y as usize][x as usize];
        }
    }

    fn move_to_hex(&mut self, hex: &Hex) {
        self.posy = hex.idy as i8;
        self.posx = hex.idx as i8;
        self.hex = *hex;
    }

    fn move_direction(&mut self, dir: Direction, dist: i8, map: &HexGrid) {
        let (sx, sy) = dir.offset();
        self.move_on_map(sx * dist, sy * dist, map);
    }

    fn needs_updating(&self) -> (r: bool) {
        false
    }

    fn take_turn(&mut self, map: &mut HexGrid) {
    }
}

/// A piece played by the computer.
#[derive(Clone, Copy, Debug, PartialEq, Eq, Structural)]
pub struct Enemy {
    pub posx: i8,
    pub posy: i8,
    pub hex: Hex,
    pub sprite: usize,
}

impl Entity for Enemy {
    open spec fn col(&self) -> int {
        self.posx as int
    }

    open spec fn row(&self) -> int {
        self.posy as int
    }

    open spec fn cell(&self) -> Hex {
        self.hex
    }

    open spec fn sprite(&self) -> usize {
        self.sprite
    }

    open spec fn wants_turn(&self) -> bool {
        false
    }

    fn move_on_map(&mut self, dx: i8, dy: i8, map: &HexGrid) {
        if let Some((x, y)) = target_cell(map, self.posx, self.posy, dx, dy) {
            self.posx = x;
            self.posy = y;
            self.hex = map.grid[y as usize][x as usize];
        }
    }

    fn move_to_hex(&mut self, hex: &Hex) {
        self.posy = hex.idy as i8;
        self.posx = hex.idx as i8;
        self.hex = *hex;
    }

    fn move_direction(&mut self, dir: Direction, dist: i8, map: &HexGrid) {
        let (sx, sy) = dir.offset();
        self.move_on_map(sx * dist, sy * dist, map);
    }

    fn needs_updating(&self) -> (r: bool) {
        false
    }

    fn take_turn(&mut self, map: &mut HexGrid) {
    }
}

/// Any of the kinds of piece a game holds.
#[derive(Clone, Copy, Debug, PartialEq, Eq, Structural)]
pub enum Actor {
    Character(Character),
    Enemy(Enemy),
}

impl Entity for Actor {
    open spec fn col(&self) -> int {
        match self {
            Actor::Character(c) => c.col(),
            Actor::Enemy(e) => e.col(),
        }
    }

    open spec fn row(&self) -> int {
        match self {
            Actor::Character(c) => c.row(),
            Actor::Enemy(e) => e.row(),
        }
    }

    open spec fn cell(&self) -> Hex {
        match self {
            Actor::Character(c) => c.cell(),
            Actor::Enemy(e) => e.cell(),
        }
    }

    open spec fn sprite(&self) -> usize {
        match self {
            Actor::Character(c) => c.sprite(),
            Actor::Enemy(e) => e.sprite(),
        }
    }

    open spec fn wants_turn(&self) -> bool {
        match self {
            Actor::Character(c) => c.wants_turn(),
            Actor::Enemy(e) => e.wants_turn(),
        }
    }

    fn move_on_map(&mut self, dx: i8, dy: i8, map: &HexGrid) {
        match self {
            Actor::Character(c) => c.move_on_map(dx, dy, map),
            Actor::Enemy(e) => e.move_on_map(dx, dy, map),
        }
    }

    fn move_to_hex(&mut self, hex: &Hex) {
        match self {
            Actor::Character(c) => c.move_to_hex(hex),
            Actor::Enemy(e) => e.move_to_hex(hex),
        }
    }

    fn move_direction(&mut self, dir: Direction, dist: i8, map: &HexGrid) {
        let (sx, sy) = dir.offset();
        self.move_on_map(sx * dist, sy * dist, map);
    }

    fn needs_updating(&self) -> (r: bool) {
        match self {
            Actor::Character(c) => c.needs_updating(),
            Actor::Enemy(e) => e.needs_updating(),
        }
    }

    fn take_turn(&mut self, map: &mut HexGrid) {
        match self {
            Actor::Character(c) => c.take_turn(map),
            Actor::Enemy(e) => e.take_turn(map),
        }
    }
}

/// The last cell of `cells` that a click at `p` lands on.
pub open spec fn last_hit_in(cells: Seq<Hex>, p: Point) -> Option<Hex>
    decreases cells.len(),
{
    if cells.len() == 0 {
        None
    } else if hex_hit(cells.last(), p) {
        Some(cells.last())
    } else {
        last_hit_in(cells.drop_last(), p)
    }
}

/// `later` when there is one, else `earlier`.
pub open spec fn either(later: Option<Hex>, earlier: Option<Hex>) -> Option<Hex> {
    match later {
        Some(h) => Some(h),
        None => earlier,
    }
}

/// The last cell, in row-major order, that a click at `p` lands on.
pub open spec fn last_hit(rows: Seq<Vec<Hex>>, p: Point) -> Option<Hex>
    decreases rows.len(),
{
    if rows.len() == 0 {
        None
    } else {
        either(last_hit_in(rows.last()@, p), last_hit(rows.drop_last(), p))
    }
}

/// `after` stands on the cell `hit` when there is one; otherwise it is `before`.
pub open spec fn after_hit<E: Entity>(before: E, after: E, hit: Option<Hex>) -> bool {
    match hit {
        Some(h) => placed_on(before, after, h),
        None => after == before,
    }
}

impl Hex {
    /// Moves `c` onto this cell when a click at `mpos` lands on it.
    pub fn process_click<E: Entity>(&self, mpos: Point, c: &mut E)
        requires
            addressable(*self),
        ensures
            after_hit(*old(c), *final(c), if hex_hit(*self, mpos) { Some(*self) } else { None }),
    {
        if self.contains(mpos) {
            c.move_to_hex(self);
        }
    }
}

impl HexGrid {
    /// Offers a click at `mpos` to every cell in row-major order; `c` ends on
    /// the last cell the click lands on, or where it was when it lands on none.
    pub fn process_click<E: Entity>(&self, mpos: Point, c: &mut E)
        requires
            self.wf(),
        ensures
            after_hit(*old(c), *final(c), last_hit(self.grid@, mpos)),
    {
        let mut r: usize = 0;
        while r < self.grid.len()
            invariant
                self.wf(),
                r <= self.grid@.len(),
                after_hit(*old(c), *c, last_hit(self.grid@.take(r as int), mpos)),
            decreases self.grid@.len() - r,
        {
            let line: &Vec<Hex> = &self.grid[r];
            let mut k: usize = 0;
            while k < line.len()
                invariant
                    self.wf(),
                    r < self.grid@.len(),
                    line@ == self.grid@[r as int]@,
                    k <= line@.len(),
                    after_hit(
                        *old(c),
                        *c,
                        either(
                            last_hit_in(line@.take(k as int), mpos),
                            last_hit(self.grid@.take(r as int), mpos),
                        ),
                    ),
                decreases line@.len() - k,
            {
                assert(line@[k as int] == hex_at(self.center, self.size as int, r as int, k as int));
                line[k].process_click(mpos, c);
                assert(line@.take(k + 1).drop_last() =~= line@.take(k as int));
                k = k + 1;
            }
            assert(line@.take(line@.len() as int) =~= line@);
            assert(self.grid@.take(r + 1).drop_last() =~= self.grid@.take(r as int));
            r = r + 1;
        }
        assert(self.grid@.take(self.grid@.len() as int) =~= self.grid@);
    }
}

/// Every cell of a well-formed grid can be stood on, so `move_to_hex` takes
/// any of them.
pub proof fn lemma_grid_cells_addressable(g: &HexGrid, r: int, c: int)
    requires
        g.wf(),
        0 <= r < g.grid@.len(),
        0 <= c < g.grid@[r]@.len(),
    ensures
        addressable(g.grid@[r]@[c]),
        g.grid@[r]@[c].idx == c,
        g.grid@[r]@[c].idy == r,
{
    assert(g.grid@[r]@[c] == hex_at(g.center, g.size as int, r, c));
}

} // verus!
