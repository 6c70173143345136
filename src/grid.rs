//! The hex grid: cell layout, click hit tests and path decomposition.
use vstd::prelude::*;
use crate::geometry::{Point, within_radius};

verus! {

/// Radius of one drawn hexagon, in pixels.
pub const HEX_SIZE: i64 = 36;

/// Orientation, in degrees, at which every cell is drawn.
pub const HEX_ROT: u32 = 90;

/// Largest grid radius: every row and column index then fits in an `i8`.
pub const MAX_GRID_SIZE: usize = 64;

/// Largest magnitude of a grid center coordinate, so that every cell's
/// pixel position fits in an `i64`.
pub const MAX_COORD: i64 = 1099511627776;

/// The six neighbours of a cell in the skewed layout.
#[derive(Clone, Copy, Debug, PartialEq, Eq, Structural)]
pub enum Direction {
    UpLeft,
    UpRight,
    Left,
    Right,
    DownLeft,
    DownRight,
}

/// Column and row change of one unit step in direction `d`.
pub open spec fn step_of(d: Direction) -> (int, int) {
    match d {
        Direction::UpLeft => (-1, -1),
        Direction::UpRight => (0, -1),
        Direction::Left => (-1, 0),
        Direction::Right => (1, 0),
        Direction::DownLeft => (0, 1),
        Direction::DownRight => (1, 1),
    }
}

impl Direction {
    /// Column and row change of one unit step.
    pub fn offset(&self) -> (r: (i8, i8))
        ensures
            (r.0 as int, r.1 as int) == step_of(*self),
    {
        match self {
            Direction::UpLeft => (-1, -1),
            Direction::UpRight => (0, -1),
            Direction::Left => (-1, 0),
            Direction::Right => (1, 0),
            Direction::DownLeft => (0, 1),
            Direction::DownRight => (1, 1),
        }
    }
}

/// One cell: its column `idx`, its row `idy`, the pixel position of its
/// center and the orientation it is drawn at.
#[derive(Clone, Copy, Debug, PartialEq, Eq, Structural)]
pub struct Hex {
    pub idx: usize,
    pub idy: usize,
    pub pos: Point,
    pub rot: u32,
}

/// Number of rows, and of columns, of a grid of radius `size`.
pub open spec fn side(size: int) -> int {
    2 * size - 1
}

/// The cell at `(row, col)` of a grid of radius `size` centred on `center`:
/// the top-left cell sits `2 * HEX_SIZE * (size - 2)` left of and
/// `2 * HEX_SIZE * (size - 1)` above the center; each column moves
/// `2 * HEX_SIZE` right, each row `HEX_SIZE` left and `2 * HEX_SIZE` down.
pub open spec fn hex_at(center: Point, size: int, row: int, col: int) -> Hex {
    Hex {
        idx: col as usize,
        idy: row as usize,
        pos: Point {
            x: (center.x - 2 * HEX_SIZE * (size - 2) + 2 * HEX_SIZE * col - HEX_SIZE * row) as i64,
            y: (center.y - 2 * HEX_SIZE * (size - 1) + 2 * HEX_SIZE * row) as i64,
        },
        rot: HEX_ROT,
    }
}

/// A click at `p` lands on `h` when it is strictly within `HEX_SIZE` of its center.
pub open spec fn hex_hit(h: Hex, p: Point) -> bool {
    within_radius(h.pos, p, HEX_SIZE as int)
}

impl Hex {
    /// Whether a click at `p` lands on this cell.
    pub fn contains(&self, p: Point) -> (r: bool)
        ensures
            r == hex_hit(*self, p),
    {
        let dx: i128 = p.x as i128 - self.pos.x as i128;
        let dy: i128 = p.y as i128 - self.pos.y as i128;
        let reach: i128 = HEX_SIZE as i128;
        if dx <= -reach || dx >= reach || dy <= -reach || dy >= reach {
            assert(dx * dx + dy * dy >= 36 * 36) by (nonlinear_arith)
                requires
                    dx <= -36 || dx >= 36 || dy <= -36 || dy >= 36,
            ;
            false
        } else {
            assert(0 <= dx * dx <= 36 * 36 && 0 <= dy * dy <= 36 * 36) by (nonlinear_arith)
                requires
                    -36 < dx < 36,
                    -36 < dy < 36,
            ;
            dx * dx + dy * dy < reach * reach
        }
    }
}

/// A grid of radius `size`: `2 * size - 1` rows of `2 * size - 1` cells each,
/// laid out by `hex_at` around `center`.
#[derive(Debug)]
pub struct HexGrid {
    pub center: Point,
    pub size: usize,
    pub grid: Vec<Vec<Hex>>,
}

/// Radius and center for which every cell index fits in an `i8` and every
/// pixel position in an `i64`.
pub open spec fn valid_layout(center: Point, size: int) -> bool {
    2 <= size <= MAX_GRID_SIZE && -MAX_COORD <= center.x <= MAX_COORD && -MAX_COORD
        <= center.y <= MAX_COORD
}

/// Total number of cells over a sequence of rows.
pub open spec fn cell_count(rows: Seq<Vec<Hex>>) -> int
    decreases rows.len(),
{
    if rows.len() == 0 {
        0
    } else {
        cell_count(rows.drop_last()) + rows.last()@.len()
    }
}

impl HexGrid {
    /// The grid holds exactly the cells that `hex_at` lays out, row by row.
    pub open spec fn wf(&self) -> bool {
        &&& valid_layout(self.center, self.size as int)
        &&& self.grid@.len() == side(self.size as int)
        &&& forall|r: int| 0 <= r < self.grid@.len() ==> #[trigger] self.grid@[r]@.len() == side(self.size as int)
        &&& forall|r: int, c: int|
            0 <= r < side(self.size as int) && 0 <= c < side(self.size as int)
                ==> #[trigger] self.grid@[r]@[c] == hex_at(self.center, self.size as int, r, c)
    }

    /// Lays out a grid of radius `size` around `center`. The generator list
    /// carries one entry per row; the layout does not depend on its contents.
    pub fn new(center: Point, size: usize, _gen: Vec<u8>) -> (r: HexGrid)
        requires
            valid_layout(center, size as int),
        ensures
            r.wf(),
            r.center == center,
            r.size == size,
    {
        let n: usize = 2 * size - 1;
        assert(0 <= 2 * HEX_SIZE * (size - 2) <= 72 * 64 && 0 <= 2 * HEX_SIZE * (size - 1) <= 72 * 64)
            by (nonlinear_arith)
            requires
                2 <= size <= 64,
                HEX_SIZE == 36,
        ;
        let left: i64 = center.x - 2 * HEX_SIZE * (size as i64 - 2);
        let top: i64 = center.y - 2 * HEX_SIZE * (size as i64 - 1);
        let mut hexes: Vec<Vec<Hex>> = Vec::new();
        let mut row: usize = 0;
        while row < n
            invariant
                valid_layout(center, size as int),
                n == side(size as int),
                left == center.x - 2 * HEX_SIZE * (size - 2),
                top == center.y - 2 * HEX_SIZE * (size - 1),
                -MAX_COORD - 72 * 64 <= left <= MAX_COORD,
                -MAX_COORD - 72 * 64 <= top <= MAX_COORD,
                row <= n,
                hexes@.len() == row,
                forall|r: int| 0 <= r < row ==> #[trigger] hexes@[r]@.len() == n,
                forall|r: int, c: int|
                    0 <= r < row && 0 <= c < n ==> #[trigger] hexes@[r]@[c] == hex_at(
                        center,
                        size as int,
                        r,
                        c,
                    ),
            decreases n - row,
        {
            let mut line: Vec<Hex> = Vec::new();
            let mut col: usize = 0;
            while col < n
                invariant
                    valid_layout(center, size as int),
                    n == side(size as int),
                    left == center.x - 2 * HEX_SIZE * (size - 2),
                    top == center.y - 2 * HEX_SIZE * (size - 1),
                    -MAX_COORD - 72 * 64 <= left <= MAX_COORD,
                    -MAX_COORD - 72 * 64 <= top <= MAX_COORD,
                    row < n,
                    col <= n,
                    line@.len() == col,
                    forall|c: int| 0 <= c < col ==> #[trigger] line@[c] == hex_at(
                        center,
                        size as int,
                        row as int,
                        c,
                    ),
                decreases n - col,
            {
                assert(0 <= 2 * HEX_SIZE * col < 72 * 127 && 0 <= HEX_SIZE * row < 36 * 127)
                    by (nonlinear_arith)
                    requires
                        0 <= col < 127,
                        0 <= row < 127,
                        HEX_SIZE == 36,
                ;
                let x: i64 = left + 2 * HEX_SIZE * (col as i64) - HEX_SIZE * (row as i64);
                let y: i64 = top + 2 * HEX_SIZE * (row as i64);
                line.push(Hex { idx: col, idy: row, pos: Point { x, y }, rot: HEX_ROT });
                col = col + 1;
            }
            hexes.push(line);
            row = row + 1;
        }
        HexGrid { center, size, grid: hexes }
    }

    /// Directions that lead from `src_hex` to `dest_hex`: diagonal steps while
    /// both column and row offsets share a sign, then single-axis steps.
    pub fn get_path_between_hexes(&self, src_hex: &Hex, dest_hex: &Hex) -> (path: Vec<Direction>)
        ensures
            path@ == greedy_path(
                dest_hex.idx as int - src_hex.idx as int,
                dest_hex.idy as int - src_hex.idy as int,
            ),
            path_dx(path@) == dest_hex.idx as int - src_hex.idx as int,
            path_dy(path@) == dest_hex.idy as int - src_hex.idy as int,
    {
        let dx0: i128 = dest_hex.idx as i128 - src_hex.idx as i128;
        let dy0: i128 = dest_hex.idy as i128 - src_hex.idy as i128;
        let mut dx: i128 = dx0;
        let mut dy: i128 = dy0;
        let mut path: Vec<Direction> = Vec::new();
        while dx != 0 || dy != 0
            invariant
                -0x1_0000_0000_0000_0000 <= dx <= 0x1_0000_0000_0000_0000,
                -0x1_0000_0000_0000_0000 <= dy <= 0x1_0000_0000_0000_0000,
                path@ + greedy_path(dx as int, dy as int) == greedy_path(dx0 as int, dy0 as int),
            decreases abs(dx as int) + abs(dy as int),
        {
            let ghost before = path@;
            let d: Direction;
            if dx > 0 && dy > 0 {
                d = Direction::DownRight;
                dx = dx - 1;
                dy = dy - 1;
            } else if dx < 0 && dy < 0 {
                d = Direction::UpLeft;
                dx = dx + 1;
                dy = dy + 1;
            } else if dy > 0 {
                d = Direction::DownLeft;
                dy = dy - 1;
            } else if dy < 0 {
                d = Direction::UpRight;
                dy = dy + 1;
            } else if dx > 0 {
                d = Direction::Right;
                dx = dx - 1;
            } else {
                d = Direction::Left;
                dx = dx + 1;
            }
            path.push(d);
            assert(before + greedy_path(old_dx_of(dx as int, d), old_dy_of(dy as int, d))
                =~= path@ + greedy_path(dx as int, dy as int));
        }
        assert(path@ + greedy_path(0, 0) =~= path@);
        proof {
            lemma_path_displacement(dx0 as int, dy0 as int);
        }
        path
    }
}

/// Absolute value.
pub open spec fn abs(v: int) -> int {
    if v < 0 {
        -v
    } else {
        v
    }
}

/// Column offset before a step in direction `d` left `dx`.
pub open spec fn old_dx_of(dx: int, d: Direction) -> int {
    dx + step_of(d).0
}

/// Row offset before a step in direction `d` left `dy`.
pub open spec fn old_dy_of(dy: int, d: Direction) -> int {
    dy + step_of(d).1
}

/// The greedy decomposition of a column offset `dx` and a row offset `dy`
/// into unit steps: diagonal while both offsets share a sign, then rows,
/// then columns.
pub open spec fn greedy_path(dx: int, dy: int) -> Seq<Direction>
    decreases abs(dx) + abs(dy),
{
    if dx == 0 && dy == 0 {
        Seq::empty()
    } else if dx > 0 && dy > 0 {
        seq![Direction::DownRight] + greedy_path(dx - 1, dy - 1)
    } else if dx < 0 && dy < 0 {
        seq![Direction::UpLeft] + greedy_path(dx + 1, dy + 1)
    } else if dy > 0 {
        seq![Direction::DownLeft] + greedy_path(dx, dy - 1)
    } else if dy < 0 {
        seq![Direction::UpRight] + greedy_path(dx, dy + 1)
    } else if dx > 0 {
        seq![Direction::Right] + greedy_path(dx - 1, dy)
    } else {
        seq![Direction::Left] + greedy_path(dx + 1, dy)
    }
}

/// Net column change of a sequence of unit steps.
pub open spec fn path_dx(p: Seq<Direction>) -> int
    decreases p.len(),
{
    if p.len() == 0 {
        0
    } else {
        step_of(p[0]).0 + path_dx(p.drop_first())
    }
}

/// Net row change of a sequence of unit steps.
pub open spec fn path_dy(p: Seq<Direction>) -> int
    decreases p.len(),
{
    if p.len() == 0 {
        0
    } else {
        step_of(p[0]).1 + path_dy(p.drop_first())
    }
}

/// Walking the greedy decomposition of `(dx, dy)` step by step changes the
/// column by exactly `dx` and the row by exactly `dy`.
pub proof fn lemma_path_displacement(dx: int, dy: int)
    ensures
        path_dx(greedy_path(dx, dy)) == dx,
        path_dy(greedy_path(dx, dy)) == dy,
    decreases abs(dx) + abs(dy),
{
    let p = greedy_path(dx, dy);
    if dx == 0 && dy == 0 {
    } else {
        let d = p[0];
        let (ndx, ndy) = (dx - step_of(d).0, dy - step_of(d).1);
        lemma_path_displacement(ndx, ndy);
        assert(p.drop_first() =~= greedy_path(ndx, ndy));
    }
}

/// A well-formed grid of radius `size` holds `(2 * size - 1)^2` cells, in
/// rows of equal length.
pub proof fn lemma_grid_cell_count(g: &HexGrid)
    requires
        g.wf(),
    ensures
        cell_count(g.grid@) == side(g.size as int) * side(g.size as int),
        forall|r: int, s: int|
            0 <= r < g.grid@.len() && 0 <= s < g.grid@.len() ==> #[trigger] g.grid@[r]@.len()
                == #[trigger] g.grid@[s]@.len(),
{
    let n = side(g.size as int);
    lemma_cell_count_prefix(g.grid@, n, g.grid@.len() as int);
    assert(g.grid@.take(n) =~= g.grid@);
}

proof fn lemma_cell_count_prefix(rows: Seq<Vec<Hex>>, n: int, k: int)
    requires
        0 <= k <= rows.len(),
        forall|r: int| 0 <= r < rows.len() ==> #[trigger] rows[r]@.len() == n,
    ensures
        cell_count(rows.take(k)) == k * n,
    decreases k,
{
    if k > 0 {
        lemma_cell_count_prefix(rows, n, k - 1);
        assert(rows.take(k).drop_last() =~= rows.take(k - 1));
        assert(cell_count(rows.take(k)) == (k - 1) * n + n);
        assert((k - 1) * n + n == k * n) by (nonlinear_arith);
    } else {
        assert(rows.take(0).len() == 0);
        assert(0 * n == 0);
    }
}

} // verus!
