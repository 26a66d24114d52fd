use vstd::prelude::*;

verus! {

/// One of the four directions the snake can travel in.
#[derive(Debug, Clone, Copy, PartialEq, Eq, Structural)]
pub enum Direction {
    Up,
    Down,
    Left,
    Right,
}

/// A grid cell; `x` grows to the right, `y` grows downwards.
#[derive(Debug, Clone, Copy, PartialEq, Eq, Structural)]
pub struct Point {
    pub x: i32,
    pub y: i32,
}

/// `a` and `b` point in exactly opposite directions.
pub open spec fn opposite(a: Direction, b: Direction) -> bool {
    match (a, b) {
        (Direction::Up, Direction::Down) | (Direction::Down, Direction::Up) => true,
        (Direction::Left, Direction::Right) | (Direction::Right, Direction::Left) => true,
        _ => false,
    }
}

/// The cell at `(x, y)` lies on a `width` by `height` grid.
pub open spec fn in_bounds(x: int, y: int, width: int, height: int) -> bool {
    0 <= x < width && 0 <= y < height
}

/// The point lies on a `width` by `height` grid.
pub open spec fn on_grid(p: Point, width: int, height: int) -> bool {
    in_bounds(p.x as int, p.y as int, width, height)
}

/// Horizontal change of one step in direction `d`.
pub open spec fn dx(d: Direction) -> int {
    match d {
        Direction::Left => -1,
        Direction::Right => 1,
        _ => 0,
    }
}

/// Vertical change of one step in direction `d`.
pub open spec fn dy(d: Direction) -> int {
    match d {
        Direction::Up => -1,
        Direction::Down => 1,
        _ => 0,
    }
}

/// `q` is the cell one step away from `p` in direction `d`.
pub open spec fn is_step(p: Point, d: Direction, q: Point) -> bool {
    q.x as int == p.x as int + dx(d) && q.y as int == p.y as int + dy(d)
}

/// Every cell of the grid is covered by `cells`.
pub open spec fn covers_grid(cells: Seq<Point>, width: int, height: int) -> bool {
    forall|p: Point| on_grid(p, width, height) ==> #[trigger] cells.contains(p)
}

/// `a` comes strictly before `b` when the grid is read column by column.
pub open spec fn scan_before(a: Point, b: Point) -> bool {
    a.x < b.x || (a.x == b.x && a.y < b.y)
}

/// Tells whether `a` and `b` point in exactly opposite directions.
pub fn is_opposite(a: Direction, b: Direction) -> (r: bool)
    ensures
        r == opposite(a, b),
{
    match (a, b) {
        (Direction::Up, Direction::Down) | (Direction::Down, Direction::Up) => true,
        (Direction::Left, Direction::Right) | (Direction::Right, Direction::Left) => true,
        _ => false,
    }
}

} // verus!
