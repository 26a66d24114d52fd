use vstd::prelude::*;

use crate::geometry::{is_opposite, on_grid, opposite, scan_before, Direction, Point};

verus! {

/// The snake: its cells from head to tail, and the direction it travels in.
#[derive(Debug, Clone)]
pub struct Snake {
    pub body: Vec<Point>,
    pub direction: Direction,
}

impl Snake {
    /// A snake of one cell at `start_pos`, travelling in `direction`.
    pub fn new(start_pos: Point, direction: Direction) -> (s: Snake)
        ensures
            s.body@ == seq![start_pos],
            s.direction == direction,
    {
        Snake { body: vec![start_pos], direction }
    }

    /// Turns the snake towards `new_direction`, unless that is the exact
    /// opposite of where it travels now, in which case nothing changes.
    pub fn change_direction(&mut self, new_direction: Direction)
        ensures
            final(self).body@ == old(self).body@,
            final(self).direction == (if opposite(old(self).direction, new_direction) {
                old(self).direction
            } else {
                new_direction
            }),
    {
        if !is_opposite(self.direction, new_direction) {
            self.direction = new_direction;
        }
    }

    /// Tells whether one of the snake's cells is `p`.
    pub fn occupies(&self, p: Point) -> (r: bool)
        ensures
            r == self.body@.contains(p),
    {
        let mut i: usize = 0;
        while i < self.body.len()
            invariant
                i <= self.body@.len(),
                forall|j: int| 0 <= j < i ==> self.body@[j] != p,
            decreases self.body@.len() - i,
        {
            if self.body[i] == p {
                return true;
            }
            i = i + 1;
        }
        false
    }

    /// The cells of a `width` by `height` grid that the snake leaves free,
    /// column by column and, within a column, from top to bottom.
    pub fn free_cells(&self, width: i32, height: i32) -> (r: Vec<Point>)
        ensures
            forall|p: Point| #[trigger]
                r@.contains(p) <==> on_grid(p, width as int, height as int) && !self.body@.contains(p),
            forall|i: int, j: int| 0 <= i < j < r@.len() ==> scan_before(#[trigger] r@[i], #[trigger] r@[j]),
    {
        let mut r: Vec<Point> = Vec::new();
        let mut x: i32 = 0;
        while x < width
            invariant
                0 <= x,
                forall|p: Point| #[trigger]
                    r@.contains(p) <==> on_grid(p, width as int, height as int)
                        && !self.body@.contains(p) && p.x < x,
                forall|i: int, j: int| 0 <= i < j < r@.len() ==> scan_before(#[trigger] r@[i], #[trigger] r@[j]),
                forall|i: int| 0 <= i < r@.len() ==> #[trigger] r@[i].x < x,
            decreases width - x,
        {
            let mut y: i32 = 0;
            while y < height
                invariant
                    0 <= x < width,
                    0 <= y,
                    forall|p: Point| #[trigger]
                        r@.contains(p) <==> on_grid(p, width as int, height as int)
                            && !self.body@.contains(p) && (p.x < x || (p.x == x && p.y < y)),
                    forall|i: int, j: int| 0 <= i < j < r@.len() ==> scan_before(#[trigger] r@[i], #[trigger] r@[j]),
                    forall|i: int| 0 <= i < r@.len() ==> (#[trigger] r@[i]).x < x || (r@[i].x == x && r@[i].y < y),
                decreases height - y,
            {
                let p = Point { x, y };
                if !self.occupies(p) {
                    let ghost before = r@;
                    r.push(p);
                    assert forall|q: Point| #[trigger] r@.contains(q) <==> before.contains(q) || q == p by {
                        if r@.contains(q) {
                            let k = choose|k: int| 0 <= k < r@.len() && r@[k] == q;
                            if k < before.len() {
                                assert(before[k] == q);
                            }
                        }
                        if before.contains(q) {
                            let k = choose|k: int| 0 <= k < before.len() && before[k] == q;
                            assert(r@[k] == q);
                        }
                        if q == p {
                            assert(r@[before.len() as int] == q);
                        }
                    }
                }
                y = y + 1;
            }
            x = x + 1;
        }
        r
    }
}

} // verus!
