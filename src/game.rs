use vstd::prelude::*;

use crate::geometry::{covers_grid, dx, dy, in_bounds, on_grid, opposite, Direction, Point};
use crate::random::random_below;
use crate::snake::Snake;

verus! {

/// Random cells tried before food placement lists the free cells instead.
const FOOD_DRAWS: u32 = 32;

/// The state of one game: the grid, the snake, the food, the score and the
/// phase (not started, running, over).
pub struct Game {
    width: i32,
    height: i32,
    snake: Snake,
    food: Point,
    score: u64,
    game_over: bool,
    game_started: bool,
    rng: rand::rngs::ThreadRng,
}

/// What a game is, as mathematics: everything but the source of randomness.
pub struct GameView {
    pub width: int,
    pub height: int,
    /// The snake's cells, head first.
    pub body: Seq<Point>,
    pub direction: Direction,
    pub food: Point,
    pub score: int,
    pub game_over: bool,
    pub game_started: bool,
}

impl View for Game {
    type V = GameView;

    closed spec fn view(&self) -> GameView {
        GameView {
            width: self.width as int,
            height: self.height as int,
            body: self.snake.body@,
            direction: self.snake.direction,
            food: self.food,
            score: self.score as int,
            game_over: self.game_over,
            game_started: self.game_started,
        }
    }
}

/// The cell where a new snake starts on a `width` by `height` grid.
pub open spec fn centre(width: int, height: int) -> Point {
    Point { x: (width / 2) as i32, y: (height / 2) as i32 }
}

impl GameView {
    /// The invariant that every reachable state keeps.
    pub open spec fn wf(self) -> bool {
        &&& self.width > 0 && self.height > 0
        &&& self.width <= i32::MAX && self.height <= i32::MAX
        &&& self.body.len() > 0
        &&& forall|i: int| 0 <= i < self.body.len() ==> on_grid(#[trigger] self.body[i], self.width, self.height)
        &&& self.body.no_duplicates()
        &&& on_grid(self.food, self.width, self.height)
        &&& !self.body.contains(self.food) || covers_grid(self.body, self.width, self.height)
        &&& self.score + 1 == self.body.len()
        &&& self.game_over ==> self.game_started
    }

    /// `self` and `other` agree on everything but the food.
    pub open spec fn same_but_food(self, other: GameView) -> bool {
        self == GameView { food: self.food, ..other }
    }

    /// A run has just begun on a `width` by `height` grid: a one-cell snake
    /// at the centre heading right, score zero, not over.
    pub open spec fn fresh(self, width: int, height: int) -> bool {
        &&& self.wf()
        &&& self.width == width
        &&& self.height == height
        &&& self.body == seq![centre(width, height)]
        &&& self.direction == Direction::Right
        &&& self.score == 0
        &&& !self.game_over
    }

    /// A tick would move the snake.
    pub open spec fn running(self) -> bool {
        self.game_started && !self.game_over
    }

    /// The head's column after the next move (possibly off the grid).
    pub open spec fn next_x(self) -> int {
        self.body[0].x + dx(self.direction)
    }

    /// The head's row after the next move (possibly off the grid).
    pub open spec fn next_y(self) -> int {
        self.body[0].y + dy(self.direction)
    }

    /// The cell the head moves to next, where that cell is on the grid.
    pub open spec fn next_head(self) -> Point {
        Point { x: self.next_x() as i32, y: self.next_y() as i32 }
    }

    /// The next move leaves the grid or runs into the snake's own body.
    pub open spec fn next_collides(self) -> bool {
        !in_bounds(self.next_x(), self.next_y(), self.width, self.height)
            || self.body.contains(self.next_head())
    }

    /// The next move lands on the food.
    pub open spec fn next_eats(self) -> bool {
        !self.next_collides() && self.next_head() == self.food
    }
}

impl Game {
    /// Puts the food on `p` when `p` is a free cell of the grid; otherwise
    /// changes nothing. Tells whether the food was placed.
    pub fn try_place_food(&mut self, p: Point) -> (placed: bool)
        ensures
            placed == (on_grid(p, old(self)@.width, old(self)@.height) && !old(self)@.body.contains(p)),
            final(self)@.same_but_food(old(self)@),
            final(self)@.food == (if placed { p } else { old(self)@.food }),
            old(self)@.wf() ==> final(self)@.wf(),
    {
        if p.x < 0 || p.x >= self.width || p.y < 0 || p.y >= self.height {
            return false;
        }
        if self.snake.occupies(p) {
            return false;
        }
        self.food = p;
        true
    }

    /// Moves the food to a free cell chosen uniformly at random: first by
    /// drawing cells of the whole grid and keeping the first free one, then,
    /// after `FOOD_DRAWS` misses, by drawing among the listed free cells.
    /// When the snake covers the grid there is no free cell and the food stays.
    fn spawn_food(&mut self)
        requires
            old(self).width > 0,
            old(self).height > 0,
        ensures
            final(self)@.same_but_food(old(self)@),
            ({
                let v = final(self)@;
                (on_grid(v.food, v.width, v.height) && !v.body.contains(v.food))
                    || (covers_grid(v.body, v.width, v.height) && v.food == old(self)@.food)
            }),
    {
        let mut draws: u32 = 0;
        while draws < FOOD_DRAWS
            invariant
                self@.same_but_food(old(self)@),
                self@.food == old(self)@.food,
                self.width > 0,
                self.height > 0,
            decreases FOOD_DRAWS - draws,
        {
            let x = random_below(&mut self.rng, self.width as usize) as i32;
            let y = random_below(&mut self.rng, self.height as usize) as i32;
            if self.try_place_food(Point { x, y }) {
                return;
            }
            draws = draws + 1;
        }
        let free = self.snake.free_cells(self.width, self.height);
        if free.len() == 0 {
            proof {
                assert forall|p: Point| on_grid(p, self.width as int, self.height as int)
                    implies #[trigger] self.snake.body@.contains(p) by {
                    assert(!free@.contains(p));
                }
            }
            return;
        }
        let k = random_below(&mut self.rng, free.len());
        let p = free[k];
        assert(free@.contains(p));
        self.food = p;
    }
    /// A game on a `width` by `height` grid, not yet started: a one-cell snake
    /// at the centre heading right, score zero, food on a free cell.
    pub fn new(width: i32, height: i32) -> (g: Game)
        requires
            width > 0,
            height > 0,
        ensures
            g@.fresh(width as int, height as int),
            !g@.game_started,
    {
        let start_pos = Point { x: width / 2, y: height / 2 };
        let snake = Snake::new(start_pos, Direction::Right);
        let mut game = Game {
            width,
            height,
            snake,
            food: Point { x: 0, y: 0 },
            score: 0,
            game_over: false,
            game_started: false,
            rng: rand::thread_rng(),
        };
        game.spawn_food();
        game
    }

    /// Like `new`, but refuses a grid whose width or height is not positive.
    pub fn try_new(width: i32, height: i32) -> (r: Option<Game>)
        ensures
            r is None <==> width <= 0 || height <= 0,
            r matches Some(g) ==> g@.fresh(width as int, height as int) && !g@.game_started,
    {
        if width <= 0 || height <= 0 {
            None
        } else {
            Some(Game::new(width, height))
        }
    }

    /// Advances the game by one step. Outside a running game nothing changes.
    /// Otherwise the head moves one cell in the current direction: off the
    /// grid or onto the body the run ends and nothing else changes; onto the
    /// food the snake grows by the new head, the score goes up by one and new
    /// food is placed; elsewhere the snake moves and its tail cell is freed.
    pub fn tick(&mut self)
        requires
            old(self)@.wf(),
        ensures
            ({
                let (o, n) = (old(self)@, final(self)@);
                &&& n.wf()
                &&& n.width == o.width && n.height == o.height
                &&& n.direction == o.direction
                &&& n.game_started == o.game_started
                &&& !o.running() ==> n == o
                &&& o.running() && o.next_collides() ==> n == GameView { game_over: true, ..o }
                &&& o.running() && o.next_eats() ==> {
                    &&& n.body == seq![o.next_head()] + o.body
                    &&& n.score == o.score + 1
                    &&& !n.game_over
                }
                &&& o.running() && !o.next_collides() && !o.next_eats() ==> {
                    &&& n.body == (seq![o.next_head()] + o.body).drop_last()
                    &&& n.score == o.score
                    &&& n.food == o.food
                    &&& !n.game_over
                }
                &&& n.body.len() == o.body.len() + (if o.running() && o.next_eats() { 1int } else { 0int })
                &&& n.score == o.score + (if o.running() && o.next_eats() { 1int } else { 0int })
            }),
    {
        if !self.game_started || self.game_over {
            return;
        }
        let head = self.snake.body[0];
        assert(on_grid(self.snake.body@[0], self.width as int, self.height as int));
        let (x, y): (i32, i32) = match self.snake.direction {
            Direction::Up => (head.x, head.y - 1),
            Direction::Down => (head.x, head.y + 1),
            Direction::Left => (head.x - 1, head.y),
            Direction::Right => (head.x + 1, head.y),
        };
        if x < 0 || x >= self.width || y < 0 || y >= self.height {
            self.game_over = true;
            return;
        }
        let new_head = Point { x, y };
        if self.snake.occupies(new_head) {
            self.game_over = true;
            return;
        }
        let ghost before = self.snake.body@;
        self.snake.body.insert(0, new_head);
        assert(self.snake.body@ =~= seq![new_head] + before);
        let len = self.snake.body.len();
        proof {
            let body = self.snake.body@;
            assert forall|i: int, j: int| 0 <= i < body.len() && 0 <= j < body.len() && i != j
                implies body[i] != body[j] by {
                if i > 0 && j > 0 {
                    assert(body[i] == before[i - 1] && body[j] == before[j - 1]);
                } else if i == 0 {
                    assert(before.contains(body[j]));
                } else {
                    assert(before.contains(body[i]));
                }
            }
            assert forall|i: int| 0 <= i < body.len()
                implies on_grid(#[trigger] body[i], self.width as int, self.height as int) by {
                if i > 0 {
                    assert(body[i] == before[i - 1]);
                }
            }
        }
        if new_head == self.food {
            self.score = self.score + 1;
            self.spawn_food();
        } else {
            self.snake.body.pop();
            proof {
                let grown = seq![new_head] + before;
                let body = self.snake.body@;
                assert(body =~= grown.drop_last());
                assert forall|i: int| 0 <= i < body.len()
                    implies on_grid(#[trigger] body[i], self.width as int, self.height as int) by {
                    assert(body[i] == grown[i]);
                }
                assert(!body.contains(self.food)) by {
                    if body.contains(self.food) {
                        let k = choose|k: int| 0 <= k < body.len() && body[k] == self.food;
                        assert(k > 0);
                        assert(before[k - 1] == self.food);
                    }
                }
            }
        }
    }

    /// Turns the snake towards `direction` unless that reverses it; nothing
    /// else changes.
    pub fn change_snake_direction(&mut self, direction: Direction)
        requires
            old(self)@.wf(),
        ensures
            final(self)@ == (GameView {
                direction: if opposite(old(self)@.direction, direction) {
                    old(self)@.direction
                } else {
                    direction
                },
                ..old(self)@
            }),
            final(self)@.wf(),
    {
        self.snake.change_direction(direction);
    }

    /// Starts a new run, from any state: a one-cell snake at the centre
    /// heading right, score zero, not over, and new food on a free cell.
    pub fn start_game(&mut self)
        requires
            old(self)@.wf(),
        ensures
            final(self)@.fresh(old(self)@.width, old(self)@.height),
            final(self)@.game_started,
    {
        self.snake = Snake::new(Point { x: self.width / 2, y: self.height / 2 }, Direction::Right);
        self.score = 0;
        self.game_over = false;
        self.game_started = true;
        self.spawn_food();
    }
    /// Grid width.
    pub fn width(&self) -> (r: i32)
        ensures
            r as int == self@.width,
    {
        self.width
    }

    /// Grid height.
    pub fn height(&self) -> (r: i32)
        ensures
            r as int == self@.height,
    {
        self.height
    }

    /// The snake, its cells head first.
    pub fn snake(&self) -> (r: &Snake)
        ensures
            r.body@ == self@.body,
            r.direction == self@.direction,
    {
        &self.snake
    }

    /// The food's cell.
    pub fn food(&self) -> (r: Point)
        ensures
            r == self@.food,
    {
        self.food
    }

    /// Food eaten in the current run.
    pub fn score(&self) -> (r: u64)
        ensures
            r as int == self@.score,
    {
        self.score
    }

    /// The current run has ended.
    pub fn game_over(&self) -> (r: bool)
        ensures
            r == self@.game_over,
    {
        self.game_over
    }

    /// A run has been started.
    pub fn game_started(&self) -> (r: bool)
        ensures
            r == self@.game_started,
    {
        self.game_started
    }
}

/// In every reachable state the food lies on a cell the snake does not
/// occupy, unless the snake covers the whole grid and no such cell exists.
pub proof fn lemma_food_off_snake(g: GameView)
    requires
        g.wf(),
    ensures
        !g.body.contains(g.food) || covers_grid(g.body, g.width, g.height),
        on_grid(g.food, g.width, g.height),
{
}

/// In every reachable state each cell of the snake lies on the grid.
pub proof fn lemma_snake_on_grid(g: GameView)
    requires
        g.wf(),
    ensures
        forall|i: int| 0 <= i < g.body.len() ==> on_grid(#[trigger] g.body[i], g.width, g.height),
{
}

/// Once the snake covers the whole grid, whatever its direction, the next
/// move leaves the grid or runs into the body, so the run ends on the next tick.
pub proof fn lemma_covered_grid_ends_run(g: GameView)
    requires
        g.wf(),
        covers_grid(g.body, g.width, g.height),
    ensures
        g.next_collides(),
{
    if in_bounds(g.next_x(), g.next_y(), g.width, g.height) {
        assert(on_grid(g.next_head(), g.width, g.height));
    }
}

/// A running snake whose head is in the rightmost column and which heads
/// right collides on its next move, so the next tick ends the run and leaves
/// the body as it was.
pub proof fn lemma_right_wall_ends_run(g: GameView)
    requires
        g.wf(),
        g.body[0].x == g.width - 1,
        g.direction == Direction::Right,
    ensures
        g.next_collides(),
{
}

} // verus!
