use oorandom::Rand32;
use vstd::prelude::*;

use crate::rng::rand_range;

verus! {

/// Number of columns of the default grid.
pub const GRID_WIDTH: i32 = 30;

/// Number of rows of the default grid.
pub const GRID_HEIGHT: i32 = 20;

/// A cell of a toroidal grid; `x` is the column, `y` the row.
#[derive(Clone, Copy, PartialEq, Eq, Structural, Debug)]
pub struct GridPos {
    pub x: i32,
    pub y: i32,
}

/// One of the four compass directions; `Up` decreases `y`.
#[derive(Clone, Copy, PartialEq, Eq, Structural, Debug)]
pub enum Direction {
    Up,
    Down,
    Left,
    Right,
}

/// The keys that the game reacts to; every other key is `Other`.
#[derive(Clone, Copy, PartialEq, Eq, Structural, Debug)]
pub enum Key {
    Up,
    Down,
    Left,
    Right,
    Escape,
    Return,
    R,
    Other,
}

/// `v` reduced into `[0, n)` (Euclidean remainder; `%` on `int` is Euclidean).
pub open spec fn wrap(v: int, n: int) -> int {
    v % n
}

/// The remainder of a value at most one step outside `[0, n)`.
pub proof fn lemma_wrap_step(v: int, n: int)
    requires
        n > 0,
        -1 <= v <= n,
    ensures
        wrap(v, n) == if v == -1 {
            n - 1
        } else if v == n {
            0
        } else {
            v
        },
{
    if v == -1 {
        assert((-1int) % n == n - 1) by (nonlinear_arith)
            requires
                n > 0,
        ;
    } else if v == n {
        assert(n % n == 0) by (nonlinear_arith)
            requires
                n > 0,
        ;
    } else {
        assert(v % n == v) by (nonlinear_arith)
            requires
                n > 0,
                0 <= v < n,
        ;
    }
}

impl Direction {
    /// The direction pointing the other way.
    pub open spec fn opposite(self) -> Direction {
        match self {
            Direction::Up => Direction::Down,
            Direction::Down => Direction::Up,
            Direction::Left => Direction::Right,
            Direction::Right => Direction::Left,
        }
    }

    /// The direction that `key` steers to, if it is an arrow key.
    pub open spec fn of_key(key: Key) -> Option<Direction> {
        match key {
            Key::Up => Some(Direction::Up),
            Key::Down => Some(Direction::Down),
            Key::Left => Some(Direction::Left),
            Key::Right => Some(Direction::Right),
            _ => None,
        }
    }

    pub fn inverse(self) -> (r: Direction)
        ensures
            r == self.opposite(),
    {
        match self {
            Direction::Up => Direction::Down,
            Direction::Down => Direction::Up,
            Direction::Left => Direction::Right,
            Direction::Right => Direction::Left,
        }
    }

    pub fn from_keycode(key: Key) -> (r: Option<Direction>)
        ensures
            r == Direction::of_key(key),
    {
        match key {
            Key::Up => Some(Direction::Up),
            Key::Down => Some(Direction::Down),
            Key::Left => Some(Direction::Left),
            Key::Right => Some(Direction::Right),
            _ => None,
        }
    }
}

/// Inverting a direction twice gives it back.
pub proof fn lemma_opposite_involutive(d: Direction)
    ensures
        d.opposite().opposite() == d,
        d.opposite() != d,
{
}

impl GridPos {
    /// The position lies on a grid of `w` columns and `h` rows.
    pub open spec fn in_grid(self, w: int, h: int) -> bool {
        0 <= self.x < w && 0 <= self.y < h
    }

    /// The cell one step away in direction `d` on a `w` by `h` torus.
    pub open spec fn moved(self, d: Direction, w: int, h: int) -> GridPos {
        match d {
            Direction::Up => GridPos { x: self.x, y: wrap(self.y - 1, h) as i32 },
            Direction::Down => GridPos { x: self.x, y: wrap(self.y + 1, h) as i32 },
            Direction::Left => GridPos { x: wrap(self.x - 1, w) as i32, y: self.y },
            Direction::Right => GridPos { x: wrap(self.x + 1, w) as i32, y: self.y },
        }
    }

    pub fn new(x: i32, y: i32) -> (r: GridPos)
        ensures
            r == (GridPos { x, y }),
    {
        GridPos { x, y }
    }

    /// Whether the position lies on a `width` by `height` grid.
    pub fn is_in_grid(self, width: i32, height: i32) -> (r: bool)
        ensures
            r == self.in_grid(width as int, height as int),
    {
        0 <= self.x && self.x < width && 0 <= self.y && self.y < height
    }

    /// A cell drawn from `rng` on a `max_x` by `max_y` grid.
    pub fn random(rng: &mut Rand32, max_x: i32, max_y: i32) -> (r: GridPos)
        requires
            max_x > 0,
            max_y > 0,
        ensures
            r.in_grid(max_x as int, max_y as int),
    {
        let x = rand_range(rng, 0, max_x as u32);
        let y = rand_range(rng, 0, max_y as u32);
        GridPos::new(x as i32, y as i32)
    }

    /// One step in direction `dir` on a `width` by `height` torus.
    pub fn move_in(self, dir: Direction, width: i32, height: i32) -> (r: GridPos)
        requires
            width > 0,
            height > 0,
            self.in_grid(width as int, height as int),
        ensures
            r == self.moved(dir, width as int, height as int),
            r.in_grid(width as int, height as int),
    {
        proof {
            lemma_wrap_step(self.x - 1, width as int);
            lemma_wrap_step(self.x + 1, width as int);
            lemma_wrap_step(self.y - 1, height as int);
            lemma_wrap_step(self.y + 1, height as int);
        }
        match dir {
            Direction::Up => GridPos::new(self.x, if self.y == 0 { height - 1 } else { self.y - 1 }),
            Direction::Down => GridPos::new(self.x, if self.y + 1 == height { 0 } else { self.y + 1 }),
            Direction::Left => GridPos::new(if self.x == 0 { width - 1 } else { self.x - 1 }, self.y),
            Direction::Right => GridPos::new(if self.x + 1 == width { 0 } else { self.x + 1 }, self.y),
        }
    }

    /// One step in direction `dir` on the default grid.
    pub fn new_from_move(pos: GridPos, dir: Direction) -> (r: GridPos)
        requires
            pos.in_grid(GRID_WIDTH as int, GRID_HEIGHT as int),
        ensures
            r == pos.moved(dir, GRID_WIDTH as int, GRID_HEIGHT as int),
            r.in_grid(GRID_WIDTH as int, GRID_HEIGHT as int),
    {
        pos.move_in(dir, GRID_WIDTH, GRID_HEIGHT)
    }
}

/// Moving one step and then one step back returns to the starting cell.
pub proof fn lemma_move_then_back(p: GridPos, d: Direction, w: int, h: int)
    requires
        0 < w <= i32::MAX,
        0 < h <= i32::MAX,
        p.in_grid(w, h),
    ensures
        p.moved(d, w, h).moved(d.opposite(), w, h) == p,
{
    lemma_wrap_step(p.x - 1, w);
    lemma_wrap_step(p.x + 1, w);
    lemma_wrap_step(p.y - 1, h);
    lemma_wrap_step(p.y + 1, h);
    let q = p.moved(d, w, h);
    assert(q.in_grid(w, h));
    lemma_wrap_step(q.x - 1, w);
    lemma_wrap_step(q.x + 1, w);
    lemma_wrap_step(q.y - 1, h);
    lemma_wrap_step(q.y + 1, h);
}

} // verus!
