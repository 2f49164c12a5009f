use std::collections::VecDeque;
use oorandom::Rand32;
use vstd::prelude::*;

use crate::grid::{Direction, GridPos, GRID_HEIGHT, GRID_WIDTH};

verus! {

/// One cell occupied by the snake.
#[derive(Clone, Copy, PartialEq, Eq, Structural, Debug)]
pub struct Segment {
    pub pos: GridPos,
}

/// The food, a single cell.
#[derive(Clone, Copy, PartialEq, Eq, Structural, Debug)]
pub struct Food {
    pub pos: GridPos,
}

/// What the head ran into on the last tick.
#[derive(Clone, Copy, PartialEq, Eq, Structural, Debug)]
pub enum Ate {
    Itself,
    Food,
}

/// A grid that a snake cannot be placed on.
#[derive(Clone, Copy, PartialEq, Eq, Structural, Debug)]
pub enum GridError {
    /// The grid has no column or no row.
    EmptyGrid,
    /// The starting cell lies outside the grid.
    OffGrid,
}

/// The direction state of a snake: `dir` is the direction of the next step,
/// `last_update_dir` the direction of the step last taken, and `next_dir` a
/// turn held back until the turn in `dir` has been taken.
#[derive(Clone, Copy, PartialEq, Eq, Structural, Debug)]
pub struct Heading {
    pub dir: Direction,
    pub last_update_dir: Direction,
    pub next_dir: Option<Direction>,
}

impl Segment {
    pub fn new(pos: GridPos) -> (r: Segment)
        ensures
            r.pos == pos,
    {
        Segment { pos }
    }
}

impl Food {
    pub fn new(pos: GridPos) -> (r: Food)
        ensures
            r.pos == pos,
    {
        Food { pos }
    }

    /// Moves the food to a cell of a `width` by `height` grid drawn from
    /// `rng`; the cell may lie under the snake.
    pub fn respawn(&mut self, rng: &mut Rand32, width: i32, height: i32)
        requires
            width > 0,
            height > 0,
        ensures
            final(self).pos.in_grid(width as int, height as int),
    {
        self.pos = GridPos::random(rng, width, height);
    }
}

impl Heading {
    /// A heading at rest in direction `d`.
    pub open spec fn steady(d: Direction) -> Heading {
        Heading { dir: d, last_update_dir: d, next_dir: None }
    }

    /// No reversal is on its way: the direction of the next step does not
    /// reverse the last step, and a held-back turn does not reverse the
    /// direction of the next step.
    pub open spec fn safe(self) -> bool {
        &&& self.dir != self.last_update_dir.opposite()
        &&& self.next_dir matches Some(n) ==> n != self.dir.opposite()
    }

    /// The heading after a turn request towards `d`. A request for the
    /// current direction changes nothing. While a turn is still to be taken,
    /// `d` is held back unless it reverses that turn; otherwise `d` applies at
    /// once, dropping any held-back turn, unless it reverses the last step.
    pub open spec fn requested(self, d: Direction) -> Heading {
        if d == self.dir {
            self
        } else if self.dir != self.last_update_dir && d.opposite() != self.dir {
            Heading { next_dir: Some(d), ..self }
        } else if d.opposite() != self.last_update_dir {
            Heading { dir: d, next_dir: None, ..self }
        } else {
            self
        }
    }

    /// The heading at the start of a tick: a held-back turn comes forward
    /// once the previous turn has been taken.
    pub open spec fn promoted(self) -> Heading {
        if self.last_update_dir == self.dir && self.next_dir is Some {
            Heading { dir: self.next_dir->0, next_dir: None, ..self }
        } else {
            self
        }
    }

    /// The heading after a step in direction `dir`.
    pub open spec fn settled(self) -> Heading {
        Heading { last_update_dir: self.dir, ..self }
    }

    /// The heading after a whole tick.
    pub open spec fn ticked(self) -> Heading {
        self.promoted().settled()
    }

    pub fn request(&mut self, d: Direction)
        ensures
            *final(self) == old(self).requested(d),
    {
        if d == self.dir {
            return;
        }
        if self.dir != self.last_update_dir && d.inverse() != self.dir {
            self.next_dir = Some(d);
        } else if d.inverse() != self.last_update_dir {
            self.dir = d;
            self.next_dir = None;
        }
    }

    pub fn promote(&mut self)
        ensures
            *final(self) == old(self).promoted(),
    {
        if self.last_update_dir == self.dir {
            if let Some(d) = self.next_dir {
                self.dir = d;
                self.next_dir = None;
            }
        }
    }
}

/// A heading at rest is safe, and turn requests and ticks keep a heading
/// safe: the snake never steps straight back into the cell it came from.
pub proof fn lemma_heading_stays_safe(h: Heading, d: Direction)
    ensures
        Heading::steady(d).safe(),
        h.safe() ==> h.requested(d).safe(),
        h.safe() ==> h.promoted().safe(),
        h.safe() ==> h.ticked().safe(),
        h.safe() ==> h.promoted().dir != h.last_update_dir.opposite(),
{
}

/// While no turn is waiting to be taken, a request to reverse the last step
/// leaves the heading, and so the current and the held-back direction, as it
/// was; repeating it therefore changes nothing either.
pub proof fn lemma_reverse_request_ignored(h: Heading)
    requires
        h.dir == h.last_update_dir,
    ensures
        h.requested(h.last_update_dir.opposite()) == h,
        h.requested(h.last_update_dir.opposite()).requested(h.last_update_dir.opposite()) == h,
{
}

/// Two turn requests between ticks, from rest: the first one becomes the
/// current direction at once, the second is held back. The first tick steps
/// in the first direction and keeps the second held back; the tick after
/// that steps in the second direction.
pub proof fn lemma_second_turn_waits(h: Heading, d1: Direction, d2: Direction)
    requires
        h.dir == h.last_update_dir,
        d1 != h.dir,
        d1 != h.dir.opposite(),
        d2 != d1,
        d2 != d1.opposite(),
    ensures
        h.requested(d1).dir == d1,
        h.requested(d1).requested(d2).dir == d1,
        h.requested(d1).requested(d2).next_dir == Some(d2),
        h.requested(d1).requested(d2).promoted().dir == d1,
        h.requested(d1).requested(d2).ticked().next_dir == Some(d2),
        h.requested(d1).requested(d2).ticked().promoted().dir == d2,
{
}

/// Over a tick the body stays one shorter than the snake, and the snake keeps
/// its length unless the head met the food or the body, when it grows by one.
pub proof fn lemma_tick_length(s: Snake, prev: Snake, food: Food)
    requires
        prev.wf(),
        s.advanced(prev, food),
    ensures
        s.body@.len() == s.length() - 1,
        s.length() == prev.length() + if s.ate is None {
            0nat
        } else {
            1nat
        },
        s.length() >= prev.length(),
{
}

/// Some segment of `body` covers `p`.
pub open spec fn occupies(body: Seq<Segment>, p: GridPos) -> bool {
    exists|i: int| 0 <= i < body.len() && body[i].pos == p
}

/// A snake on a toroidal grid of `width` columns and `height` rows. `body`
/// holds the cells behind the head, the most recent first.
#[derive(Clone, Debug)]
pub struct Snake {
    pub head: Segment,
    pub body: VecDeque<Segment>,
    pub heading: Heading,
    pub ate: Option<Ate>,
    pub width: i32,
    pub height: i32,
}

impl Snake {
    /// The grid is not empty and every segment lies on it.
    pub open spec fn wf(&self) -> bool {
        &&& self.width > 0
        &&& self.height > 0
        &&& self.heading.safe()
        &&& self.head.pos.in_grid(self.width as int, self.height as int)
        &&& forall|i: int|
            0 <= i < self.body@.len() ==> #[trigger] self.body@[i].pos.in_grid(
                self.width as int,
                self.height as int,
            )
    }

    /// Number of cells the snake covers.
    pub open spec fn length(&self) -> nat {
        self.body@.len() + 1
    }

    /// The snake that `on_grid(pos, dir, width, height)` places: a head at
    /// `pos` and one segment behind it, at rest in direction `dir`.
    pub open spec fn placed(self, pos: GridPos, dir: Direction, width: int, height: int) -> bool {
        &&& self.head.pos == pos
        &&& self.body@ == seq![Segment { pos: pos.moved(dir.opposite(), width, height) }]
        &&& self.heading == Heading::steady(dir)
        &&& self.ate is None
        &&& self.width == width
        &&& self.height == height
    }

    /// `self` is `prev` after one tick with `food` on the grid: the heading
    /// takes a held-back turn if due, the head steps on, the old head becomes
    /// the first body segment, and the tail leaves unless the head met the
    /// body or the food.
    pub open spec fn advanced(self, prev: Snake, food: Food) -> bool {
        let h = prev.heading.promoted();
        let pos = prev.head.pos.moved(h.dir, prev.width as int, prev.height as int);
        let pushed = seq![prev.head] + prev.body@;
        let ate = if occupies(pushed, pos) {
            Some(Ate::Itself)
        } else if pos == food.pos {
            Some(Ate::Food)
        } else {
            None
        };
        &&& self.heading == h.settled()
        &&& self.head.pos == pos
        &&& self.ate == ate
        &&& self.body@ == if ate is None {
            pushed.drop_last()
        } else {
            pushed
        }
        &&& self.width == prev.width
        &&& self.height == prev.height
    }

    /// A snake at `pos` on the default grid, heading right.
    pub fn new(pos: GridPos) -> (r: Snake)
        requires
            pos.in_grid(GRID_WIDTH as int, GRID_HEIGHT as int),
        ensures
            r.wf(),
            r.placed(pos, Direction::Right, GRID_WIDTH as int, GRID_HEIGHT as int),
    {
        let mut body = VecDeque::new();
        body.push_back(Segment::new(GridPos::new_from_move(pos, Direction::Left)));
        Snake {
            head: Segment::new(pos),
            body,
            heading: Heading { dir: Direction::Right, last_update_dir: Direction::Right, next_dir: None },
            ate: None,
            width: GRID_WIDTH,
            height: GRID_HEIGHT,
        }
    }

    /// A snake at `pos` on a `width` by `height` grid, heading `dir`.
    pub fn on_grid(pos: GridPos, dir: Direction, width: i32, height: i32) -> (r: Result<
        Snake,
        GridError,
    >)
        ensures
            (width <= 0 || height <= 0) <==> r == Err::<Snake, GridError>(GridError::EmptyGrid),
            (width > 0 && height > 0 && !pos.in_grid(width as int, height as int)) <==> r
                == Err::<Snake, GridError>(GridError::OffGrid),
            r is Ok <==> (width > 0 && height > 0 && pos.in_grid(width as int, height as int)),
            r matches Ok(s) ==> s.wf() && s.placed(pos, dir, width as int, height as int),
    {
        if width <= 0 || height <= 0 {
            return Err(GridError::EmptyGrid);
        }
        if pos.x < 0 || pos.x >= width || pos.y < 0 || pos.y >= height {
            return Err(GridError::OffGrid);
        }
        let mut body = VecDeque::new();
        body.push_back(Segment::new(pos.move_in(dir.inverse(), width, height)));
        Ok(
            Snake {
                head: Segment::new(pos),
                body,
                heading: Heading { dir, last_update_dir: dir, next_dir: None },
                ate: None,
                width,
                height,
            },
        )
    }

    pub fn eats(&self, food: &Food) -> (r: bool)
        ensures
            r == (self.head.pos == food.pos),
    {
        self.head.pos == food.pos
    }

    pub fn eats_self(&self) -> (r: bool)
        ensures
            r == occupies(self.body@, self.head.pos),
    {
        let n = self.body.len();
        let mut i: usize = 0;
        while i < n
            invariant
                n == self.body@.len(),
                i <= n,
                forall|j: int| 0 <= j < i ==> self.body@[j].pos != self.head.pos,
            decreases n - i,
        {
            if self.body[i].pos == self.head.pos {
                return true;
            }
            i = i + 1;
        }
        false
    }

    /// Whether the snake is well formed.
    pub fn is_wf(&self) -> (r: bool)
        ensures
            r == self.wf(),
    {
        if self.width <= 0 || self.height <= 0 {
            return false;
        }
        if self.heading.dir == self.heading.last_update_dir.inverse() {
            return false;
        }
        if let Some(n) = self.heading.next_dir {
            if n == self.heading.dir.inverse() {
                return false;
            }
        }
        if !self.head.pos.is_in_grid(self.width, self.height) {
            return false;
        }
        let n = self.body.len();
        let mut i: usize = 0;
        while i < n
            invariant
                n == self.body@.len(),
                i <= n,
                forall|j: int|
                    0 <= j < i ==> #[trigger] self.body@[j].pos.in_grid(
                        self.width as int,
                        self.height as int,
                    ),
            decreases n - i,
        {
            if !self.body[i].pos.is_in_grid(self.width, self.height) {
                return false;
            }
            i = i + 1;
        }
        true
    }

    /// Queues or applies a turn towards `dir`.
    pub fn request_turn(&mut self, dir: Direction)
        ensures
            final(self).heading == old(self).heading.requested(dir),
            final(self).head == old(self).head,
            final(self).body@ == old(self).body@,
            final(self).ate == old(self).ate,
            final(self).width == old(self).width,
            final(self).height == old(self).height,
            old(self).wf() ==> final(self).wf(),
    {
        proof {
            lemma_heading_stays_safe(self.heading, dir);
        }
        self.heading.request(dir);
    }

    /// Advances the snake by one tick.
    pub fn update(&mut self, food: &Food)
        requires
            old(self).wf(),
        ensures
            final(self).wf(),
            final(self).advanced(*old(self), *food),
            final(self).length() == old(self).length() + if final(self).ate is None {
                0nat
            } else {
                1nat
            },
    {
        proof {
            lemma_heading_stays_safe(self.heading, self.heading.dir);
        }
        self.heading.promote();
        let new_head_pos = self.head.pos.move_in(self.heading.dir, self.width, self.height);
        let new_head = Segment::new(new_head_pos);
        self.body.push_front(self.head);
        self.head = new_head;
        if self.eats_self() {
            self.ate = Some(Ate::Itself);
        } else if self.eats(food) {
            self.ate = Some(Ate::Food);
        } else {
            self.ate = None;
        }
        if self.ate.is_none() {
            self.body.pop_back();
        }
        self.heading.last_update_dir = self.heading.dir;
    }
}

} // verus!
