use oorandom::Rand32;
use vstd::prelude::*;

use crate::grid::{Direction, GridPos, Key, GRID_HEIGHT, GRID_WIDTH};
use crate::snake::{Ate, Food, GridError, Snake};

verus! {

/// Ticks per second of the default game.
pub const DESIRED_FPS: u32 = 8;

/// A game session: the snake, the food, the generator that places the food,
/// and whether the snake has run into itself.
pub struct GameState {
    pub snake: Snake,
    pub food: Food,
    pub rng: Rand32,
    pub gameover: bool,
}

impl GameState {
    /// The snake is well formed and the food lies on its grid.
    pub open spec fn wf(&self) -> bool {
        &&& self.snake.wf()
        &&& self.food.pos.in_grid(self.snake.width as int, self.snake.height as int)
    }

    /// The cell where a session on a `width` by `height` grid starts the snake.
    pub open spec fn start_pos(width: int, height: int) -> GridPos {
        GridPos { x: (width / 4) as i32, y: (height / 2) as i32 }
    }

    /// Whether the session is well formed.
    pub fn is_wf(&self) -> (r: bool)
        ensures
            r == self.wf(),
    {
        self.snake.is_wf() && self.food.pos.is_in_grid(self.snake.width, self.snake.height)
    }

    /// A session on the default grid, its generator seeded with `seed`.
    pub fn new(seed: u64) -> (r: GameState)
        ensures
            r.wf(),
            r.snake.placed(
                GameState::start_pos(GRID_WIDTH as int, GRID_HEIGHT as int),
                Direction::Right,
                GRID_WIDTH as int,
                GRID_HEIGHT as int,
            ),
            !r.gameover,
    {
        let snake_pos = GridPos::new(GRID_WIDTH / 4, GRID_HEIGHT / 2);
        let mut rng = Rand32::new(seed);
        let food_pos = GridPos::random(&mut rng, GRID_WIDTH, GRID_HEIGHT);
        GameState { snake: Snake::new(snake_pos), food: Food::new(food_pos), gameover: false, rng }
    }

    /// A session on a `width` by `height` grid, the snake heading `dir`; an
    /// empty grid is refused.
    pub fn new_session(seed: u64, width: i32, height: i32, dir: Direction) -> (r: Result<
        GameState,
        GridError,
    >)
        ensures
            r is Err <==> (width <= 0 || height <= 0),
            r matches Err(e) ==> e == GridError::EmptyGrid,
            r matches Ok(g) ==> {
                &&& g.wf()
                &&& g.snake.placed(
                    GameState::start_pos(width as int, height as int),
                    dir,
                    width as int,
                    height as int,
                )
                &&& !g.gameover
            },
    {
        if width <= 0 || height <= 0 {
            return Err(GridError::EmptyGrid);
        }
        let snake_pos = GridPos::new(width / 4, height / 2);
        let snake = match Snake::on_grid(snake_pos, dir, width, height) {
            Ok(s) => s,
            Err(e) => {
                return Err(e);
            },
        };
        let mut rng = Rand32::new(seed);
        let food_pos = GridPos::random(&mut rng, width, height);
        Ok(GameState { snake, food: Food::new(food_pos), gameover: false, rng })
    }

    /// One tick with `fresh` as the cell where new food goes: the snake
    /// steps; on food the food moves to `fresh`, on its own body the game is
    /// over. Returns what the snake ran into; after the game is over nothing
    /// changes.
    pub fn tick_with(&mut self, fresh: GridPos) -> (r: Option<Ate>)
        requires
            old(self).wf(),
            fresh.in_grid(old(self).snake.width as int, old(self).snake.height as int),
        ensures
            final(self).wf(),
            final(self).rng == old(self).rng,
            old(self).gameover ==> {
                &&& r is None
                &&& final(self).gameover
                &&& final(self).snake == old(self).snake
                &&& final(self).food == old(self).food
            },
            !old(self).gameover ==> {
                &&& final(self).snake.advanced(old(self).snake, old(self).food)
                &&& r == final(self).snake.ate
                &&& final(self).gameover == (r == Some(Ate::Itself))
                &&& final(self).food.pos == if r == Some(Ate::Food) {
                    fresh
                } else {
                    old(self).food.pos
                }
            },
    {
        if self.gameover {
            return None;
        }
        self.snake.update(&self.food);
        let ate = self.snake.ate;
        match ate {
            Some(Ate::Food) => {
                self.food.pos = fresh;
            },
            Some(Ate::Itself) => {
                self.gameover = true;
            },
            None => {},
        }
        ate
    }

    /// One tick, the cell for new food drawn from the session's generator:
    /// as `tick_with` for some cell of the grid.
    pub fn update(&mut self) -> (r: Option<Ate>)
        requires
            old(self).wf(),
        ensures
            final(self).wf(),
            old(self).gameover ==> {
                &&& r is None
                &&& final(self).gameover
                &&& final(self).snake == old(self).snake
                &&& final(self).food == old(self).food
            },
            !old(self).gameover ==> {
                &&& final(self).snake.advanced(old(self).snake, old(self).food)
                &&& r == final(self).snake.ate
                &&& final(self).gameover == (r == Some(Ate::Itself))
                &&& r != Some(Ate::Food) ==> final(self).food == old(self).food
            },
    {
        if self.gameover {
            return None;
        }
        let fresh = GridPos::random(&mut self.rng, self.snake.width, self.snake.height);
        self.tick_with(fresh)
    }

    /// An arrow key asks the snake to turn; other keys are ignored.
    pub fn key_down_event(&mut self, key: Key)
        ensures
            final(self).snake.heading == match Direction::of_key(key) {
                Some(d) => old(self).snake.heading.requested(d),
                None => old(self).snake.heading,
            },
            final(self).snake.head == old(self).snake.head,
            final(self).snake.body@ == old(self).snake.body@,
            final(self).snake.ate == old(self).snake.ate,
            final(self).snake.width == old(self).snake.width,
            final(self).snake.height == old(self).snake.height,
            final(self).food == old(self).food,
            final(self).gameover == old(self).gameover,
            final(self).rng == old(self).rng,
            old(self).wf() ==> final(self).wf(),
    {
        if let Some(dir) = Direction::from_keycode(key) {
            self.snake.request_turn(dir);
        }
    }
}

} // verus!
