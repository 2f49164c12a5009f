//! A snake game on a toroidal grid: the movement and turn-buffering state
//! machine, food, menus and levels, with their behaviour stated and proved.
mod game;
mod grid;
mod level;
mod menu;
mod rng;
mod scene;
mod snake;

pub use game::{GameState, DESIRED_FPS};
pub use grid::{
    lemma_move_then_back, lemma_opposite_involutive, lemma_wrap_step, wrap, Direction, GridPos,
    Key, GRID_HEIGHT, GRID_WIDTH,
};
pub use level::{hard_wall, Level, LevelSelect};
pub use menu::{MainMenu, MenuManager, MenuState};
pub use scene::{AppScene, BgmState, SceneAction};
pub use snake::{
    lemma_reverse_request_ignored, lemma_second_turn_waits, lemma_tick_length, occupies, Ate,
    Food, GridError, Heading, Segment, Snake,
};
