use vstd::prelude::*;

use crate::grid::Key;
use crate::menu::{MenuManager, MenuState};
use crate::snake::Ate;

verus! {

/// The screen the application shows.
#[derive(Clone, Copy, PartialEq, Eq, Structural, Debug)]
pub enum AppScene {
    Menu,
    Playing,
    Pause,
    GameOver,
}

/// The state of the background music.
#[derive(Clone, Copy, PartialEq, Eq, Structural, Debug)]
pub enum BgmState {
    Play,
    Pause,
    Empty,
}

/// What the application has to do after a key press, besides switching scene.
#[derive(Clone, Copy, PartialEq, Eq, Structural, Debug)]
pub enum SceneAction {
    Nothing,
    /// Start a fresh game session.
    StartGame,
    /// Leave the application.
    Quit,
    /// Hand the key on to the running game.
    Steer,
}

impl AppScene {
    /// The scene after a tick of the game reported `ate`.
    pub fn after_tick(self, ate: Option<Ate>) -> (r: AppScene)
        ensures
            r == if self == AppScene::Playing && ate == Some(Ate::Itself) {
                AppScene::GameOver
            } else {
                self
            },
    {
        match (self, ate) {
            (AppScene::Playing, Some(Ate::Itself)) => AppScene::GameOver,
            _ => self,
        }
    }

    /// Handles a key press: in the main menu the arrows move the selection and
    /// Return starts the game or quits; after a game over R goes back to the
    /// menu; while playing Escape pauses and every key goes on to the game.
    pub fn on_key(self, menu: &mut MenuManager, key: Key) -> (r: (AppScene, SceneAction))
        requires
            old(menu).main.wf(),
        ensures
            final(menu).main.wf(),
            final(menu).state == old(menu).state,
            final(menu).level == old(menu).level,
            final(menu).main.options@ == old(menu).main.options@,
            (self == AppScene::Menu && old(menu).state == MenuState::Main && (key == Key::Up
                || key == Key::Down)) ==> {
                let n = old(menu).main.options@.len() as int;
                let s = old(menu).main.selected as int;
                &&& final(menu).main.selected == if key == Key::Up {
                    (s + n - 1) % n
                } else {
                    (s + 1) % n
                }
                &&& r == (AppScene::Menu, SceneAction::Nothing)
            },
            !(self == AppScene::Menu && old(menu).state == MenuState::Main && (key == Key::Up
                || key == Key::Down)) ==> final(menu).main.selected == old(menu).main.selected,
            (self == AppScene::Menu && old(menu).state == MenuState::Main && key == Key::Return)
                ==> r == if old(menu).main.selected == 0 {
                (AppScene::Playing, SceneAction::StartGame)
            } else {
                (AppScene::Menu, SceneAction::Quit)
            },
            (self == AppScene::Menu && !(old(menu).state == MenuState::Main && (key == Key::Up
                || key == Key::Down || key == Key::Return))) ==> r == (
                AppScene::Menu,
                SceneAction::Nothing,
            ),
            self == AppScene::GameOver ==> r == (
                if key == Key::R {
                    AppScene::Menu
                } else {
                    AppScene::GameOver
                },
                SceneAction::Nothing,
            ),
            self == AppScene::Pause ==> r == (AppScene::Pause, SceneAction::Nothing),
            self == AppScene::Playing ==> r == (
                if key == Key::Escape {
                    AppScene::Pause
                } else {
                    AppScene::Playing
                },
                SceneAction::Steer,
            ),
    {
        match self {
            AppScene::Menu => {
                match menu.state {
                    MenuState::Main => match key {
                        Key::Up => {
                            menu.main.move_selection(true);
                            (AppScene::Menu, SceneAction::Nothing)
                        },
                        Key::Down => {
                            menu.main.move_selection(false);
                            (AppScene::Menu, SceneAction::Nothing)
                        },
                        Key::Return => {
                            if menu.main.selected == 0 {
                                (AppScene::Playing, SceneAction::StartGame)
                            } else {
                                (AppScene::Menu, SceneAction::Quit)
                            }
                        },
                        _ => (AppScene::Menu, SceneAction::Nothing),
                    },
                    MenuState::Level => (AppScene::Menu, SceneAction::Nothing),
                }
            },
            AppScene::GameOver => {
                if key == Key::R {
                    (AppScene::Menu, SceneAction::Nothing)
                } else {
                    (AppScene::GameOver, SceneAction::Nothing)
                }
            },
            AppScene::Pause => (AppScene::Pause, SceneAction::Nothing),
            AppScene::Playing => {
                if key == Key::Escape {
                    (AppScene::Pause, SceneAction::Steer)
                } else {
                    (AppScene::Playing, SceneAction::Steer)
                }
            },
        }
    }
}

} // verus!
