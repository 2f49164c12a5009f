use vstd::prelude::*;

use crate::level::{Level, LevelSelect};

verus! {

/// Which menu page is shown.
#[derive(Clone, Copy, PartialEq, Eq, Structural, Debug)]
pub enum MenuState {
    Main,
    Level,
}

/// The main menu: its entries and the selected one.
#[derive(Clone, Debug)]
pub struct MainMenu {
    pub selected: usize,
    pub options: Vec<&'static str>,
}

/// The menus of the game.
#[derive(Clone, Debug)]
pub struct MenuManager {
    pub main: MainMenu,
    pub level: LevelSelect,
    pub state: MenuState,
}

impl MainMenu {
    /// There is an entry and the selection is one of them.
    pub open spec fn wf(&self) -> bool {
        0 < self.options@.len() && self.selected < self.options@.len()
    }

    pub fn new() -> (r: MainMenu)
        ensures
            r.wf(),
            r.selected == 0,
            r.options@.len() == 2,
            r.options@[0]@ == "Start Game"@,
            r.options@[1]@ == "Exit"@,
    {
        let r = MainMenu { selected: 0, options: vec!["Start Game", "Exit"] };
        proof {
            reveal_strlit("Start Game");
            reveal_strlit("Exit");
        }
        r
    }

    /// Moves the selection one entry up or down, wrapping around at the ends.
    pub fn move_selection(&mut self, up: bool)
        requires
            old(self).wf(),
        ensures
            final(self).wf(),
            final(self).options@ == old(self).options@,
            final(self).selected == if up {
                (old(self).selected + old(self).options@.len() - 1) % (old(
                    self,
                ).options@.len() as int)
            } else {
                (old(self).selected + 1) % (old(self).options@.len() as int)
            },
    {
        let n = self.options.len();
        let s = self.selected;
        if up {
            proof {
                if s == 0 {
                    assert((n - 1) % (n as int) == n - 1) by (nonlinear_arith)
                        requires
                            n > 0,
                    ;
                } else {
                    assert((s + n - 1) % (n as int) == s - 1) by (nonlinear_arith)
                        requires
                            0 < s < n,
                    ;
                }
            }
            self.selected = if s == 0 { n - 1 } else { s - 1 };
        } else {
            proof {
                if s + 1 == n {
                    assert((s + 1) % (n as int) == 0) by (nonlinear_arith)
                        requires
                            s + 1 == n,
                            n > 0,
                    ;
                } else {
                    assert((s + 1) % (n as int) == s + 1) by (nonlinear_arith)
                        requires
                            s + 1 < n,
                    ;
                }
            }
            self.selected = if s + 1 == n { 0 } else { s + 1 };
        }
    }
}

impl MenuManager {
    pub fn new() -> (r: MenuManager)
        ensures
            r.main.wf(),
            r.main.selected == 0,
            r.main.options@.len() == 2,
            r.main.options@[0]@ == "Start Game"@,
            r.main.options@[1]@ == "Exit"@,
            Level::are_basic(r.level.levels@),
            r.state == MenuState::Main,
    {
        MenuManager { main: MainMenu::new(), level: LevelSelect::new(), state: MenuState::Main }
    }
}

} // verus!
