use vstd::prelude::*;

use crate::grid::GridPos;

verus! {

/// A level: its name, the cells blocked by obstacles, and its speed in ticks
/// per second.
#[derive(Clone, Debug)]
pub struct Level {
    pub name: &'static str,
    pub obstacles: Vec<GridPos>,
    pub speed: u32,
}

/// The levels offered for selection.
#[derive(Clone, Debug)]
pub struct LevelSelect {
    pub levels: Vec<Level>,
}

/// The obstacles of the hard level: a wall along row 7 from column 5 to 14,
/// then a wall along column 5 from row 7 to 11.
pub open spec fn hard_wall() -> Seq<GridPos> {
    Seq::new(10, |i: int| GridPos { x: (5 + i) as i32, y: 7 }) + Seq::new(
        5,
        |i: int| GridPos { x: 5, y: (7 + i) as i32 },
    )
}

impl Level {
    /// `levels` are the easy, medium and hard levels.
    pub open spec fn are_basic(levels: Seq<Level>) -> bool {
        &&& levels.len() == 3
        &&& levels[0].name@ == "Easy"@
        &&& levels[0].obstacles@ == Seq::<GridPos>::empty()
        &&& levels[0].speed == 5
        &&& levels[1].name@ == "Medium"@
        &&& levels[1].obstacles@ == seq![
            GridPos { x: 10, y: 10 },
            GridPos { x: 11, y: 10 },
            GridPos { x: 12, y: 10 },
        ]
        &&& levels[1].speed == 8
        &&& levels[2].name@ == "Hard"@
        &&& levels[2].obstacles@ == hard_wall()
        &&& levels[2].speed == 12
    }

    pub fn basic_levels() -> (r: Vec<Level>)
        ensures
            Level::are_basic(r@),
    {
        let mut hard: Vec<GridPos> = Vec::new();
        let mut x: i32 = 5;
        while x < 15
            invariant
                5 <= x <= 15,
                hard@ == Seq::new((x - 5) as nat, |i: int| GridPos { x: (5 + i) as i32, y: 7 }),
            decreases 15 - x,
        {
            hard.push(GridPos::new(x, 7));
            x = x + 1;
        }
        let mut y: i32 = 7;
        while y < 12
            invariant
                7 <= y <= 12,
                hard@ == Seq::new(10, |i: int| GridPos { x: (5 + i) as i32, y: 7 }) + Seq::new(
                    (y - 7) as nat,
                    |i: int| GridPos { x: 5, y: (7 + i) as i32 },
                ),
            decreases 12 - y,
        {
            hard.push(GridPos::new(5, y));
            y = y + 1;
        }
        let medium = vec![GridPos::new(10, 10), GridPos::new(11, 10), GridPos::new(12, 10)];
        let r = vec![
            Level { name: "Easy", obstacles: Vec::new(), speed: 5 },
            Level { name: "Medium", obstacles: medium, speed: 8 },
            Level { name: "Hard", obstacles: hard, speed: 12 },
        ];
        proof {
            reveal_strlit("Easy");
            reveal_strlit("Medium");
            reveal_strlit("Hard");
            assert(r@[1].obstacles@ =~= seq![
                GridPos { x: 10, y: 10 },
                GridPos { x: 11, y: 10 },
                GridPos { x: 12, y: 10 },
            ]);
        }
        r
    }
}

impl LevelSelect {
    pub fn new() -> (r: LevelSelect)
        ensures
            Level::are_basic(r.levels@),
    {
        LevelSelect { levels: Level::basic_levels() }
    }
}

} // verus!
