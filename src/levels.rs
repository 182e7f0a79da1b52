//! Levels: grids of tile kinds, the screens of a level, and the tiles that a
//! screen instantiates.
use crate::consts::TILES;
use crate::object::{Behavior, Direction};
use vstd::prelude::*;
use vstd::string::StrSliceExecFns;

verus! {

/// The kind of tile that occupies a grid cell.
#[derive(Clone, Copy, PartialEq, Eq, Debug, Structural)]
pub enum GridSpace {
    /// Stops the player from moving.
    Block,
    /// Kills the player.
    Spike,
    /// Kills the player and moves; not implemented.
    Enemy,
    /// Advances the player one level.
    Goal,
    /// The player starts here.
    StartingLocation,
    /// Moves the player to the neighbouring screen.
    Transition,
    /// Moves the player to the other side of this screen.
    Wrap,
    /// Holds the player on the axis across the touched side.
    StickyBlock,
    /// Carries the player right.
    ConveyorR,
    /// Carries the player left.
    ConveyorL,
    Slime,
    Water,
    /// Flips the player's gravity.
    Flipper,
    /// Nothing is here.
    Empty,
}

/// Why a screen could not be instantiated.
#[derive(Clone, Copy, PartialEq, Eq, Debug, Structural)]
pub enum LoadError {
    /// A cell holds a tile kind that has no implementation.
    Unimplemented { row: usize, col: usize },
}

/// A tile to instantiate: its cell, its kind and its behaviour.
#[derive(Clone, Copy, PartialEq, Eq, Debug, Structural)]
pub struct Placement {
    pub row: usize,
    pub col: usize,
    pub kind: GridSpace,
    pub behavior: Behavior,
}

/// The kind with palette number `id`; numbers past the palette are empty.
pub open spec fn from_id_spec(id: usize) -> GridSpace {
    if id == 1 {
        GridSpace::Block
    } else if id == 2 {
        GridSpace::Spike
    } else if id == 3 {
        GridSpace::Enemy
    } else if id == 4 {
        GridSpace::Goal
    } else if id == 5 {
        GridSpace::StartingLocation
    } else if id == 6 {
        GridSpace::Transition
    } else if id == 7 {
        GridSpace::Wrap
    } else if id == 8 {
        GridSpace::StickyBlock
    } else if id == 9 {
        GridSpace::ConveyorR
    } else if id == 10 {
        GridSpace::ConveyorL
    } else if id == 11 {
        GridSpace::Slime
    } else if id == 12 {
        GridSpace::Water
    } else if id == 13 {
        GridSpace::Flipper
    } else {
        GridSpace::Empty
    }
}

/// The behaviour of the tile that a kind instantiates; none for an empty
/// cell or the start cell (the enemy has none either: it is refused).
pub open spec fn behavior_of(kind: GridSpace) -> Option<Behavior> {
    match kind {
        GridSpace::Block => Some(Behavior::Stop),
        GridSpace::Spike => Some(Behavior::Kill),
        GridSpace::Goal => Some(Behavior::Advance),
        GridSpace::Transition => Some(Behavior::Portal),
        GridSpace::Wrap => Some(Behavior::Wrap),
        GridSpace::StickyBlock => Some(Behavior::Stick),
        GridSpace::ConveyorR => Some(Behavior::Move(Direction::Right)),
        GridSpace::ConveyorL => Some(Behavior::Move(Direction::Left)),
        GridSpace::Slime => Some(Behavior::Slime),
        GridSpace::Water => Some(Behavior::Water),
        GridSpace::Flipper => Some(Behavior::Flip),
        _ => None,
    }
}

/// The tiles of the first `n` cells of row `row`, left to right.
pub open spec fn row_placements(row: usize, line: Seq<GridSpace>, n: int) -> Seq<Placement>
    decreases n,
{
    if n <= 0 {
        Seq::empty()
    } else {
        let before = row_placements(row, line, n - 1);
        match behavior_of(line[n - 1]) {
            Some(b) => before.push(
                Placement { row, col: (n - 1) as usize, kind: line[n - 1], behavior: b },
            ),
            None => before,
        }
    }
}

/// The tiles of the first `n` rows, row by row.
pub open spec fn grid_placements(rows: Seq<Vec<GridSpace>>, n: int) -> Seq<Placement>
    decreases n,
{
    if n <= 0 {
        Seq::empty()
    } else {
        grid_placements(rows, n - 1) + row_placements(
            (n - 1) as usize,
            rows[n - 1]@,
            rows[n - 1]@.len() as int,
        )
    }
}

/// Some cell of the grid holds an enemy.
pub open spec fn has_enemy(rows: Seq<Vec<GridSpace>>) -> bool {
    exists|i: int, j: int|
        0 <= i < rows.len() && 0 <= j < rows[i]@.len() && #[trigger] rows[i]@[j]
            == GridSpace::Enemy
}

impl GridSpace {
    /// Number of tile kinds in the palette.
    pub const MAX: usize = 14;

    pub fn from_id(id: usize) -> (r: GridSpace)
        ensures
            r == from_id_spec(id),
    {
        match id {
            0 => GridSpace::Empty,
            1 => GridSpace::Block,
            2 => GridSpace::Spike,
            3 => GridSpace::Enemy,
            4 => GridSpace::Goal,
            5 => GridSpace::StartingLocation,
            6 => GridSpace::Transition,
            7 => GridSpace::Wrap,
            8 => GridSpace::StickyBlock,
            9 => GridSpace::ConveyorR,
            10 => GridSpace::ConveyorL,
            11 => GridSpace::Slime,
            12 => GridSpace::Water,
            13 => GridSpace::Flipper,
            _ => GridSpace::Empty,
        }
    }

    /// The behaviour of the tile this kind instantiates.
    pub fn behavior(&self) -> (r: Option<Behavior>)
        ensures
            r == behavior_of(*self),
    {
        match self {
            GridSpace::Block => Some(Behavior::Stop),
            GridSpace::Spike => Some(Behavior::Kill),
            GridSpace::Goal => Some(Behavior::Advance),
            GridSpace::Transition => Some(Behavior::Portal),
            GridSpace::Wrap => Some(Behavior::Wrap),
            GridSpace::StickyBlock => Some(Behavior::Stick),
            GridSpace::ConveyorR => Some(Behavior::Move(Direction::Right)),
            GridSpace::ConveyorL => Some(Behavior::Move(Direction::Left)),
            GridSpace::Slime => Some(Behavior::Slime),
            GridSpace::Water => Some(Behavior::Water),
            GridSpace::Flipper => Some(Behavior::Flip),
            _ => Option::None,
        }
    }
}

/// The tiles that a grid instantiates, row by row and left to right; an
/// enemy anywhere refuses the whole grid.
pub fn tile_placements(contents: &Vec<Vec<GridSpace>>) -> (r: Result<Vec<Placement>, LoadError>)
    ensures
        r is Err <==> has_enemy(contents@),
        r matches Ok(v) ==> v@ == grid_placements(contents@, contents@.len() as int),
        r matches Err(LoadError::Unimplemented { row, col }) ==> row < contents@.len() && col
            < contents@[row as int]@.len() && contents@[row as int]@[col as int]
            == GridSpace::Enemy,
{
    let mut out: Vec<Placement> = Vec::new();
    let mut i: usize = 0;
    while i < contents.len()
        invariant
            i <= contents@.len(),
            out@ == grid_placements(contents@, i as int),
            forall|a: int, b: int|
                0 <= a < i && 0 <= b < contents@[a]@.len() ==> #[trigger] contents@[a]@[b]
                    != GridSpace::Enemy,
        decreases contents@.len() - i,
    {
        let line = &contents[i];
        let ghost start = out@;
        let mut j: usize = 0;
        while j < line.len()
            invariant
                i < contents@.len(),
                line == contents@[i as int],
                j <= line@.len(),
                start == grid_placements(contents@, i as int),
                out@ == start + row_placements(i, line@, j as int),
                forall|b: int| 0 <= b < j ==> #[trigger] line@[b] != GridSpace::Enemy,
            decreases line@.len() - j,
        {
            let kind = line[j];
            if matches!(kind, GridSpace::Enemy) {
                return Err(LoadError::Unimplemented { row: i, col: j });
            }
            match kind.behavior() {
                Some(b) => {
                    out.push(Placement { row: i, col: j, kind, behavior: b });
                },
                Option::None => {},
            }
            proof {
                assert(row_placements(i, line@, j + 1) == match behavior_of(line@[j as int]) {
                    Some(b) => row_placements(i, line@, j as int).push(
                        Placement { row: i, col: j, kind: line@[j as int], behavior: b },
                    ),
                    None => row_placements(i, line@, j as int),
                });
                assert(out@ =~= start + row_placements(i, line@, j + 1));
            }
            j = j + 1;
        }
        i = i + 1;
    }
    Ok(out)
}

/// The kind that a character of a text level stands for.
pub open spec fn cell_of(c: char) -> Option<GridSpace> {
    if c == 'B' {
        Some(GridSpace::Block)
    } else if c == 'S' {
        Some(GridSpace::Spike)
    } else if c == 'E' {
        Some(GridSpace::Enemy)
    } else if c == 'P' {
        Some(GridSpace::StartingLocation)
    } else if c == 'G' {
        Some(GridSpace::Goal)
    } else if c == 'W' {
        Some(GridSpace::Wrap)
    } else if c == 'T' {
        Some(GridSpace::Transition)
    } else if c == '_' {
        Some(GridSpace::Empty)
    } else {
        None
    }
}

/// The rows of a text level: a line break starts a new row, a known
/// character adds a cell to the current row, any other character is skipped.
pub open spec fn parse_rows(s: Seq<char>) -> Seq<Seq<GridSpace>>
    decreases s.len(),
{
    if s.len() == 0 {
        seq![Seq::<GridSpace>::empty()]
    } else {
        let rows = parse_rows(s.drop_last());
        let c = s.last();
        if c == '\n' {
            rows.push(Seq::<GridSpace>::empty())
        } else {
            match cell_of(c) {
                Some(g) => rows.update(rows.len() - 1, rows.last().push(g)),
                None => rows,
            }
        }
    }
}

/// A text level has at least one row.
proof fn lemma_parse_rows_nonempty(s: Seq<char>)
    ensures
        parse_rows(s).len() >= 1,
    decreases s.len(),
{
    if s.len() > 0 {
        lemma_parse_rows_nonempty(s.drop_last());
    }
}

/// The cell of the last start marker, in reading order.
pub open spec fn is_last_start(rows: Seq<Vec<GridSpace>>, i: int, j: int) -> bool {
    &&& 0 <= i < rows.len()
    &&& 0 <= j < rows[i]@.len()
    &&& rows[i]@[j] == GridSpace::StartingLocation
    &&& forall|a: int, b: int|
        0 <= a < rows.len() && 0 <= b < rows[a]@.len() && (a > i || (a == i && b > j))
            ==> #[trigger] rows[a]@[b] != GridSpace::StartingLocation
}

/// A cell was found, and it does not come before cell `(a, b)` in reading
/// order.
pub open spec fn not_before(found: Option<(usize, usize)>, a: int, b: int) -> bool {
    match found {
        Some((fi, fj)) => a < fi || (a == fi && b <= fj),
        None => false,
    }
}

/// The cell, as `(row, col)`, where the player starts: the last start marker
/// in reading order.
pub fn start_cell(contents: &Vec<Vec<GridSpace>>) -> (r: Option<(usize, usize)>)
    ensures
        r matches Some((i, j)) ==> is_last_start(contents@, i as int, j as int),
        r is None ==> forall|a: int, b: int|
            0 <= a < contents@.len() && 0 <= b < contents@[a]@.len() ==> #[trigger] contents@[a]@[b]
                != GridSpace::StartingLocation,
{
    let mut found: Option<(usize, usize)> = Option::None;
    let mut i: usize = 0;
    while i < contents.len()
        invariant
            i <= contents@.len(),
            found matches Some((fi, fj)) ==> fi < i && fj < contents@[fi as int]@.len()
                && contents@[fi as int]@[fj as int] == GridSpace::StartingLocation,
            forall|a: int, b: int|
                0 <= a < i && 0 <= b < contents@[a]@.len() && #[trigger] contents@[a]@[b]
                    == GridSpace::StartingLocation ==> not_before(found, a, b),
        decreases contents@.len() - i,
    {
        let line = &contents[i];
        let mut j: usize = 0;
        while j < line.len()
            invariant
                i < contents@.len(),
                line == contents@[i as int],
                j <= line@.len(),
                found matches Some((fi, fj)) ==> fi <= i && fj < contents@[fi as int]@.len()
                    && contents@[fi as int]@[fj as int] == GridSpace::StartingLocation && (fi < i
                    || fj < j),
                forall|a: int, b: int|
                    0 <= a < i && 0 <= b < contents@[a]@.len() && #[trigger] contents@[a]@[b]
                        == GridSpace::StartingLocation ==> not_before(found, a, b),
                forall|b: int|
                    0 <= b < j && #[trigger] line@[b] == GridSpace::StartingLocation
                        ==> not_before(found, i as int, b) && found->Some_0.0 == i,
            decreases line@.len() - j,
        {
            if matches!(line[j], GridSpace::StartingLocation) {
                found = Some((i, j));
            }
            j = j + 1;
        }
        i = i + 1;
    }
    found
}

impl<T> LevelGrid<T> {
    /// Reads a level written as text, one character per cell: `B` block,
    /// `S` spike, `E` enemy, `P` start, `G` goal, `W` wrap, `T` transition,
    /// `_` empty, and a line break between rows; other characters are skipped.
    pub fn from_str(contents: String) -> (r: LevelGrid<T>)
        ensures
            r.contents@.len() == parse_rows(contents@).len(),
            forall|i: int|
                0 <= i < r.contents@.len() ==> (#[trigger] r.contents@[i])@ == parse_rows(
                    contents@,
                )[i],
            r.others@.len() == 0,
    {
        let text = contents.as_str();
        let n = text.unicode_len();
        let mut res: Vec<Vec<GridSpace>> = Vec::new();
        res.push(Vec::new());
        let mut i: usize = 0;
        proof {
            assert(text@.take(0) =~= Seq::<char>::empty());
        }
        while i < n
            invariant
                n == text@.len(),
                text@ == contents@,
                i <= n,
                res@.len() == parse_rows(text@.take(i as int)).len(),
                forall|r: int|
                    0 <= r < res@.len() ==> (#[trigger] res@[r])@ == parse_rows(
                        text@.take(i as int),
                    )[r],
            decreases n - i,
        {
            let c = text.get_char(i);
            let ghost before = parse_rows(text@.take(i as int));
            proof {
                assert(text@.take(i + 1).drop_last() =~= text@.take(i as int));
                assert(text@.take(i + 1).last() == c);
                lemma_parse_rows_nonempty(text@.take(i as int));
            }
            let last = res.len() - 1;
            let cell = if c == 'B' {
                Some(GridSpace::Block)
            } else if c == 'S' {
                Some(GridSpace::Spike)
            } else if c == 'E' {
                Some(GridSpace::Enemy)
            } else if c == 'P' {
                Some(GridSpace::StartingLocation)
            } else if c == 'G' {
                Some(GridSpace::Goal)
            } else if c == 'W' {
                Some(GridSpace::Wrap)
            } else if c == 'T' {
                Some(GridSpace::Transition)
            } else if c == '_' {
                Some(GridSpace::Empty)
            } else {
                Option::None
            };
            if c == '\n' {
                res.push(Vec::new());
                proof {
                    assert forall|r: int| 0 <= r < res@.len() implies (#[trigger] res@[r])@
                        == parse_rows(text@.take(i + 1))[r] by {
                        if r == res@.len() - 1 {
                            assert(res@[r]@ =~= Seq::<GridSpace>::empty());
                        }
                    }
                }
            } else {
                match cell {
                    Some(g) => {
                        let mut row: Vec<GridSpace> = Vec::new();
                        std::mem::swap(&mut row, &mut res[last]);
                        row.push(g);
                        std::mem::swap(&mut row, &mut res[last]);
                    },
                    Option::None => {},
                }
            }
            i = i + 1;
        }
        proof {
            assert(text@.take(n as int) =~= text@);
        }
        LevelGrid { contents: res, others: Vec::new() }
    }
}

/// One screen of a level: its grid of tile kinds and its freeform tiles.
#[derive(Clone)]
pub struct LevelGrid<T> {
    pub contents: Vec<Vec<GridSpace>>,
    pub others: Vec<T>,
}

impl<T> LevelGrid<T> {
    /// A screen of `TILES + 2` by `TILES + 2` empty cells with no freeform
    /// tiles.
    pub fn new() -> (r: LevelGrid<T>)
        ensures
            r.contents@.len() == TILES + 2,
            forall|i: int|
                0 <= i < TILES + 2 ==> (#[trigger] r.contents@[i])@.len() == TILES + 2,
            forall|i: int, j: int|
                0 <= i < TILES + 2 && 0 <= j < TILES + 2 ==> #[trigger] r.contents@[i]@[j]
                    == GridSpace::Empty,
            r.others@.len() == 0,
    {
        let mut contents: Vec<Vec<GridSpace>> = Vec::new();
        let mut i: usize = 0;
        while i < TILES + 2
            invariant
                i <= TILES + 2,
                contents@.len() == i,
                forall|a: int| 0 <= a < i ==> (#[trigger] contents@[a])@.len() == TILES + 2,
                forall|a: int, b: int|
                    0 <= a < i && 0 <= b < TILES + 2 ==> #[trigger] contents@[a]@[b]
                        == GridSpace::Empty,
            decreases TILES + 2 - i,
        {
            let mut line: Vec<GridSpace> = Vec::new();
            let mut j: usize = 0;
            while j < TILES + 2
                invariant
                    j <= TILES + 2,
                    line@.len() == j,
                    forall|b: int| 0 <= b < j ==> #[trigger] line@[b] == GridSpace::Empty,
                decreases TILES + 2 - j,
            {
                line.push(GridSpace::Empty);
                j = j + 1;
            }
            contents.push(line);
            i = i + 1;
        }
        LevelGrid { contents, others: Vec::new() }
    }

    /// Replaces the freeform tiles.
    pub fn add_others(self, others: Vec<T>) -> (r: LevelGrid<T>)
        ensures
            r.contents == self.contents,
            r.others == others,
    {
        LevelGrid { contents: self.contents, others }
    }
}

/// A level: a grid of screens, `grid[row][col]`, and the cell of its start
/// screen as `[col, row]`.
#[derive(Clone)]
pub struct Level<T> {
    pub grid: Vec<Vec<LevelGrid<T>>>,
    pub player_start: [usize; 2],
}

impl<T> Level<T> {
    /// At least one screen, rows of equal length, and the start screen
    /// inside the grid.
    pub open spec fn wf(&self) -> bool {
        &&& self.grid@.len() > 0
        &&& self.grid@[0]@.len() > 0
        &&& forall|i: int|
            0 <= i < self.grid@.len() ==> (#[trigger] self.grid@[i])@.len()
                == self.grid@[0]@.len()
        &&& self.player_start[1] < self.grid@.len()
        &&& self.player_start[0] < self.grid@[0]@.len()
    }

    /// The screen the level starts on.
    pub fn start(&self) -> (r: &LevelGrid<T>)
        requires
            self.wf(),
        ensures
            *r == self.grid@[self.player_start[1] as int]@[self.player_start[0] as int],
    {
        &self.grid[self.player_start[1]][self.player_start[0]]
    }
}

} // verus!
