//! The level editor's model: a grid of screens that grows and shrinks
//! around the screen being edited, the player's start marker, and the tile
//! kind that the mouse places.
use crate::game::lemma_wrap_step;
use crate::input::InputVars;
use crate::consts::{MEDIT_GUIDE_SIZE, MEDIT_TILES, TILES};
use crate::levels::{from_id_spec, GridSpace, LevelGrid};
use crate::render::RenderJobID;
use vstd::prelude::*;

verus! {

/// Render jobs of the editor: one per cell of the board, the freeform tiles
/// of the screen, the palette, and the tile under the mouse.
pub struct MapRenderer {
    pub grid: Vec<Vec<RenderJobID>>,
    pub others: Vec<RenderJobID>,
    pub guide: Vec<RenderJobID>,
    pub mouse_hover: RenderJobID,
}

/// The cell `[y][x]` of screen `[r][c]`.
pub open spec fn cell_at<T>(grid: Seq<Vec<LevelGrid<T>>>, r: int, c: int, y: int, x: int) -> GridSpace {
    grid[r]@[c].contents@[y]@[x]
}

/// The cell exists.
pub open spec fn has_cell<T>(grid: Seq<Vec<LevelGrid<T>>>, r: int, c: int, y: int, x: int) -> bool {
    &&& 0 <= r < grid.len()
    &&& 0 <= c < grid[r]@.len()
    &&& 0 <= y < grid[r]@[c].contents@.len()
    &&& 0 <= x < grid[r]@[c].contents@[y]@.len()
}

/// A screen with blank cells and no freeform tiles.
pub open spec fn is_blank<T>(g: LevelGrid<T>) -> bool {
    &&& g.contents@.len() == TILES + 2
    &&& forall|i: int| 0 <= i < TILES + 2 ==> (#[trigger] g.contents@[i])@.len() == TILES + 2
    &&& forall|i: int, j: int|
        0 <= i < TILES + 2 && 0 <= j < TILES + 2 ==> #[trigger] g.contents@[i]@[j]
            == GridSpace::Empty
    &&& g.others@.len() == 0
}

/// `new` is `old` with a row of `cols` blank screens inserted at row `at`.
pub open spec fn inserted_row<T>(
    old: Seq<Vec<LevelGrid<T>>>,
    new: Seq<Vec<LevelGrid<T>>>,
    at: int,
    cols: int,
) -> bool {
    &&& new.len() == old.len() + 1
    &&& forall|r: int| 0 <= r < at ==> #[trigger] new[r] == old[r]
    &&& forall|r: int| at < r < new.len() ==> #[trigger] new[r] == old[r - 1]
    &&& new[at]@.len() == cols
    &&& forall|c: int| 0 <= c < cols ==> is_blank(#[trigger] new[at]@[c])
}

/// `new` is `old` with a blank screen inserted at column `at`.
pub open spec fn inserted_screen<T>(old: Seq<LevelGrid<T>>, new: Seq<LevelGrid<T>>, at: int) -> bool {
    &&& new.len() == old.len() + 1
    &&& forall|c: int| 0 <= c < at ==> #[trigger] new[c] == old[c]
    &&& forall|c: int| at < c < new.len() ==> #[trigger] new[c] == old[c - 1]
    &&& is_blank(new[at])
}

/// A row of `n` blank screens.
fn blank_row<T>(n: usize) -> (r: Vec<LevelGrid<T>>)
    ensures
        r@.len() == n,
        forall|c: int| 0 <= c < n ==> is_blank(#[trigger] r@[c]),
{
    let mut row: Vec<LevelGrid<T>> = Vec::new();
    let mut i: usize = 0;
    while i < n
        invariant
            i <= n,
            row@.len() == i,
            forall|c: int| 0 <= c < i ==> is_blank(#[trigger] row@[c]),
        decreases n - i,
    {
        row.push(LevelGrid::new());
        i = i + 1;
    }
    row
}

/// Key codes that the editor listens to.
#[derive(Clone, Copy, PartialEq, Eq, Debug, Structural)]
pub struct EditorKeys {
    pub left_ctrl: u32,
    pub right_ctrl: u32,
    pub left_alt: u32,
    pub right_alt: u32,
    pub left_shift: u32,
    pub right_shift: u32,
    pub escape: u32,
    pub enter: u32,
    pub backspace: u32,
    pub up: u32,
    pub down: u32,
    pub left: u32,
    pub right: u32,
}

/// What a frame's keys ask of the editor.
#[derive(Clone, Copy, PartialEq, Eq, Debug, Structural)]
pub enum EditCommand {
    /// Leave without saving.
    Quit,
    /// Save and go on.
    Save,
    /// Save, and leave once saved.
    SaveAndQuit,
    /// A row of screens above the current one, which becomes current.
    GrowUp,
    /// A row of screens below the current one, which becomes current.
    GrowDown,
    /// A column of screens left of the current one, which becomes current.
    GrowLeft,
    /// A column of screens right of the current one, which becomes current.
    GrowRight,
    /// Remove the current column of screens.
    ShrinkColumn,
    /// Remove the current row of screens.
    ShrinkRow,
    /// Empty the current screen.
    ClearScreen,
    MoveUp,
    MoveDown,
    MoveLeft,
    MoveRight,
    Nothing,
}

/// The command of a frame: with control held, escape quits, enter saves,
/// arrows grow the grid and backspace removes a column; with alt held, enter
/// saves and quits and backspace removes a row; with shift held nothing
/// happens; with no modifier, backspace empties the screen and arrows move.
pub open spec fn command_of(input: InputVars, k: EditorKeys) -> EditCommand {
    let held = input.held();
    if held.contains(k.left_ctrl) || held.contains(k.right_ctrl) {
        if input.pressed(k.escape) {
            EditCommand::Quit
        } else if input.pressed(k.enter) {
            EditCommand::Save
        } else if input.pressed(k.up) {
            EditCommand::GrowUp
        } else if input.pressed(k.down) {
            EditCommand::GrowDown
        } else if input.pressed(k.left) {
            EditCommand::GrowLeft
        } else if input.pressed(k.right) {
            EditCommand::GrowRight
        } else if input.pressed(k.backspace) {
            EditCommand::ShrinkColumn
        } else {
            EditCommand::Nothing
        }
    } else if held.contains(k.right_alt) || held.contains(k.left_alt) {
        if input.pressed(k.enter) {
            EditCommand::SaveAndQuit
        } else if input.pressed(k.backspace) {
            EditCommand::ShrinkRow
        } else {
            EditCommand::Nothing
        }
    } else if held.contains(k.left_shift) || held.contains(k.right_shift) {
        EditCommand::Nothing
    } else if input.pressed(k.backspace) {
        EditCommand::ClearScreen
    } else if input.pressed(k.up) {
        EditCommand::MoveUp
    } else if input.pressed(k.down) {
        EditCommand::MoveDown
    } else if input.pressed(k.left) {
        EditCommand::MoveLeft
    } else if input.pressed(k.right) {
        EditCommand::MoveRight
    } else {
        EditCommand::Nothing
    }
}

/// Reads this frame's command from the keys.
pub fn editor_command(input: &InputVars, k: &EditorKeys) -> (r: EditCommand)
    ensures
        r == command_of(*input, *k),
{
    if input.key_down(k.left_ctrl) || input.key_down(k.right_ctrl) {
        if input.key_pressed(k.escape) {
            EditCommand::Quit
        } else if input.key_pressed(k.enter) {
            EditCommand::Save
        } else if input.key_pressed(k.up) {
            EditCommand::GrowUp
        } else if input.key_pressed(k.down) {
            EditCommand::GrowDown
        } else if input.key_pressed(k.left) {
            EditCommand::GrowLeft
        } else if input.key_pressed(k.right) {
            EditCommand::GrowRight
        } else if input.key_pressed(k.backspace) {
            EditCommand::ShrinkColumn
        } else {
            EditCommand::Nothing
        }
    } else if input.key_down(k.right_alt) || input.key_down(k.left_alt) {
        if input.key_pressed(k.enter) {
            EditCommand::SaveAndQuit
        } else if input.key_pressed(k.backspace) {
            EditCommand::ShrinkRow
        } else {
            EditCommand::Nothing
        }
    } else if input.key_down(k.left_shift) || input.key_down(k.right_shift) {
        EditCommand::Nothing
    } else if input.key_pressed(k.backspace) {
        EditCommand::ClearScreen
    } else if input.key_pressed(k.up) {
        EditCommand::MoveUp
    } else if input.key_pressed(k.down) {
        EditCommand::MoveDown
    } else if input.key_pressed(k.left) {
        EditCommand::MoveLeft
    } else if input.key_pressed(k.right) {
        EditCommand::MoveRight
    } else {
        EditCommand::Nothing
    }
}

/// A level being edited.
pub struct EditMap<T> {
    /// Screens, `grid[row][col]`.
    pub grid: Vec<Vec<LevelGrid<T>>>,
    /// The screen being edited, `[col, row]`.
    pub current: [usize; 2],
    /// Columns and rows of screens.
    pub size: [usize; 2],
    /// The start marker: screen column, screen row, cell row, cell column.
    pub player_start: [usize; 4],
    /// The tile kind that a left click places.
    pub current_item: GridSpace,
}

impl<T> EditMap<T> {
    /// The grid has `size[1]` rows of `size[0]` screens, at least one, and
    /// the current screen and the start screen lie inside it.
    pub open spec fn wf(&self) -> bool {
        &&& self.size[0] >= 1
        &&& self.size[1] >= 1
        &&& self.grid@.len() == self.size[1]
        &&& forall|r: int| 0 <= r < self.grid@.len() ==> (#[trigger] self.grid@[r])@.len() == self.size[0]
        &&& self.current[0] < self.size[0]
        &&& self.current[1] < self.size[1]
        &&& self.player_start[0] < self.size[0]
        &&& self.player_start[1] < self.size[1]
    }

    /// One screen with the start marker in its first cell.
    pub fn new() -> (r: EditMap<T>)
        ensures
            r.wf(),
            r.size == [1usize, 1],
            r.current == [0usize, 0],
            r.player_start == [0usize, 0, 0, 0],
            r.current_item == GridSpace::Empty,
            cell_at(r.grid@, 0, 0, 0, 0) == GridSpace::StartingLocation,
    {
        let mut screen: LevelGrid<T> = LevelGrid::new();
        screen.contents[0].set(0, GridSpace::StartingLocation);
        let mut row: Vec<LevelGrid<T>> = Vec::new();
        row.push(screen);
        let mut grid: Vec<Vec<LevelGrid<T>>> = Vec::new();
        grid.push(row);
        EditMap {
            grid,
            current: [0, 0],
            size: [1, 1],
            player_start: [0; 4],
            current_item: GridSpace::Empty,
        }
    }

    /// Inserts a row of blank screens at row `at`; the start marker's row
    /// follows the rows it was on.
    fn insert_row(&mut self, at: usize)
        requires
            old(self).wf(),
            at <= old(self).size[1],
            old(self).size[1] < usize::MAX,
        ensures
            final(self).wf(),
            final(self).size == [old(self).size[0], (old(self).size[1] + 1) as usize],
            final(self).current == old(self).current,
            final(self).current_item == old(self).current_item,
            final(self).player_start == (if old(self).player_start[1] >= at {
                [
                    old(self).player_start[0],
                    (old(self).player_start[1] + 1) as usize,
                    old(self).player_start[2],
                    old(self).player_start[3],
                ]
            } else {
                old(self).player_start
            }),
            inserted_row(old(self).grid@, final(self).grid@, at as int, old(self).size[0] as int),
    {
        if self.player_start[1] >= at {
            self.player_start[1] = self.player_start[1] + 1;
        }
        let row = blank_row(self.size[0]);
        self.grid.insert(at, row);
        self.size[1] = self.size[1] + 1;
        proof {
            assert forall|r: int| 0 <= r < self.grid@.len() implies (#[trigger] self.grid@[r])@.len()
                == self.size[0] by {
                if r < at {
                    assert(self.grid@[r] == old(self).grid@[r]);
                } else if r > at {
                    assert(self.grid@[r] == old(self).grid@[r - 1]);
                }
            }
        }
    }

    /// Inserts a column of blank screens at column `at`; the start marker's
    /// column follows the columns it was on.
    fn insert_column(&mut self, at: usize)
        requires
            old(self).wf(),
            at <= old(self).size[0],
            old(self).size[0] < usize::MAX,
        ensures
            final(self).wf(),
            final(self).size == [(old(self).size[0] + 1) as usize, old(self).size[1]],
            final(self).current == old(self).current,
            final(self).current_item == old(self).current_item,
            final(self).player_start == (if old(self).player_start[0] >= at {
                [
                    (old(self).player_start[0] + 1) as usize,
                    old(self).player_start[1],
                    old(self).player_start[2],
                    old(self).player_start[3],
                ]
            } else {
                old(self).player_start
            }),
            final(self).grid@.len() == old(self).grid@.len(),
            forall|r: int|
                0 <= r < old(self).grid@.len() ==> inserted_screen(
                    old(self).grid@[r]@,
                    #[trigger] final(self).grid@[r]@,
                    at as int,
                ),
    {
        if self.player_start[0] >= at {
            self.player_start[0] = self.player_start[0] + 1;
        }
        let ghost start = self.player_start;
        let n = self.grid.len();
        let mut i: usize = 0;
        while i < n
            invariant
                self.size == old(self).size,
                self.current == old(self).current,
                self.current_item == old(self).current_item,
                self.player_start == start,
                n == self.grid@.len(),
                n == old(self).grid@.len(),
                i <= n,
                at <= old(self).size[0],
                old(self).wf(),
                forall|r: int|
                    0 <= r < i ==> inserted_screen(
                        old(self).grid@[r]@,
                        #[trigger] self.grid@[r]@,
                        at as int,
                    ),
                forall|r: int| i <= r < n ==> #[trigger] self.grid@[r] == old(self).grid@[r],
            decreases n - i,
        {
            let ghost before = self.grid@[i as int]@;
            self.grid[i].insert(at, LevelGrid::new());
            proof {
                assert(before == old(self).grid@[i as int]@);
            }
            i = i + 1;
        }
        self.size[0] = self.size[0] + 1;
        proof {
            assert forall|r: int| 0 <= r < self.grid@.len() implies (#[trigger] self.grid@[r])@.len()
                == self.size[0] by {
                assert(inserted_screen(old(self).grid@[r]@, self.grid@[r]@, at as int));
            }
        }
    }

    /// Inserts a row of blank screens above the current one, which is then
    /// the new row.
    pub fn grow_vert(&mut self)
        requires
            old(self).wf(),
            old(self).size[1] < usize::MAX,
        ensures
            final(self).wf(),
            final(self).size == [old(self).size[0], (old(self).size[1] + 1) as usize],
            final(self).current == old(self).current,
            final(self).player_start[1] == (if old(self).player_start[1] >= old(self).current[1] {
                old(self).player_start[1] + 1
            } else {
                old(self).player_start[1] as int
            }),
            inserted_row(
                old(self).grid@,
                final(self).grid@,
                old(self).current[1] as int,
                old(self).size[0] as int,
            ),
    {
        let at = self.current[1];
        self.insert_row(at);
    }

    /// Inserts a row of blank screens below the current one.
    pub fn grow_vert_plus(&mut self)
        requires
            old(self).wf(),
            old(self).size[1] < usize::MAX,
        ensures
            final(self).wf(),
            final(self).size == [old(self).size[0], (old(self).size[1] + 1) as usize],
            final(self).current == old(self).current,
            final(self).player_start[1] == (if old(self).player_start[1] >= old(self).current[1]
                + 1 {
                old(self).player_start[1] + 1
            } else {
                old(self).player_start[1] as int
            }),
            inserted_row(
                old(self).grid@,
                final(self).grid@,
                old(self).current[1] + 1,
                old(self).size[0] as int,
            ),
    {
        let at = self.current[1] + 1;
        self.insert_row(at);
    }

    /// Inserts a column of blank screens left of the current one, which is
    /// then the new column.
    pub fn grow_horizon(&mut self)
        requires
            old(self).wf(),
            old(self).size[0] < usize::MAX,
        ensures
            final(self).wf(),
            final(self).size == [(old(self).size[0] + 1) as usize, old(self).size[1]],
            final(self).current == old(self).current,
            final(self).player_start[0] == (if old(self).player_start[0] >= old(self).current[0] {
                old(self).player_start[0] + 1
            } else {
                old(self).player_start[0] as int
            }),
            final(self).grid@.len() == old(self).grid@.len(),
            forall|r: int|
                0 <= r < old(self).grid@.len() ==> inserted_screen(
                    old(self).grid@[r]@,
                    #[trigger] final(self).grid@[r]@,
                    old(self).current[0] as int,
                ),
    {
        let at = self.current[0];
        self.insert_column(at);
    }

    /// Inserts a column of blank screens right of the current one.
    pub fn grow_horizon_plus(&mut self)
        requires
            old(self).wf(),
            old(self).size[0] < usize::MAX,
        ensures
            final(self).wf(),
            final(self).size == [(old(self).size[0] + 1) as usize, old(self).size[1]],
            final(self).current == old(self).current,
            final(self).player_start[0] == (if old(self).player_start[0] >= old(self).current[0]
                + 1 {
                old(self).player_start[0] + 1
            } else {
                old(self).player_start[0] as int
            }),
            final(self).grid@.len() == old(self).grid@.len(),
            forall|r: int|
                0 <= r < old(self).grid@.len() ==> inserted_screen(
                    old(self).grid@[r]@,
                    #[trigger] final(self).grid@[r]@,
                    old(self).current[0] + 1,
                ),
    {
        let at = self.current[0] + 1;
        self.insert_column(at);
    }

    /// Back to a single screen with the start marker in its first cell.
    pub fn clear(&mut self)
        ensures
            final(self).wf(),
            final(self).size == [1usize, 1],
            final(self).current == [0usize, 0],
            final(self).player_start == [0usize, 0, 0, 0],
            final(self).current_item == old(self).current_item,
            cell_at(final(self).grid@, 0, 0, 0, 0) == GridSpace::StartingLocation,
    {
        let item = self.current_item;
        *self = EditMap::new();
        self.current_item = item;
    }

    /// Puts the start marker in the first cell of the first screen, where
    /// that cell exists.
    fn mark_first_cell(&mut self)
        requires
            old(self).wf(),
        ensures
            final(self).wf(),
            final(self).size == old(self).size,
            final(self).current == old(self).current,
            final(self).player_start == old(self).player_start,
            final(self).current_item == old(self).current_item,
            final(self).grid@.len() == old(self).grid@.len(),
            forall|r: int| 1 <= r < old(self).grid@.len() ==> #[trigger] final(self).grid@[r] == old(self).grid@[r],
            has_cell(old(self).grid@, 0, 0, 0, 0) ==> has_cell(final(self).grid@, 0, 0, 0, 0)
                && cell_at(final(self).grid@, 0, 0, 0, 0) == GridSpace::StartingLocation,
            !has_cell(old(self).grid@, 0, 0, 0, 0) ==> final(self).grid == old(self).grid,
    {
        if self.grid[0][0].contents.len() > 0 && self.grid[0][0].contents[0].len() > 0 {
            self.grid[0][0].contents[0].set(0, GridSpace::StartingLocation);
            proof {
                assert forall|r: int| 0 <= r < self.grid@.len() implies (#[trigger] self.grid@[r])@.len()
                    == self.size[0] by {
                    if r > 0 {
                        assert(self.grid@[r] == old(self).grid@[r]);
                    }
                }
            }
        }
    }

    /// Removes the current row of screens; the last one left is cleared
    /// instead. A start marker on the removed row moves to the first cell of
    /// the first screen.
    pub fn shrink_vert(&mut self)
        requires
            old(self).wf(),
        ensures
            final(self).wf(),
            final(self).current_item == old(self).current_item,
            old(self).size[1] == 1 ==> final(self).size == [1usize, 1] && final(self).current == [
                0usize,
                0,
            ] && final(self).player_start == [0usize, 0, 0, 0] && cell_at(final(self).grid@, 0, 0, 0, 0)
                == GridSpace::StartingLocation,
            old(self).size[1] > 1 ==> {
                let removed = old(self).grid@.remove(old(self).current[1] as int);
                let cur = old(self).current[1];
                let start = old(self).player_start;
                &&& final(self).size == [old(self).size[0], (old(self).size[1] - 1) as usize]
                &&& final(self).current == [
                    old(self).current[0],
                    if cur == old(self).size[1] - 1 {
                        (cur - 1) as usize
                    } else {
                        cur
                    },
                ]
                &&& start[1] == cur ==> final(self).player_start == [0usize, 0, 0, 0]
                    && final(self).grid@.len() == removed.len() && (forall|r: int|
                    1 <= r < removed.len() ==> #[trigger] final(self).grid@[r] == removed[r]) && (
                has_cell(removed, 0, 0, 0, 0) ==> cell_at(final(self).grid@, 0, 0, 0, 0)
                    == GridSpace::StartingLocation)
                &&& start[1] != cur ==> final(self).grid@ == removed && final(self).player_start == [
                    start[0],
                    if start[1] > cur {
                        (start[1] - 1) as usize
                    } else {
                        start[1]
                    },
                    start[2],
                    start[3],
                ]
            },
    {
        if self.size[1] == 1 {
            self.clear();
            return;
        }
        let cur = self.current[1];
        let reset = self.player_start[1] == cur;
        if reset {
            self.player_start = [0, 0, 0, 0];
        } else if self.player_start[1] > cur {
            self.player_start[1] = self.player_start[1] - 1;
        }
        self.grid.remove(cur);
        self.size[1] = self.size[1] - 1;
        if self.size[1] == cur {
            self.current[1] = cur - 1;
        }
        proof {
            assert forall|r: int| 0 <= r < self.grid@.len() implies (#[trigger] self.grid@[r])@.len()
                == self.size[0] by {
                if r < cur {
                    assert(self.grid@[r] == old(self).grid@[r]);
                } else {
                    assert(self.grid@[r] == old(self).grid@[r + 1]);
                }
            }
        }
        if reset {
            self.mark_first_cell();
        }
    }

    /// Removes the current column of screens; the last one left is cleared
    /// instead. A start marker on the removed column moves to the first cell
    /// of the first screen.
    pub fn shrink_horizon(&mut self)
        requires
            old(self).wf(),
        ensures
            final(self).wf(),
            final(self).current_item == old(self).current_item,
            old(self).size[0] == 1 ==> final(self).size == [1usize, 1] && final(self).current == [
                0usize,
                0,
            ] && final(self).player_start == [0usize, 0, 0, 0] && cell_at(final(self).grid@, 0, 0, 0, 0)
                == GridSpace::StartingLocation,
            old(self).size[0] > 1 ==> {
                let cur = old(self).current[0];
                let start = old(self).player_start;
                &&& final(self).size == [(old(self).size[0] - 1) as usize, old(self).size[1]]
                &&& final(self).current == [
                    if cur == old(self).size[0] - 1 {
                        (cur - 1) as usize
                    } else {
                        cur
                    },
                    old(self).current[1],
                ]
                &&& final(self).grid@.len() == old(self).grid@.len()
                &&& start[0] == cur ==> final(self).player_start == [0usize, 0, 0, 0] && (forall|r: int|
                    1 <= r < old(self).grid@.len() ==> #[trigger] final(self).grid@[r]@ == old(
                        self,
                    ).grid@[r]@.remove(cur as int)) && (has_cell(final(self).grid@, 0, 0, 0, 0)
                    ==> cell_at(final(self).grid@, 0, 0, 0, 0) == GridSpace::StartingLocation)
                &&& start[0] != cur ==> (forall|r: int|
                    0 <= r < old(self).grid@.len() ==> #[trigger] final(self).grid@[r]@ == old(
                        self,
                    ).grid@[r]@.remove(cur as int)) && final(self).player_start == [
                    if start[0] > cur {
                        (start[0] - 1) as usize
                    } else {
                        start[0]
                    },
                    start[1],
                    start[2],
                    start[3],
                ]
            },
    {
        if self.size[0] == 1 {
            self.clear();
            return;
        }
        let cur = self.current[0];
        let reset = self.player_start[0] == cur;
        if reset {
            self.player_start = [0, 0, 0, 0];
        } else if self.player_start[0] > cur {
            self.player_start[0] = self.player_start[0] - 1;
        }
        let ghost start = self.player_start;
        let n = self.grid.len();
        let mut i: usize = 0;
        while i < n
            invariant
                self.size == old(self).size,
                self.current == old(self).current,
                self.current_item == old(self).current_item,
                self.player_start == start,
                cur == old(self).current[0],
                n == self.grid@.len(),
                n == old(self).grid@.len(),
                i <= n,
                old(self).wf(),
                old(self).size[0] > 1,
                forall|r: int|
                    0 <= r < i ==> #[trigger] self.grid@[r]@ == old(self).grid@[r]@.remove(cur as int),
                forall|r: int| i <= r < n ==> #[trigger] self.grid@[r] == old(self).grid@[r],
            decreases n - i,
        {
            self.grid[i].remove(cur);
            i = i + 1;
        }
        self.size[0] = self.size[0] - 1;
        if self.size[0] == cur {
            self.current[0] = cur - 1;
        }
        proof {
            assert forall|r: int| 0 <= r < self.grid@.len() implies (#[trigger] self.grid@[r])@.len()
                == self.size[0] by {
                assert(self.grid@[r]@ == old(self).grid@[r]@.remove(cur as int));
            }
        }
        if reset {
            self.mark_first_cell();
        }
    }

    /// Left click on cell `[x, y]` of the current screen: puts the current
    /// item there. The start marker is unique: placing it takes it off its
    /// old cell first. A cell outside the screen is ignored.
    pub fn place(&mut self, position: [usize; 2])
        requires
            old(self).wf(),
        ensures
            final(self).wf(),
            final(self).size == old(self).size,
            final(self).current == old(self).current,
            final(self).current_item == old(self).current_item,
            final(self).grid@.len() == old(self).grid@.len(),
            ({
                let (r, c, y, x) = (
                    old(self).current[1] as int,
                    old(self).current[0] as int,
                    position[1] as int,
                    position[0] as int,
                );
                &&& has_cell(old(self).grid@, r, c, y, x) ==> cell_at(final(self).grid@, r, c, y, x)
                    == old(self).current_item
                &&& has_cell(old(self).grid@, r, c, y, x) && old(self).current_item
                    == GridSpace::StartingLocation ==> final(self).player_start == [
                    old(self).current[0],
                    old(self).current[1],
                    position[1],
                    position[0],
                ]
                &&& !(has_cell(old(self).grid@, r, c, y, x) && old(self).current_item
                    == GridSpace::StartingLocation) ==> final(self).player_start == old(
                    self,
                ).player_start
                &&& !has_cell(old(self).grid@, r, c, y, x) ==> final(self).grid == old(self).grid
            }),
            forall|r2: int, c2: int, y2: int, x2: int|
                #[trigger] has_cell(final(self).grid@, r2, c2, y2, x2) <==> has_cell(
                    old(self).grid@,
                    r2,
                    c2,
                    y2,
                    x2,
                ),
            forall|r2: int, c2: int, y2: int, x2: int|
                has_cell(old(self).grid@, r2, c2, y2, x2) && (r2, c2, y2, x2) != (
                    old(self).current[1] as int,
                    old(self).current[0] as int,
                    position[1] as int,
                    position[0] as int,
                ) && !(old(self).current_item == GridSpace::StartingLocation && (r2, c2, y2, x2)
                    == (
                    old(self).player_start[1] as int,
                    old(self).player_start[0] as int,
                    old(self).player_start[2] as int,
                    old(self).player_start[3] as int,
                )) ==> #[trigger] cell_at(final(self).grid@, r2, c2, y2, x2) == cell_at(
                    old(self).grid@,
                    r2,
                    c2,
                    y2,
                    x2,
                ),
            ({
                let (r, c, y, x) = (
                    old(self).current[1] as int,
                    old(self).current[0] as int,
                    position[1] as int,
                    position[0] as int,
                );
                let s = old(self).player_start;
                let marker = (s[1] as int, s[0] as int, s[2] as int, s[3] as int);
                old(self).current_item == GridSpace::StartingLocation && has_cell(
                    old(self).grid@,
                    r,
                    c,
                    y,
                    x,
                ) && has_cell(old(self).grid@, marker.0, marker.1, marker.2, marker.3) && marker
                    != (r, c, y, x) ==> cell_at(
                    final(self).grid@,
                    marker.0,
                    marker.1,
                    marker.2,
                    marker.3,
                ) == GridSpace::Empty
            }),
    {
        let r = self.current[1];
        let c = self.current[0];
        let y = position[1];
        let x = position[0];
        if y < self.grid[r][c].contents.len() && x < self.grid[r][c].contents[y].len() {
            if matches!(self.current_item, GridSpace::StartingLocation) {
                let ps = self.player_start;
                self.set_cell(ps[1], ps[0], ps[2], ps[3], GridSpace::Empty);
                self.player_start = [c, r, y, x];
            }
            let item = self.current_item;
            self.set_cell(r, c, y, x, item);
        }
    }

    /// Sets one cell where it exists; every other cell stays.
    fn set_cell(&mut self, r: usize, c: usize, y: usize, x: usize, v: GridSpace)
        requires
            old(self).wf(),
        ensures
            final(self).wf(),
            final(self).size == old(self).size,
            final(self).current == old(self).current,
            final(self).player_start == old(self).player_start,
            final(self).current_item == old(self).current_item,
            final(self).grid@.len() == old(self).grid@.len(),
            forall|r2: int, c2: int, y2: int, x2: int|
                #[trigger] has_cell(final(self).grid@, r2, c2, y2, x2) <==> has_cell(
                    old(self).grid@,
                    r2,
                    c2,
                    y2,
                    x2,
                ),
            forall|r2: int, c2: int, y2: int, x2: int|
                has_cell(old(self).grid@, r2, c2, y2, x2) && (r2, c2, y2, x2) != (
                    r as int,
                    c as int,
                    y as int,
                    x as int,
                ) ==> #[trigger] cell_at(final(self).grid@, r2, c2, y2, x2) == cell_at(
                    old(self).grid@,
                    r2,
                    c2,
                    y2,
                    x2,
                ),
            has_cell(old(self).grid@, r as int, c as int, y as int, x as int) ==> cell_at(
                final(self).grid@,
                r as int,
                c as int,
                y as int,
                x as int,
            ) == v,
            !has_cell(old(self).grid@, r as int, c as int, y as int, x as int) ==> final(self).grid
                == old(self).grid,
    {
        if r < self.grid.len() && c < self.grid[r].len() && y < self.grid[r][c].contents.len() && x
            < self.grid[r][c].contents[y].len() {
            self.grid[r][c].contents[y].set(x, v);
            proof {
                assert forall|r2: int| 0 <= r2 < self.grid@.len() implies (#[trigger] self.grid@[r2])@.len()
                    == self.size[0] by {
                    if r2 != r {
                        assert(self.grid@[r2] == old(self).grid@[r2]);
                    }
                }
            }
        }
    }

    /// Right click on cell `[x, y]` of the current screen: its kind becomes
    /// the current item. A cell outside the screen is ignored.
    pub fn pick(&mut self, position: [usize; 2])
        requires
            old(self).wf(),
        ensures
            final(self).wf(),
            final(self).grid == old(self).grid,
            final(self).size == old(self).size,
            final(self).current == old(self).current,
            final(self).player_start == old(self).player_start,
            ({
                let (r, c, y, x) = (
                    old(self).current[1] as int,
                    old(self).current[0] as int,
                    position[1] as int,
                    position[0] as int,
                );
                &&& has_cell(old(self).grid@, r, c, y, x) ==> final(self).current_item == cell_at(
                    old(self).grid@,
                    r,
                    c,
                    y,
                    x,
                )
                &&& !has_cell(old(self).grid@, r, c, y, x) ==> final(self).current_item == old(
                    self,
                ).current_item
            }),
    {
        let r = self.current[1];
        let c = self.current[0];
        let y = position[1];
        let x = position[0];
        if y < self.grid[r][c].contents.len() && x < self.grid[r][c].contents[y].len() {
            self.current_item = self.grid[r][c].contents[y][x];
        }
    }

    /// A click on cell `[x, y]` of the palette, which is `MEDIT_GUIDE_SIZE`
    /// cells wide and `MEDIT_TILES` tall: the kind with that palette
    /// number becomes the current item.
    pub fn select_from_guide(&mut self, position: [usize; 2])
        requires
            position[0] < MEDIT_GUIDE_SIZE,
            position[1] < MEDIT_TILES,
        ensures
            final(self).current_item == from_id_spec(
                (position[1] * MEDIT_GUIDE_SIZE + position[0]) as usize,
            ),
            final(self).grid == old(self).grid,
            final(self).size == old(self).size,
            final(self).current == old(self).current,
            final(self).player_start == old(self).player_start,
    {
        let index = position[1] * (MEDIT_GUIDE_SIZE as usize) + position[0];
        self.current_item = GridSpace::from_id(index);
    }

    /// Empties the current screen.
    pub fn clear_screen(&mut self)
        requires
            old(self).wf(),
        ensures
            final(self).wf(),
            final(self).size == old(self).size,
            final(self).current == old(self).current,
            final(self).player_start == old(self).player_start,
            final(self).current_item == old(self).current_item,
            final(self).grid@.len() == old(self).grid@.len(),
            forall|r: int, c: int|
                0 <= r < old(self).grid@.len() && 0 <= c < old(self).size[0] && (r, c) != (
                    old(self).current[1] as int,
                    old(self).current[0] as int,
                ) ==> #[trigger] final(self).grid@[r]@[c] == old(self).grid@[r]@[c],
            is_blank(final(self).grid@[old(self).current[1] as int]@[old(self).current[0] as int]),
    {
        let r = self.current[1];
        let c = self.current[0];
        self.grid[r].set(c, LevelGrid::new());
        proof {
            assert forall|r2: int| 0 <= r2 < self.grid@.len() implies (#[trigger] self.grid@[r2])@.len()
                == self.size[0] by {
                if r2 != r {
                    assert(self.grid@[r2] == old(self).grid@[r2]);
                }
            }
        }
    }

    /// Carries out a command that changes the grid or the current screen,
    /// as the command says (growing moves onto the new screen below or to
    /// the right). Saving and quitting are left to the caller. Returns
    /// whether the current screen must be shown again.
    pub fn run_command(&mut self, cmd: EditCommand) -> (redraw: bool)
        requires
            old(self).wf(),
            old(self).size[0] < usize::MAX,
            old(self).size[1] < usize::MAX,
        ensures
            final(self).wf(),
            redraw == !(cmd is Quit || cmd is Save || cmd is SaveAndQuit || cmd is Nothing),
            !redraw ==> *final(self) == *old(self),
            cmd is GrowUp ==> final(self).size[1] == old(self).size[1] + 1 && final(self).current
                == old(self).current,
            cmd is GrowDown ==> final(self).size[1] == old(self).size[1] + 1 && final(self).current
                == [old(self).current[0], (old(self).current[1] + 1) as usize],
            cmd is GrowLeft ==> final(self).size[0] == old(self).size[0] + 1 && final(self).current
                == old(self).current,
            cmd is GrowRight ==> final(self).size[0] == old(self).size[0] + 1 && final(self).current
                == [(old(self).current[0] + 1) as usize, old(self).current[1]],
            cmd is MoveUp ==> final(self).current[1] == (old(self).current[1] + old(self).size[1]
                - 1) % (old(self).size[1] as int),
            cmd is MoveDown ==> final(self).current[1] == (old(self).current[1] + 1) % (old(
                self,
            ).size[1] as int),
            cmd is MoveLeft ==> final(self).current[0] == (old(self).current[0] + old(self).size[0]
                - 1) % (old(self).size[0] as int),
            cmd is MoveRight ==> final(self).current[0] == (old(self).current[0] + 1) % (old(
                self,
            ).size[0] as int),
            cmd is ShrinkRow ==> final(self).size[1] == (if old(self).size[1] == 1 {
                1
            } else {
                old(self).size[1] - 1
            }),
            cmd is ShrinkColumn ==> final(self).size[0] == (if old(self).size[0] == 1 {
                1
            } else {
                old(self).size[0] - 1
            }),
            cmd is ClearScreen ==> final(self).size == old(self).size && final(self).current
                == old(self).current && is_blank(
                final(self).grid@[old(self).current[1] as int]@[old(self).current[0] as int],
            ),
    {
        match cmd {
            EditCommand::GrowUp => {
                self.grow_vert();
            },
            EditCommand::GrowDown => {
                self.grow_vert_plus();
                self.down();
                proof {
                    lemma_wrap_step(old(self).current[1] as int, self.size[1] as int);
                }
            },
            EditCommand::GrowLeft => {
                self.grow_horizon();
            },
            EditCommand::GrowRight => {
                self.grow_horizon_plus();
                self.right();
                proof {
                    lemma_wrap_step(old(self).current[0] as int, self.size[0] as int);
                }
            },
            EditCommand::ShrinkColumn => {
                self.shrink_horizon();
            },
            EditCommand::ShrinkRow => {
                self.shrink_vert();
            },
            EditCommand::ClearScreen => {
                self.clear_screen();
            },
            EditCommand::MoveUp => {
                self.up();
            },
            EditCommand::MoveDown => {
                self.down();
            },
            EditCommand::MoveLeft => {
                self.left();
            },
            EditCommand::MoveRight => {
                self.right();
            },
            _ => {
                return false;
            },
        }
        true
    }

    /// Moves to the screen above, wrapping to the bottom row.
    pub fn up(&mut self)
        requires
            old(self).wf(),
        ensures
            final(self).wf(),
            final(self).current[1] == (old(self).current[1] + old(self).size[1] - 1) % (old(
                self,
            ).size[1] as int),
            final(self).current[0] == old(self).current[0],
            final(self).grid == old(self).grid,
            final(self).size == old(self).size,
            final(self).player_start == old(self).player_start,
    {
        proof {
            lemma_wrap_step(self.current[1] as int, self.size[1] as int);
        }
        if self.current[1] == 0 {
            self.current[1] = self.size[1];
        }
        self.current[1] = self.current[1] - 1;
    }

    /// Moves to the screen below, wrapping to the top row.
    pub fn down(&mut self)
        requires
            old(self).wf(),
        ensures
            final(self).wf(),
            final(self).current[1] == (old(self).current[1] + 1) % (old(self).size[1] as int),
            final(self).current[0] == old(self).current[0],
            final(self).grid == old(self).grid,
            final(self).size == old(self).size,
            final(self).player_start == old(self).player_start,
    {
        proof {
            lemma_wrap_step(self.current[1] as int, self.size[1] as int);
        }
        self.current[1] = self.current[1] + 1;
        if self.current[1] == self.size[1] {
            self.current[1] = 0;
        }
    }

    /// Moves to the screen on the left, wrapping to the last column.
    pub fn left(&mut self)
        requires
            old(self).wf(),
        ensures
            final(self).wf(),
            final(self).current[0] == (old(self).current[0] + old(self).size[0] - 1) % (old(
                self,
            ).size[0] as int),
            final(self).current[1] == old(self).current[1],
            final(self).grid == old(self).grid,
            final(self).size == old(self).size,
            final(self).player_start == old(self).player_start,
    {
        proof {
            lemma_wrap_step(self.current[0] as int, self.size[0] as int);
        }
        if self.current[0] == 0 {
            self.current[0] = self.size[0];
        }
        self.current[0] = self.current[0] - 1;
    }

    /// Moves to the screen on the right, wrapping to the first column.
    pub fn right(&mut self)
        requires
            old(self).wf(),
        ensures
            final(self).wf(),
            final(self).current[0] == (old(self).current[0] + 1) % (old(self).size[0] as int),
            final(self).current[1] == old(self).current[1],
            final(self).grid == old(self).grid,
            final(self).size == old(self).size,
            final(self).player_start == old(self).player_start,
    {
        proof {
            lemma_wrap_step(self.current[0] as int, self.size[0] as int);
        }
        self.current[0] = self.current[0] + 1;
        if self.current[0] == self.size[0] {
            self.current[0] = 0;
        }
    }
}

} // verus!
