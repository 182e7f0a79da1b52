//! The orchestrator's decisions: which of the actions reported in a substep
//! wins, and how the level and screen change in answer to it.
use crate::levels::Level;
use crate::controls::Controls;
use crate::object::{Behavior, CollideAction, Direction, Motion};
use vstd::prelude::*;

verus! {

impl CollideAction {
    /// Rank of an action: lower wins. No action has no rank.
    pub open spec fn rank(self) -> Option<usize> {
        match self {
            CollideAction::Kill => Some(0),
            CollideAction::Advance => Some(1),
            CollideAction::Wrap(_) => Some(80),
            CollideAction::MoveScreen(_) => Some(81),
            CollideAction::NoAction => None,
        }
    }

    pub fn priority(&self) -> (r: Option<usize>)
        ensures
            r == self.rank(),
    {
        match self {
            CollideAction::Kill => Some(0),
            CollideAction::Advance => Some(1),
            CollideAction::Wrap(_) => Some(80),
            CollideAction::MoveScreen(_) => Some(81),
            CollideAction::NoAction => Option::None,
        }
    }
}

/// The better of the action kept so far and the next one: the lower rank,
/// and on a tie the later action.
pub open spec fn prefer(kept: CollideAction, next: CollideAction) -> CollideAction {
    match next.rank() {
        None => kept,
        Some(rn) => match kept.rank() {
            None => next,
            Some(rk) => if rn <= rk {
                next
            } else {
                kept
            },
        },
    }
}

/// The action that a queue of actions comes to.
pub open spec fn reduced(actions: Seq<CollideAction>) -> CollideAction
    decreases actions.len(),
{
    if actions.len() == 0 {
        CollideAction::NoAction
    } else {
        prefer(reduced(actions.drop_last()), actions.last())
    }
}

/// Reduces the actions of one substep to the one that is acted on.
pub fn reduce_actions(actions: &Vec<CollideAction>) -> (r: CollideAction)
    ensures
        r == reduced(actions@),
{
    let mut kept = CollideAction::NoAction;
    let mut i: usize = 0;
    while i < actions.len()
        invariant
            i <= actions@.len(),
            kept == reduced(actions@.take(i as int)),
        decreases actions@.len() - i,
    {
        let next = actions[i];
        proof {
            assert(actions@.take(i + 1).drop_last() =~= actions@.take(i as int));
        }
        match next.priority() {
            Option::None => {},
            Some(rn) => match kept.priority() {
                Option::None => {
                    kept = next;
                },
                Some(rk) => {
                    if rn <= rk {
                        kept = next;
                    }
                },
            },
        }
        i = i + 1;
    }
    proof {
        assert(actions@.take(actions@.len() as int) =~= actions@);
    }
    kept
}

/// What the orchestrator does after a substep.
#[derive(Clone, Copy, PartialEq, Eq, Debug, Structural)]
pub enum Step {
    /// Play on.
    Continue,
    /// Tear everything down and load the current level from its start.
    LoadLevel,
    /// Load the current screen, with the player at its edge on this side.
    LoadScreen(Direction),
    /// Move the player to the edge of this screen on this side.
    Reposition(Direction),
}

/// Where the session stands: the level, and the screen of it as `[row, col]`.
#[derive(Clone, Copy, Debug)]
pub struct Progress {
    pub current_level: usize,
    pub current_pos: [usize; 2],
}

/// Every level has at least one screen, in rows of equal length, and a start
/// screen inside its grid.
pub open spec fn levels_wf<T>(levels: Seq<Level<T>>) -> bool {
    &&& levels.len() > 0
    &&& forall|i: int| 0 <= i < levels.len() ==> (#[trigger] levels[i]).wf()
}

/// Rows of screens of a level.
pub open spec fn rows_of<T>(level: Level<T>) -> int {
    level.grid@.len() as int
}

/// Columns of screens of a level.
pub open spec fn cols_of<T>(level: Level<T>) -> int {
    level.grid@[0]@.len() as int
}

/// The screen next to `[row, col]` on side `dir`, wrapping around the grid.
pub open spec fn neighbor(pos: [usize; 2], dir: Direction, rows: int, cols: int) -> [usize; 2] {
    match dir {
        Direction::Up => [((pos[0] + rows - 1) % rows) as usize, pos[1]],
        Direction::Down => [((pos[0] + 1) % rows) as usize, pos[1]],
        Direction::Left => [pos[0], ((pos[1] + cols - 1) % cols) as usize],
        Direction::Right => [pos[0], ((pos[1] + 1) % cols) as usize],
    }
}

/// The start screen of a level, as `[row, col]`.
pub open spec fn start_pos<T>(level: Level<T>) -> [usize; 2] {
    [level.player_start[1], level.player_start[0]]
}

/// Stepping one place back or forth on a ring of `n` places.
pub(crate) proof fn lemma_wrap_step(a: int, n: int)
    requires
        0 <= a < n,
    ensures
        (a + n - 1) % n == (if a == 0 {
            n - 1
        } else {
            a - 1
        }),
        (a + 1) % n == (if a + 1 == n {
            0
        } else {
            a + 1
        }),
{
    if a == 0 {
        vstd::arithmetic::div_mod::lemma_small_mod((n - 1) as nat, n as nat);
    } else {
        vstd::arithmetic::div_mod::lemma_mod_add_multiples_vanish(a - 1, n);
        vstd::arithmetic::div_mod::lemma_small_mod((a - 1) as nat, n as nat);
    }
    if a + 1 == n {
        vstd::arithmetic::div_mod::lemma_mod_self_0(n);
    } else {
        vstd::arithmetic::div_mod::lemma_small_mod((a + 1) as nat, n as nat);
    }
}

impl Progress {
    /// The level exists and the screen lies in its grid.
    pub open spec fn wf<T>(&self, levels: Seq<Level<T>>) -> bool {
        &&& self.current_level < levels.len()
        &&& self.current_pos[0] < rows_of(levels[self.current_level as int])
        &&& self.current_pos[1] < cols_of(levels[self.current_level as int])
    }

    /// The start of level `level`.
    pub fn new_level<T>(levels: &Vec<Level<T>>, level: usize) -> (r: Progress)
        requires
            levels_wf(levels@),
            level < levels@.len(),
        ensures
            r.wf(levels@),
            r.current_level == level,
            r.current_pos == start_pos(levels@[level as int]),
    {
        let start = levels[level].player_start;
        proof {
            assert(levels@[level as int].wf());
        }
        Progress { current_level: level, current_pos: [start[1], start[0]] }
    }

    /// Death: back to the start of the first level.
    pub fn dead<T>(&mut self, levels: &Vec<Level<T>>)
        requires
            levels_wf(levels@),
        ensures
            final(self).wf(levels@),
            final(self).current_level == 0,
            final(self).current_pos == start_pos(levels@[0]),
    {
        *self = Progress::new_level(levels, 0);
    }

    /// A goal: on to the start of the next level; the last level starts
    /// again.
    pub fn next_level<T>(&mut self, levels: &Vec<Level<T>>)
        requires
            levels_wf(levels@),
            old(self).wf(levels@),
        ensures
            final(self).wf(levels@),
            final(self).current_level == (if old(self).current_level + 1 < levels@.len() {
                old(self).current_level + 1
            } else {
                old(self).current_level as int
            }),
            final(self).current_pos == start_pos(levels@[final(self).current_level as int]),
    {
        let next = if self.current_level < levels.len() - 1 {
            self.current_level + 1
        } else {
            self.current_level
        };
        *self = Progress::new_level(levels, next);
    }

    /// Acts on the action that a substep came to: death restarts the first
    /// level, a goal starts the next level (the last level starts again), a
    /// portal moves to the neighbouring screen on the touched side, and a
    /// wrap tile moves the player to the edge of this screen on that side.
    pub fn apply<T>(&mut self, action: CollideAction, levels: &Vec<Level<T>>) -> (s: Step)
        requires
            levels_wf(levels@),
            old(self).wf(levels@),
        ensures
            final(self).wf(levels@),
            action is Kill ==> s == Step::LoadLevel && final(self).current_level == 0
                && final(self).current_pos == start_pos(levels@[0]),
            action is Advance ==> {
                let next = if old(self).current_level + 1 < levels@.len() {
                    old(self).current_level + 1
                } else {
                    old(self).current_level as int
                };
                &&& s == Step::LoadLevel
                &&& final(self).current_level == next
                &&& final(self).current_pos == start_pos(levels@[next])
            },
            action matches CollideAction::MoveScreen(dir) ==> {
                let level = levels@[old(self).current_level as int];
                &&& s == Step::LoadScreen(dir)
                &&& final(self).current_level == old(self).current_level
                &&& final(self).current_pos == neighbor(
                    old(self).current_pos,
                    dir,
                    rows_of(level),
                    cols_of(level),
                )
            },
            action matches CollideAction::Wrap(dir) ==> s == Step::Reposition(dir) && *final(self)
                == *old(self),
            action is NoAction ==> s == Step::Continue && *final(self) == *old(self),
    {
        match action {
            CollideAction::Kill => {
                self.dead(levels);
                Step::LoadLevel
            },
            CollideAction::Advance => {
                self.next_level(levels);
                Step::LoadLevel
            },
            CollideAction::MoveScreen(dir) => {
                let level = &levels[self.current_level];
                proof {
                    assert(level.wf());
                }
                let rows = level.grid.len();
                let cols = level.grid[0].len();
                let row = self.current_pos[0];
                let col = self.current_pos[1];
                let pos = match dir {
                    Direction::Up => [if row == 0 { rows - 1 } else { row - 1 }, col],
                    Direction::Down => [if row + 1 == rows { 0 } else { row + 1 }, col],
                    Direction::Left => [row, if col == 0 { cols - 1 } else { col - 1 }],
                    Direction::Right => [row, if col + 1 >= cols { 0 } else { col + 1 }],
                };
                proof {
                    lemma_wrap_step(row as int, rows as int);
                    lemma_wrap_step(col as int, cols as int);
                    assert(pos =~= neighbor(self.current_pos, dir, rows as int, cols as int));
                }
                self.current_pos = pos;
                Step::LoadScreen(dir)
            },
            CollideAction::Wrap(dir) => Step::Reposition(dir),
            CollideAction::NoAction => Step::Continue,
        }
    }
}

/// A substep in which some touch reported a kill comes to a kill, whatever
/// else was reported with it.
pub proof fn lemma_kill_wins(actions: Seq<CollideAction>)
    requires
        actions.contains(CollideAction::Kill),
    ensures
        reduced(actions) == CollideAction::Kill,
    decreases actions.len(),
{
    let rest = actions.drop_last();
    if actions.last() != CollideAction::Kill {
        let i = choose|i: int| 0 <= i < actions.len() && actions[i] == CollideAction::Kill;
        assert(rest[i] == CollideAction::Kill);
        lemma_kill_wins(rest);
    }
}

/// Touching a spike reports a kill on every side, so the substep comes to a
/// kill whatever the other tiles reported.
pub proof fn lemma_spike_kills(side: Direction, others: Seq<CollideAction>)
    ensures
        Behavior::Kill.action_spec(side) == CollideAction::Kill,
        reduced(others.push(Behavior::Kill.action_spec(side))) == CollideAction::Kill,
{
    let q = others.push(Behavior::Kill.action_spec(side));
    assert(q[q.len() - 1] == CollideAction::Kill);
    lemma_kill_wins(q);
}

/// Touching a portal on side `side` reports a screen move to that side; when
/// nothing else but screen moves were reported before it, the substep comes
/// to that move.
pub proof fn lemma_portal_moves_screen(side: Direction, before: Seq<CollideAction>)
    requires
        forall|i: int|
            0 <= i < before.len() ==> #[trigger] before[i] is NoAction || before[i] is MoveScreen,
    ensures
        Behavior::Portal.action_spec(side) == CollideAction::MoveScreen(side),
        reduced(before.push(Behavior::Portal.action_spec(side))) == CollideAction::MoveScreen(
            side,
        ),
{
    lemma_moves_only(before);
    let q = before.push(CollideAction::MoveScreen(side));
    assert(q.drop_last() =~= before);
}

/// A queue of screen moves and no-actions comes to a screen move or to none.
proof fn lemma_moves_only(actions: Seq<CollideAction>)
    requires
        forall|i: int|
            0 <= i < actions.len() ==> #[trigger] actions[i] is NoAction || actions[i] is MoveScreen,
    ensures
        reduced(actions) is NoAction || reduced(actions) is MoveScreen,
    decreases actions.len(),
{
    if actions.len() > 0 {
        let rest = actions.drop_last();
        assert forall|i: int| 0 <= i < rest.len() implies #[trigger] rest[i] is NoAction
            || rest[i] is MoveScreen by {
            assert(rest[i] == actions[i]);
        }
        lemma_moves_only(rest);
        assert(actions[actions.len() - 1] is NoAction || actions[actions.len() - 1] is MoveScreen);
    }
}

/// Touching a wrap tile on side `side` leaves the player's velocity and
/// position alone and reports a wrap to that side; the orchestrator answers
/// a wrap by moving the player to the edge of the same screen on that side
/// (see `Progress::apply`).
pub proof fn lemma_wrap_keeps_motion(side: Direction, motion: Motion, c: Controls)
    ensures
        Behavior::Wrap.action_spec(side) == CollideAction::Wrap(side),
        !Behavior::Wrap.stops_x(side, motion),
        !Behavior::Wrap.stops_y(side, motion),
        Behavior::Wrap.push_spec(side) is None,
        Behavior::Wrap.kick_spec(c) is None,
        Behavior::Wrap.touched_controls(side, c) == c,
{
}

/// A conveyor touched on a side across its direction pushes the player along
/// its direction on every such touch, whatever the player's motion.
pub proof fn lemma_conveyor_pushes(dir: Direction, side: Direction, motion: Motion)
    requires
        dir.is_vertical() != side.is_vertical(),
    ensures
        Behavior::Move(dir).push_spec(side) == Some(dir),
        Behavior::Move(dir).action_spec(side) == CollideAction::NoAction,
{
}

} // verus!
