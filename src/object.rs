//! Tile behaviours: what touching a tile on one of its sides does to the
//! player's motion and control latches, and which action it reports to the
//! orchestrator.
use crate::consts::FLIP_COOLDOWN;
use crate::controls::Controls;
use vstd::prelude::*;

verus! {

/// A side of a tile, or a direction of travel.
#[derive(Clone, Copy, PartialEq, Eq, Debug, Structural)]
pub enum Direction {
    Up,
    Down,
    Left,
    Right,
}

impl Direction {
    pub open spec fn opposite_spec(self) -> Direction {
        match self {
            Direction::Up => Direction::Down,
            Direction::Down => Direction::Up,
            Direction::Left => Direction::Right,
            Direction::Right => Direction::Left,
        }
    }

    /// Up and down lie on the vertical axis.
    pub open spec fn is_vertical(self) -> bool {
        self is Up || self is Down
    }

    pub fn opposite(self) -> (r: Direction)
        ensures
            r == self.opposite_spec(),
            r.is_vertical() == self.is_vertical(),
            r != self,
    {
        match self {
            Direction::Up => Direction::Down,
            Direction::Down => Direction::Up,
            Direction::Left => Direction::Right,
            Direction::Right => Direction::Left,
        }
    }
}

/// How a tile reacts when the player touches it.
#[derive(Clone, Copy, PartialEq, Eq, Debug, Structural)]
pub enum Behavior {
    Stop,
    Kill,
    Move(Direction),
    Advance,
    Wrap,
    Portal,
    Decorative,
    Stick,
    Water,
    Slime,
    Flip,
}

/// What a touch asks of the orchestrator.
#[derive(Clone, Copy, PartialEq, Eq, Debug, Structural)]
pub enum CollideAction {
    Advance,
    Kill,
    MoveScreen(Direction),
    Wrap(Direction),
    NoAction,
}

/// Sign of a velocity component.
#[derive(Clone, Copy, PartialEq, Eq, Debug, Structural)]
pub enum Sign {
    Negative,
    Zero,
    Positive,
}

/// Signs of the player's velocity, raw and multiplied by this substep's
/// speed multipliers.
#[derive(Clone, Copy, PartialEq, Eq, Debug, Structural)]
pub struct Motion {
    pub x: Sign,
    pub y: Sign,
    pub x_effective: Sign,
    pub y_effective: Sign,
}

/// What one touch does to the player's body; the orchestrator applies it to
/// the body's position and velocity.
#[derive(Clone, Copy, PartialEq, Eq, Debug, Structural)]
pub struct TouchEffect {
    /// Set the horizontal velocity to zero.
    pub stop_x: bool,
    /// Set the vertical velocity to zero.
    pub stop_y: bool,
    /// Nudge the position by the conveyor strength in this direction.
    pub push: Option<Direction>,
    /// Set the vertical speed multiplier to the water fraction.
    pub water: bool,
    /// A gravity flip: set the vertical velocity to one unit in this
    /// direction and move the position off the tile by four tolerances.
    pub kick: Option<Direction>,
    pub action: CollideAction,
}

/// The player moves into a tile touched on side `side`, by the given signs.
pub open spec fn moving_into(side: Direction, x: Sign, y: Sign) -> bool {
    match side {
        Direction::Up => y is Positive,
        Direction::Down => y is Negative,
        Direction::Left => x is Positive,
        Direction::Right => x is Negative,
    }
}

impl Behavior {
    /// Resolution order of the behaviours: lower comes first.
    pub open spec fn priority_spec(self) -> usize {
        match self {
            Behavior::Decorative => 0,
            Behavior::Kill => 0,
            Behavior::Advance => 1,
            Behavior::Water => 20,
            Behavior::Slime => 21,
            Behavior::Flip => 40,
            Behavior::Stop => 60,
            Behavior::Stick => 61,
            Behavior::Move(_) => 62,
            Behavior::Wrap => 80,
            Behavior::Portal => 81,
        }
    }

    pub fn priority(&self) -> (r: usize)
        ensures
            r == self.priority_spec(),
    {
        match self {
            Behavior::Decorative => 0,
            Behavior::Kill => 0,
            Behavior::Advance => 1,
            Behavior::Water => 20,
            Behavior::Slime => 21,
            Behavior::Flip => 40,
            Behavior::Stop => 60,
            Behavior::Stick => 61,
            Behavior::Move(_) => 62,
            Behavior::Wrap => 80,
            Behavior::Portal => 81,
        }
    }

    /// A tile takes part in collisions unless it is decorative.
    pub fn interactable(&self) -> (r: bool)
        ensures
            r == !(*self is Decorative),
    {
        !matches!(self, Behavior::Decorative)
    }

    /// The action a touch on side `side` reports.
    pub open spec fn action_spec(self, side: Direction) -> CollideAction {
        match self {
            Behavior::Kill => CollideAction::Kill,
            Behavior::Advance => CollideAction::Advance,
            Behavior::Wrap => CollideAction::Wrap(side),
            Behavior::Portal => CollideAction::MoveScreen(side),
            _ => CollideAction::NoAction,
        }
    }

    /// The horizontal velocity is zeroed by the touch.
    pub open spec fn stops_x(self, side: Direction, m: Motion) -> bool {
        match self {
            Behavior::Stop => !side.is_vertical() && moving_into(side, m.x_effective, m.y_effective),
            Behavior::Move(_) => !side.is_vertical() && moving_into(side, m.x, m.y),
            Behavior::Stick => side.is_vertical() || moving_into(side, m.x, m.y),
            _ => false,
        }
    }

    /// The vertical velocity is zeroed by the touch.
    pub open spec fn stops_y(self, side: Direction, m: Motion) -> bool {
        match self {
            Behavior::Stop => side.is_vertical() && moving_into(side, m.x_effective, m.y_effective),
            Behavior::Move(_) => side.is_vertical() && moving_into(side, m.x, m.y),
            Behavior::Stick => !side.is_vertical() || moving_into(side, m.x, m.y),
            _ => false,
        }
    }

    /// A conveyor pushes the player along its direction when it is touched
    /// on a side across that direction.
    pub open spec fn push_spec(self, side: Direction) -> Option<Direction> {
        match self {
            Behavior::Move(dir) => if dir.is_vertical() != side.is_vertical() {
                Some(dir)
            } else {
                None
            },
            _ => None,
        }
    }

    /// The vertical latch is armed by a touch on top or bottom of a solid tile.
    pub open spec fn arms_flip_y(self, side: Direction) -> bool {
        side.is_vertical() && (self is Stop || self is Move || self is Stick)
    }

    /// The control state after the touch.
    pub open spec fn touched_controls(self, side: Direction, c: Controls) -> Controls {
        match self {
            Behavior::Slime => Controls { can_flip_x: false, ..c },
            Behavior::Flip => if c.flip_cooldown == 0 {
                Controls {
                    gravity_y: (-c.gravity_y) as i8,
                    vertical_direction: (-c.gravity_y) as i8,
                    flip_cooldown: FLIP_COOLDOWN,
                    ..c
                }
            } else {
                Controls { flip_cooldown: FLIP_COOLDOWN, ..c }
            },
            _ => if self.arms_flip_y(side) {
                Controls { can_flip_y: true, ..c }
            } else {
                c
            },
        }
    }

    /// The kick of a gravity flip: away from the old gravity's opposite.
    pub open spec fn kick_spec(self, c: Controls) -> Option<Direction> {
        if self is Flip && c.flip_cooldown == 0 {
            if c.gravity_y == -1 {
                Some(Direction::Up)
            } else {
                Some(Direction::Down)
            }
        } else {
            None
        }
    }

    /// The player touches this tile on side `side` (the side of the tile):
    /// returns what happens to the body and the action to report, and
    /// updates the control latches.
    pub fn on_touch(&self, side: Direction, motion: Motion, ctrl: &mut Controls) -> (r: TouchEffect)
        requires
            old(ctrl).wf(),
        ensures
            final(ctrl).wf(),
            *final(ctrl) == self.touched_controls(side, *old(ctrl)),
            r == (TouchEffect {
                stop_x: self.stops_x(side, motion),
                stop_y: self.stops_y(side, motion),
                push: self.push_spec(side),
                water: *self is Water,
                kick: self.kick_spec(*old(ctrl)),
                action: self.action_spec(side),
            }),
    {
        let vertical = matches!(side, Direction::Up | Direction::Down);
        let into = into_side(side, motion.x, motion.y);
        let mut effect = TouchEffect {
            stop_x: false,
            stop_y: false,
            push: Option::None,
            water: false,
            kick: Option::None,
            action: CollideAction::NoAction,
        };
        match self {
            Behavior::Stop => {
                let into_effective = into_side(side, motion.x_effective, motion.y_effective);
                if vertical {
                    effect.stop_y = into_effective;
                    ctrl.can_flip_y = true;
                } else {
                    effect.stop_x = into_effective;
                }
            },
            Behavior::Kill => {
                effect.action = CollideAction::Kill;
            },
            Behavior::Move(dir) => {
                let along_vertical = matches!(dir, Direction::Up | Direction::Down);
                if vertical {
                    effect.stop_y = into;
                    ctrl.can_flip_y = true;
                } else {
                    effect.stop_x = into;
                }
                if along_vertical != vertical {
                    effect.push = Some(*dir);
                }
            },
            Behavior::Advance => {
                effect.action = CollideAction::Advance;
            },
            Behavior::Wrap => {
                effect.action = CollideAction::Wrap(side);
            },
            Behavior::Portal => {
                effect.action = CollideAction::MoveScreen(side);
            },
            Behavior::Stick => {
                if vertical {
                    effect.stop_y = into;
                    effect.stop_x = true;
                    ctrl.can_flip_y = true;
                } else {
                    effect.stop_y = true;
                    effect.stop_x = into;
                }
            },
            Behavior::Decorative => {},
            Behavior::Water => {
                effect.water = true;
            },
            Behavior::Slime => {
                ctrl.can_flip_x = false;
            },
            Behavior::Flip => {
                if ctrl.flip_cooldown == 0 {
                    if ctrl.gravity_y == -1 {
                        ctrl.gravity_y = 1;
                        ctrl.vertical_direction = 1;
                        effect.kick = Some(Direction::Up);
                    } else {
                        ctrl.gravity_y = -1;
                        ctrl.vertical_direction = -1;
                        effect.kick = Some(Direction::Down);
                    }
                }
                ctrl.flip_cooldown = FLIP_COOLDOWN;
            },
        }
        effect
    }
}

/// Whether the velocity signs carry the player into a tile's side.
fn into_side(side: Direction, x: Sign, y: Sign) -> (r: bool)
    ensures
        r == moving_into(side, x, y),
{
    match side {
        Direction::Up => matches!(y, Sign::Positive),
        Direction::Down => matches!(y, Sign::Negative),
        Direction::Left => matches!(x, Sign::Positive),
        Direction::Right => matches!(x, Sign::Negative),
    }
}

} // verus!
