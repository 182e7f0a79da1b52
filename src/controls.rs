//! Control and gravity latches: direction keys set the desired direction on
//! each axis, and gravity follows it only while the latch of that axis is armed.
use crate::consts::FLIP_COOLDOWN;
use crate::input::InputVars;
use vstd::prelude::*;

verus! {

/// A direction on one axis: -1, 0 or 1.
pub open spec fn is_unit(d: i8) -> bool {
    -1 <= d <= 1
}

/// Key codes of the five control keys.
#[derive(Clone, Copy, PartialEq, Eq, Debug, Structural)]
pub struct KeyBindings {
    pub left: u32,
    pub right: u32,
    pub up: u32,
    pub down: u32,
    pub space: u32,
}

/// Per-substep velocity change of the player, in units of the thrust
/// constants of each axis divided by the substeps per frame.
#[derive(Clone, Copy, PartialEq, Eq, Debug, Structural)]
pub struct Thrust {
    pub x: i8,
    pub y: i8,
}

/// The player's control state.
#[derive(Clone, Copy, PartialEq, Eq, Debug, Structural)]
pub struct Controls {
    /// Left (-1), right (1) or neither (0).
    pub horizontal_direction: i8,
    /// Up (-1), down (1) or neither (0).
    pub vertical_direction: i8,
    /// Up (-1) or down (1); changes only while `can_flip_y` is armed.
    pub gravity_y: i8,
    /// Left (-1), right (1) or neutral (0); held while in slime.
    pub gravity_x: i8,
    pub can_flip_x: bool,
    pub can_flip_y: bool,
    /// Substeps left before a gravity flipper may flip the player again.
    pub flip_cooldown: u32,
}

impl Controls {
    pub open spec fn wf(&self) -> bool {
        &&& is_unit(self.horizontal_direction)
        &&& is_unit(self.vertical_direction)
        &&& is_unit(self.gravity_x)
        &&& (self.gravity_y == -1 || self.gravity_y == 1)
        &&& self.flip_cooldown <= FLIP_COOLDOWN
    }

    /// Horizontal direction after this frame's key presses.
    pub open spec fn next_horizontal(&self, input: InputVars, keys: KeyBindings) -> i8 {
        if input.pressed(keys.space) {
            0
        } else if input.pressed(keys.right) {
            1
        } else if input.pressed(keys.left) {
            -1i8
        } else {
            self.horizontal_direction
        }
    }

    /// Vertical direction after this frame's key presses.
    pub open spec fn next_vertical(&self, input: InputVars, keys: KeyBindings) -> i8 {
        if input.pressed(keys.space) {
            0
        } else if input.pressed(keys.down) {
            1
        } else if input.pressed(keys.up) {
            -1i8
        } else {
            self.vertical_direction
        }
    }

    /// Neutral directions, gravity down, horizontal latch armed and vertical
    /// latch disarmed.
    pub fn new() -> (r: Controls)
        ensures
            r.wf(),
            r == (Controls {
                horizontal_direction: 0,
                vertical_direction: 0,
                gravity_y: 1,
                gravity_x: 0,
                can_flip_x: true,
                can_flip_y: false,
                flip_cooldown: 0,
            }),
    {
        Controls {
            horizontal_direction: 0,
            vertical_direction: 0,
            gravity_y: 1,
            gravity_x: 0,
            can_flip_x: true,
            can_flip_y: false,
            flip_cooldown: 0,
        }
    }

    /// Clears both desired directions.
    pub fn new_level(&mut self)
        ensures
            *final(self) == (Controls {
                horizontal_direction: 0,
                vertical_direction: 0,
                ..*old(self)
            }),
    {
        self.horizontal_direction = 0;
        self.vertical_direction = 0;
    }

    pub fn left(&mut self)
        ensures
            *final(self) == (Controls { horizontal_direction: -1i8, ..*old(self) }),
    {
        self.horizontal_direction = -1;
    }

    pub fn right(&mut self)
        ensures
            *final(self) == (Controls { horizontal_direction: 1, ..*old(self) }),
    {
        self.horizontal_direction = 1;
    }

    pub fn up(&mut self)
        ensures
            *final(self) == (Controls { vertical_direction: -1i8, ..*old(self) }),
    {
        self.vertical_direction = -1;
    }

    pub fn down(&mut self)
        ensures
            *final(self) == (Controls { vertical_direction: 1, ..*old(self) }),
    {
        self.vertical_direction = 1;
    }

    /// Clears both desired directions.
    pub fn space(&mut self)
        ensures
            *final(self) == (Controls {
                horizontal_direction: 0,
                vertical_direction: 0,
                ..*old(self)
            }),
    {
        self.horizontal_direction = 0;
        self.vertical_direction = 0;
    }

    /// One substep of control: applies the keys pressed this frame, lets
    /// gravity follow the desired direction on each axis whose latch is
    /// armed, returns the thrust to add to the player's velocity, then
    /// disarms the vertical latch, arms the horizontal one and counts the
    /// flip cooldown down.
    pub fn update_player(&mut self, input: &InputVars, keys: &KeyBindings) -> (t: Thrust)
        requires
            old(self).wf(),
        ensures
            final(self).wf(),
            final(self).horizontal_direction == old(self).next_horizontal(*input, *keys),
            final(self).vertical_direction == old(self).next_vertical(*input, *keys),
            final(self).gravity_x == (if old(self).can_flip_x {
                old(self).next_horizontal(*input, *keys)
            } else {
                old(self).gravity_x
            }),
            final(self).gravity_y == (if old(self).can_flip_y && old(self).next_vertical(
                *input,
                *keys,
            ) != 0 {
                old(self).next_vertical(*input, *keys)
            } else {
                old(self).gravity_y
            }),
            t == (Thrust { x: final(self).gravity_x, y: final(self).gravity_y }),
            final(self).can_flip_x,
            !final(self).can_flip_y,
            final(self).flip_cooldown == (if old(self).flip_cooldown > 0 {
                old(self).flip_cooldown - 1
            } else {
                0
            }),
    {
        if input.key_pressed(keys.left) {
            self.left();
        }
        if input.key_pressed(keys.right) {
            self.right();
        }
        if input.key_pressed(keys.up) {
            self.up();
        }
        if input.key_pressed(keys.down) {
            self.down();
        }
        if input.key_pressed(keys.space) {
            self.space();
        }
        if self.can_flip_x {
            self.gravity_x = self.horizontal_direction;
        }
        if self.can_flip_y && self.vertical_direction != 0 {
            self.gravity_y = self.vertical_direction;
        }
        self.can_flip_y = false;
        self.can_flip_x = true;
        if self.flip_cooldown > 0 {
            self.flip_cooldown = self.flip_cooldown - 1;
        }
        Thrust { x: self.gravity_x, y: self.gravity_y }
    }
}

} // verus!
