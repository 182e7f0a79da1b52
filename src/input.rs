//! The input snapshot: which keys and mouse buttons are held, and which of
//! them changed since the last frame.
use std::collections::HashSet;
use vstd::prelude::*;

verus! {

broadcast use vstd::std_specs::hash::group_hash_axioms;

/// Keys and mouse buttons held, the ones that changed this frame, and the
/// window's focus, cursor and typed text.
pub struct InputVars {
    key_down: HashSet<u32>,
    key_changed: HashSet<u32>,
    mouse_pressed: u8,
    mouse_changed: u8,
    pub has_focus: bool,
    pub has_cursor: bool,
    pub text_buffer: String,
}

impl InputVars {
    /// Codes of the keys held down.
    pub closed spec fn held(&self) -> Set<u32> {
        self.key_down@
    }

    /// Codes of the keys that went down or up this frame.
    pub closed spec fn changed(&self) -> Set<u32> {
        self.key_changed@
    }

    /// Mask of the mouse buttons held down.
    pub closed spec fn mouse_held(&self) -> u8 {
        self.mouse_pressed
    }

    /// Mask of the mouse buttons that went down or up this frame.
    pub closed spec fn mouse_changed_mask(&self) -> u8 {
        self.mouse_changed
    }

    /// Whether the window has the focus.
    pub closed spec fn focused(&self) -> bool {
        self.has_focus
    }

    /// Whether the cursor is over the window.
    pub closed spec fn cursor_inside(&self) -> bool {
        self.has_cursor
    }

    /// The text typed and not yet handed out.
    pub closed spec fn text(&self) -> Seq<char> {
        self.text_buffer@
    }

    /// The key is held and went down this frame.
    pub open spec fn pressed(&self, code: u32) -> bool {
        self.held().contains(code) && self.changed().contains(code)
    }

    pub fn new() -> (r: InputVars)
        ensures
            r.held() == Set::<u32>::empty(),
            r.changed() == Set::<u32>::empty(),
            r.mouse_held() == 0,
            r.mouse_changed_mask() == 0,
            r.focused(),
            r.cursor_inside(),
            r.text() == Seq::<char>::empty(),
    {
        InputVars {
            key_down: HashSet::new(),
            key_changed: HashSet::new(),
            mouse_pressed: 0,
            mouse_changed: 0,
            has_focus: true,
            has_cursor: true,
            text_buffer: String::new(),
        }
    }

    /// Starts a new frame: nothing has changed yet.
    pub fn reset(&mut self)
        ensures
            final(self).held() == old(self).held(),
            final(self).changed() == Set::<u32>::empty(),
            final(self).mouse_held() == old(self).mouse_held(),
            final(self).mouse_changed_mask() == 0,
            final(self).focused() == old(self).focused(),
            final(self).cursor_inside() == old(self).cursor_inside(),
            final(self).text() == old(self).text(),
    {
        self.key_changed.clear();
        self.mouse_changed = 0;
    }

    /// Records that the key went down (`state`) or up.
    pub fn update_key(&mut self, code: u32, state: bool)
        ensures
            final(self).changed() == old(self).changed().insert(code),
            final(self).held() == (if state {
                old(self).held().insert(code)
            } else {
                old(self).held().remove(code)
            }),
            final(self).mouse_held() == old(self).mouse_held(),
            final(self).mouse_changed_mask() == old(self).mouse_changed_mask(),
            final(self).focused() == old(self).focused(),
            final(self).cursor_inside() == old(self).cursor_inside(),
            final(self).text() == old(self).text(),
    {
        self.key_changed.insert(code);
        if state {
            self.key_down.insert(code);
        } else {
            self.key_down.remove(&code);
        }
    }

    pub fn key_down(&self, code: u32) -> (r: bool)
        ensures
            r == self.held().contains(code),
    {
        self.key_down.contains(&code)
    }

    /// The key went down this frame and is held.
    pub fn key_pressed(&self, code: u32) -> (r: bool)
        ensures
            r == self.pressed(code),
    {
        self.key_down.contains(&code) && self.key_changed.contains(&code)
    }

    /// The key went up this frame and is not held.
    pub fn key_released(&self, code: u32) -> (r: bool)
        ensures
            r == (!self.held().contains(code) && self.changed().contains(code)),
    {
        !self.key_down.contains(&code) && self.key_changed.contains(&code)
    }

    /// Records that the buttons of mask `code` went down (`state`) or up.
    pub fn update_mouse(&mut self, code: u8, state: bool)
        ensures
            final(self).mouse_changed_mask() == old(self).mouse_changed_mask() | code,
            final(self).mouse_held() == (if state {
                old(self).mouse_held() | code
            } else {
                old(self).mouse_held() & !code
            }),
            final(self).held() == old(self).held(),
            final(self).changed() == old(self).changed(),
            final(self).focused() == old(self).focused(),
            final(self).cursor_inside() == old(self).cursor_inside(),
            final(self).text() == old(self).text(),
    {
        self.mouse_changed = self.mouse_changed | code;
        if state {
            self.mouse_pressed = self.mouse_pressed | code;
        } else {
            self.mouse_pressed = self.mouse_pressed & !code;
        }
    }

    /// Some button of the mask is held.
    pub fn mouse_down(&self, code: u8) -> (r: bool)
        ensures
            r == (self.mouse_held() & code != 0),
    {
        (self.mouse_pressed & code) != 0
    }

    /// Some button of the mask is held and changed this frame.
    pub fn mouse_pressed(&self, code: u8) -> (r: bool)
        ensures
            r == (self.mouse_held() & code != 0 && self.mouse_changed_mask() & code != 0),
    {
        ((self.mouse_pressed & code) != 0) && ((self.mouse_changed & code) != 0)
    }

    /// No button of the mask is held, and some changed this frame.
    pub fn mouse_released(&self, code: u8) -> (r: bool)
        ensures
            r == (self.mouse_held() & code == 0 && self.mouse_changed_mask() & code != 0),
    {
        ((self.mouse_pressed & code) == 0) && ((self.mouse_changed & code) != 0)
    }

    pub fn focus(&mut self, input: bool)
        ensures
            final(self).focused() == input,
            final(self).cursor_inside() == old(self).cursor_inside(),
            final(self).text() == old(self).text(),
            final(self).held() == old(self).held(),
            final(self).changed() == old(self).changed(),
            final(self).mouse_held() == old(self).mouse_held(),
            final(self).mouse_changed_mask() == old(self).mouse_changed_mask(),
    {
        self.has_focus = input;
    }

    pub fn cursor(&mut self, input: bool)
        ensures
            final(self).cursor_inside() == input,
            final(self).focused() == old(self).focused(),
            final(self).text() == old(self).text(),
            final(self).held() == old(self).held(),
            final(self).changed() == old(self).changed(),
            final(self).mouse_held() == old(self).mouse_held(),
            final(self).mouse_changed_mask() == old(self).mouse_changed_mask(),
    {
        self.has_cursor = input;
    }

    /// Hands out the text typed so far and empties the buffer.
    pub fn grab_text(&mut self) -> (r: String)
        ensures
            r@ == old(self).text(),
            final(self).text() == Seq::<char>::empty(),
            final(self).focused() == old(self).focused(),
            final(self).cursor_inside() == old(self).cursor_inside(),
            final(self).held() == old(self).held(),
            final(self).changed() == old(self).changed(),
            final(self).mouse_held() == old(self).mouse_held(),
            final(self).mouse_changed_mask() == old(self).mouse_changed_mask(),
    {
        let mut taken = String::new();
        std::mem::swap(&mut taken, &mut self.text_buffer);
        taken
    }
}

} // verus!
