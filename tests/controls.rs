use horrible_game::consts::{LEFT_MOUSE, RIGHT_MOUSE};
use horrible_game::controls::{Controls, KeyBindings, Thrust};
use horrible_game::input::InputVars;

fn keys() -> KeyBindings {
    KeyBindings { left: 1, right: 2, up: 3, down: 4, space: 5 }
}

#[test]
fn key_edges() {
    let mut input = InputVars::new();
    input.update_key(7, true);
    assert!(input.key_down(7));
    assert!(input.key_pressed(7));
    assert!(!input.key_released(7));
    input.reset();
    assert!(input.key_down(7));
    assert!(!input.key_pressed(7));
    input.update_key(7, false);
    assert!(!input.key_down(7));
    assert!(input.key_released(7));
}

#[test]
fn mouse_masks() {
    let mut input = InputVars::new();
    input.update_mouse(LEFT_MOUSE, true);
    assert!(input.mouse_down(LEFT_MOUSE));
    assert!(input.mouse_pressed(LEFT_MOUSE));
    assert!(!input.mouse_down(RIGHT_MOUSE));
    input.reset();
    assert!(!input.mouse_pressed(LEFT_MOUSE));
    input.update_mouse(LEFT_MOUSE, false);
    assert!(input.mouse_released(LEFT_MOUSE));
    assert!(!input.mouse_down(LEFT_MOUSE));
}

#[test]
fn text_is_handed_out_once() {
    let mut input = InputVars::new();
    input.text_buffer.push_str("ab");
    assert_eq!(input.grab_text(), "ab".to_string());
    assert_eq!(input.grab_text(), String::new());
    input.focus(false);
    input.cursor(false);
    assert!(!input.has_focus);
    assert!(!input.has_cursor);
}

#[test]
fn new_controls() {
    let c = Controls::new();
    assert_eq!(c.horizontal_direction, 0);
    assert_eq!(c.vertical_direction, 0);
    assert_eq!(c.gravity_y, 1);
    assert_eq!(c.gravity_x, 0);
    assert!(c.can_flip_x);
    assert!(!c.can_flip_y);
}

#[test]
fn direction_keys() {
    let mut c = Controls::new();
    c.left();
    assert_eq!(c.horizontal_direction, -1);
    c.right();
    assert_eq!(c.horizontal_direction, 1);
    c.up();
    assert_eq!(c.vertical_direction, -1);
    c.down();
    assert_eq!(c.vertical_direction, 1);
    c.space();
    assert_eq!((c.horizontal_direction, c.vertical_direction), (0, 0));
    c.right();
    c.new_level();
    assert_eq!((c.horizontal_direction, c.vertical_direction), (0, 0));
}

#[test]
fn horizontal_thrust_follows_keys() {
    let mut c = Controls::new();
    let mut input = InputVars::new();
    input.update_key(2, true);
    let t = c.update_player(&input, &keys());
    assert_eq!(t, Thrust { x: 1, y: 1 });
    assert!(c.can_flip_x);
    assert!(!c.can_flip_y);
}

#[test]
fn gravity_changes_only_when_grounded() {
    let mut c = Controls::new();
    let mut input = InputVars::new();
    input.update_key(3, true);
    let t = c.update_player(&input, &keys());
    assert_eq!(t.y, 1);
    assert_eq!(c.vertical_direction, -1);
    c.can_flip_y = true;
    let t = c.update_player(&input, &keys());
    assert_eq!(t.y, -1);
    assert_eq!(c.gravity_y, -1);
}

#[test]
fn slime_holds_horizontal_gravity() {
    let mut c = Controls::new();
    let mut input = InputVars::new();
    input.update_key(1, true);
    c.can_flip_x = false;
    let t = c.update_player(&input, &keys());
    assert_eq!(t.x, 0);
    assert_eq!(c.horizontal_direction, -1);
    let t = c.update_player(&input, &keys());
    assert_eq!(t.x, -1);
}

#[test]
fn space_clears_directions() {
    let mut c = Controls::new();
    let mut input = InputVars::new();
    input.update_key(1, true);
    input.update_key(5, true);
    let t = c.update_player(&input, &keys());
    assert_eq!(t.x, 0);
    assert_eq!(c.horizontal_direction, 0);
}

#[test]
fn flip_cooldown_counts_down() {
    let mut c = Controls::new();
    c.flip_cooldown = 2;
    let input = InputVars::new();
    c.update_player(&input, &keys());
    assert_eq!(c.flip_cooldown, 1);
    c.update_player(&input, &keys());
    c.update_player(&input, &keys());
    assert_eq!(c.flip_cooldown, 0);
}
