use horrible_game::consts::FLIP_COOLDOWN;
use horrible_game::controls::Controls;
use horrible_game::object::{Behavior, CollideAction, Direction, Motion, Sign, TouchEffect};

fn still() -> Motion {
    Motion { x: Sign::Zero, y: Sign::Zero, x_effective: Sign::Zero, y_effective: Sign::Zero }
}

fn moving(x: Sign, y: Sign) -> Motion {
    Motion { x, y, x_effective: x, y_effective: y }
}

fn nothing() -> TouchEffect {
    TouchEffect {
        stop_x: false,
        stop_y: false,
        push: None,
        water: false,
        kick: None,
        action: CollideAction::NoAction,
    }
}

#[test]
fn opposite_directions() {
    assert_eq!(Direction::Up.opposite(), Direction::Down);
    assert_eq!(Direction::Down.opposite(), Direction::Up);
    assert_eq!(Direction::Left.opposite(), Direction::Right);
    assert_eq!(Direction::Right.opposite(), Direction::Left);
}

#[test]
fn priorities() {
    assert_eq!(Behavior::Kill.priority(), 0);
    assert_eq!(Behavior::Decorative.priority(), 0);
    assert_eq!(Behavior::Advance.priority(), 1);
    assert_eq!(Behavior::Water.priority(), 20);
    assert_eq!(Behavior::Slime.priority(), 21);
    assert_eq!(Behavior::Flip.priority(), 40);
    assert_eq!(Behavior::Stop.priority(), 60);
    assert_eq!(Behavior::Stick.priority(), 61);
    assert_eq!(Behavior::Move(Direction::Left).priority(), 62);
    assert_eq!(Behavior::Wrap.priority(), 80);
    assert_eq!(Behavior::Portal.priority(), 81);
}

#[test]
fn decorative_tiles_do_not_interact() {
    assert!(!Behavior::Decorative.interactable());
    assert!(Behavior::Stop.interactable());
    assert!(Behavior::Water.interactable());
}

#[test]
fn stop_on_top_zeroes_falling_speed_and_arms_latch() {
    let mut c = Controls::new();
    let e = Behavior::Stop.on_touch(Direction::Up, moving(Sign::Positive, Sign::Positive), &mut c);
    assert_eq!(e, TouchEffect { stop_y: true, ..nothing() });
    assert!(c.can_flip_y);
}

#[test]
fn stop_uses_effective_speed() {
    let mut c = Controls::new();
    let m = Motion {
        x: Sign::Zero,
        y: Sign::Positive,
        x_effective: Sign::Zero,
        y_effective: Sign::Negative,
    };
    let e = Behavior::Stop.on_touch(Direction::Up, m, &mut c);
    assert!(!e.stop_y);
    let e = Behavior::Stop.on_touch(Direction::Down, m, &mut c);
    assert!(e.stop_y);
}

#[test]
fn stop_on_side_leaves_latch() {
    let mut c = Controls::new();
    let e = Behavior::Stop.on_touch(Direction::Left, moving(Sign::Positive, Sign::Zero), &mut c);
    assert_eq!(e, TouchEffect { stop_x: true, ..nothing() });
    assert!(!c.can_flip_y);
    let e = Behavior::Stop.on_touch(Direction::Right, moving(Sign::Positive, Sign::Zero), &mut c);
    assert_eq!(e, nothing());
}

#[test]
fn terminal_tiles_report_actions() {
    let mut c = Controls::new();
    assert_eq!(Behavior::Kill.on_touch(Direction::Up, still(), &mut c).action, CollideAction::Kill);
    assert_eq!(
        Behavior::Advance.on_touch(Direction::Left, still(), &mut c).action,
        CollideAction::Advance
    );
    assert_eq!(
        Behavior::Wrap.on_touch(Direction::Right, still(), &mut c).action,
        CollideAction::Wrap(Direction::Right)
    );
    assert_eq!(
        Behavior::Portal.on_touch(Direction::Down, still(), &mut c).action,
        CollideAction::MoveScreen(Direction::Down)
    );
    assert_eq!(c, Controls::new());
}

#[test]
fn wrap_keeps_velocity() {
    let mut c = Controls::new();
    let e = Behavior::Wrap.on_touch(Direction::Right, moving(Sign::Negative, Sign::Zero), &mut c);
    assert_eq!(e, TouchEffect { action: CollideAction::Wrap(Direction::Right), ..nothing() });
}

#[test]
fn conveyor_pushes_across_touched_side() {
    let mut c = Controls::new();
    let e = Behavior::Move(Direction::Right).on_touch(
        Direction::Up,
        moving(Sign::Positive, Sign::Zero),
        &mut c,
    );
    assert_eq!(e, TouchEffect { push: Some(Direction::Right), ..nothing() });
    assert!(c.can_flip_y);
    let e = Behavior::Move(Direction::Right).on_touch(Direction::Left, still(), &mut c);
    assert_eq!(e.push, None);
    let e = Behavior::Move(Direction::Up).on_touch(
        Direction::Right,
        moving(Sign::Negative, Sign::Zero),
        &mut c,
    );
    assert_eq!(e, TouchEffect { stop_x: true, push: Some(Direction::Up), ..nothing() });
}

#[test]
fn conveyor_pushes_every_substep_of_contact() {
    let mut c = Controls::new();
    for _ in 0..5 {
        let e = Behavior::Move(Direction::Right).on_touch(
            Direction::Up,
            moving(Sign::Positive, Sign::Zero),
            &mut c,
        );
        assert_eq!(e.push, Some(Direction::Right));
    }
}

#[test]
fn sticky_block_holds_both_axes() {
    let mut c = Controls::new();
    let e = Behavior::Stick.on_touch(Direction::Up, moving(Sign::Positive, Sign::Negative), &mut c);
    assert_eq!(e, TouchEffect { stop_x: true, ..nothing() });
    assert!(c.can_flip_y);
    let e = Behavior::Stick.on_touch(Direction::Left, moving(Sign::Positive, Sign::Negative), &mut c);
    assert_eq!(e, TouchEffect { stop_x: true, stop_y: true, ..nothing() });
}

#[test]
fn water_and_slime() {
    let mut c = Controls::new();
    let e = Behavior::Water.on_touch(Direction::Up, still(), &mut c);
    assert_eq!(e, TouchEffect { water: true, ..nothing() });
    assert!(c.can_flip_x);
    let e = Behavior::Slime.on_touch(Direction::Up, still(), &mut c);
    assert_eq!(e, nothing());
    assert!(!c.can_flip_x);
}

#[test]
fn flipper_flips_once_per_cooldown() {
    let mut c = Controls::new();
    assert_eq!(c.gravity_y, 1);
    let e = Behavior::Flip.on_touch(Direction::Up, still(), &mut c);
    assert_eq!(e.kick, Some(Direction::Down));
    assert_eq!(c.gravity_y, -1);
    assert_eq!(c.vertical_direction, -1);
    assert_eq!(c.flip_cooldown, FLIP_COOLDOWN);
    let e = Behavior::Flip.on_touch(Direction::Up, still(), &mut c);
    assert_eq!(e.kick, None);
    assert_eq!(c.gravity_y, -1);
    c.flip_cooldown = 0;
    let e = Behavior::Flip.on_touch(Direction::Down, still(), &mut c);
    assert_eq!(e.kick, Some(Direction::Up));
    assert_eq!(c.gravity_y, 1);
}

#[test]
fn decorative_does_nothing() {
    let mut c = Controls::new();
    let e = Behavior::Decorative.on_touch(Direction::Up, moving(Sign::Positive, Sign::Positive), &mut c);
    assert_eq!(e, nothing());
    assert_eq!(c, Controls::new());
}
