use horrible_game::editor::EditMap;
use horrible_game::levels::GridSpace;

fn cell(m: &EditMap<()>, r: usize, c: usize, y: usize, x: usize) -> GridSpace {
    m.grid[r][c].contents[y][x]
}

#[test]
fn new_map_has_start_marker() {
    let m: EditMap<()> = EditMap::new();
    assert_eq!(m.size, [1, 1]);
    assert_eq!(m.current, [0, 0]);
    assert_eq!(m.player_start, [0; 4]);
    assert_eq!(cell(&m, 0, 0, 0, 0), GridSpace::StartingLocation);
    assert_eq!(m.current_item, GridSpace::Empty);
}

#[test]
fn grow_and_navigate() {
    let mut m: EditMap<()> = EditMap::new();
    m.grow_horizon_plus();
    m.right();
    assert_eq!(m.size, [2, 1]);
    assert_eq!(m.current, [1, 0]);
    m.grow_vert_plus();
    m.down();
    assert_eq!(m.size, [2, 2]);
    assert_eq!(m.current, [1, 1]);
    m.right();
    assert_eq!(m.current, [0, 1]);
    m.down();
    assert_eq!(m.current, [0, 0]);
    m.up();
    assert_eq!(m.current, [0, 1]);
    m.left();
    assert_eq!(m.current, [1, 1]);
}

#[test]
fn growing_before_the_start_shifts_it() {
    let mut m: EditMap<()> = EditMap::new();
    m.grow_vert();
    assert_eq!(m.player_start, [0, 1, 0, 0]);
    assert_eq!(cell(&m, 1, 0, 0, 0), GridSpace::StartingLocation);
    assert_eq!(cell(&m, 0, 0, 0, 0), GridSpace::Empty);
    m.grow_horizon();
    assert_eq!(m.player_start, [1, 1, 0, 0]);
    assert_eq!(m.grid[1].len(), 2);
}

#[test]
fn shrinking_the_start_row_moves_the_marker() {
    let mut m: EditMap<()> = EditMap::new();
    m.grow_vert();
    m.down();
    assert_eq!(m.current, [0, 1]);
    m.shrink_vert();
    assert_eq!(m.size, [1, 1]);
    assert_eq!(m.current, [0, 0]);
    assert_eq!(m.player_start, [0; 4]);
    assert_eq!(cell(&m, 0, 0, 0, 0), GridSpace::StartingLocation);
}

#[test]
fn shrinking_the_last_screen_clears() {
    let mut m: EditMap<()> = EditMap::new();
    m.current_item = GridSpace::Block;
    m.place([3, 2]);
    m.shrink_horizon();
    assert_eq!(cell(&m, 0, 0, 2, 3), GridSpace::Empty);
    assert_eq!(m.current_item, GridSpace::Block);
    m.grow_horizon_plus();
    m.shrink_horizon();
    assert_eq!(m.size, [1, 1]);
}

#[test]
fn placing_and_picking() {
    let mut m: EditMap<()> = EditMap::new();
    m.select_from_guide([2, 1]);
    assert_eq!(m.current_item, GridSpace::from_id(5));
    m.place([4, 3]);
    assert_eq!(m.player_start, [0, 0, 3, 4]);
    assert_eq!(cell(&m, 0, 0, 3, 4), GridSpace::StartingLocation);
    assert_eq!(cell(&m, 0, 0, 0, 0), GridSpace::Empty);
    m.select_from_guide([1, 0]);
    m.place([0, 0]);
    m.place([1000, 0]);
    assert_eq!(cell(&m, 0, 0, 0, 0), GridSpace::Block);
    m.current_item = GridSpace::Empty;
    m.pick([0, 0]);
    assert_eq!(m.current_item, GridSpace::Block);
    m.clear();
    assert_eq!(m.player_start, [0; 4]);
    assert_eq!(m.current_item, GridSpace::Block);
}

use horrible_game::editor::{editor_command, EditCommand, EditorKeys};
use horrible_game::input::InputVars;

fn keys() -> EditorKeys {
    EditorKeys {
        left_ctrl: 1,
        right_ctrl: 2,
        left_alt: 3,
        right_alt: 4,
        left_shift: 5,
        right_shift: 6,
        escape: 7,
        enter: 8,
        backspace: 9,
        up: 10,
        down: 11,
        left: 12,
        right: 13,
    }
}

fn press(codes: &[u32]) -> InputVars {
    let mut input = InputVars::new();
    for c in codes {
        input.update_key(*c, true);
    }
    input
}

#[test]
fn commands_by_modifier() {
    assert_eq!(editor_command(&press(&[1, 7]), &keys()), EditCommand::Quit);
    assert_eq!(editor_command(&press(&[2, 8]), &keys()), EditCommand::Save);
    assert_eq!(editor_command(&press(&[1, 10]), &keys()), EditCommand::GrowUp);
    assert_eq!(editor_command(&press(&[1, 13]), &keys()), EditCommand::GrowRight);
    assert_eq!(editor_command(&press(&[1, 9]), &keys()), EditCommand::ShrinkColumn);
    assert_eq!(editor_command(&press(&[3, 8]), &keys()), EditCommand::SaveAndQuit);
    assert_eq!(editor_command(&press(&[4, 9]), &keys()), EditCommand::ShrinkRow);
    assert_eq!(editor_command(&press(&[5, 10]), &keys()), EditCommand::Nothing);
    assert_eq!(editor_command(&press(&[9]), &keys()), EditCommand::ClearScreen);
    assert_eq!(editor_command(&press(&[12]), &keys()), EditCommand::MoveLeft);
    assert_eq!(editor_command(&press(&[]), &keys()), EditCommand::Nothing);
}

#[test]
fn held_key_is_no_new_command() {
    let mut input = press(&[10]);
    input.reset();
    assert_eq!(editor_command(&input, &keys()), EditCommand::Nothing);
}

#[test]
fn running_commands() {
    let mut m: EditMap<()> = EditMap::new();
    assert!(!m.run_command(EditCommand::Save));
    assert!(m.run_command(EditCommand::GrowDown));
    assert_eq!((m.size, m.current), ([1, 2], [0, 1]));
    assert!(m.run_command(EditCommand::GrowRight));
    assert_eq!((m.size, m.current), ([2, 2], [1, 1]));
    m.current_item = GridSpace::Spike;
    m.place([5, 5]);
    assert!(m.run_command(EditCommand::ClearScreen));
    assert_eq!(cell(&m, 1, 1, 5, 5), GridSpace::Empty);
    assert_eq!(cell(&m, 0, 0, 0, 0), GridSpace::StartingLocation);
    assert!(m.run_command(EditCommand::ShrinkRow));
    assert_eq!((m.size, m.current), ([2, 1], [1, 0]));
    assert!(m.run_command(EditCommand::MoveRight));
    assert_eq!(m.current, [0, 0]);
}
