use horrible_game::consts::TILES;
use horrible_game::game::{reduce_actions, Progress, Step};
use horrible_game::levels::{start_cell, tile_placements, GridSpace, Level, LevelGrid, LoadError, Placement};
use horrible_game::object::{Behavior, CollideAction, Direction};

#[test]
fn palette_numbers() {
    assert_eq!(GridSpace::from_id(0), GridSpace::Empty);
    assert_eq!(GridSpace::from_id(1), GridSpace::Block);
    assert_eq!(GridSpace::from_id(3), GridSpace::Enemy);
    assert_eq!(GridSpace::from_id(13), GridSpace::Flipper);
    assert_eq!(GridSpace::from_id(14), GridSpace::Empty);
    assert_eq!(GridSpace::MAX, 14);
}

#[test]
fn kinds_to_behaviors() {
    assert_eq!(GridSpace::Block.behavior(), Some(Behavior::Stop));
    assert_eq!(GridSpace::Spike.behavior(), Some(Behavior::Kill));
    assert_eq!(GridSpace::ConveyorR.behavior(), Some(Behavior::Move(Direction::Right)));
    assert_eq!(GridSpace::ConveyorL.behavior(), Some(Behavior::Move(Direction::Left)));
    assert_eq!(GridSpace::Transition.behavior(), Some(Behavior::Portal));
    assert_eq!(GridSpace::Flipper.behavior(), Some(Behavior::Flip));
    assert_eq!(GridSpace::StartingLocation.behavior(), None);
    assert_eq!(GridSpace::Empty.behavior(), None);
}

#[test]
fn placements_skip_empty_and_start() {
    let grid = vec![
        vec![GridSpace::Empty, GridSpace::Block],
        vec![GridSpace::StartingLocation, GridSpace::Water, GridSpace::Spike],
    ];
    let p = tile_placements(&grid).unwrap();
    assert_eq!(
        p,
        vec![
            Placement { row: 0, col: 1, kind: GridSpace::Block, behavior: Behavior::Stop },
            Placement { row: 1, col: 1, kind: GridSpace::Water, behavior: Behavior::Water },
            Placement { row: 1, col: 2, kind: GridSpace::Spike, behavior: Behavior::Kill },
        ]
    );
}

#[test]
fn enemy_refuses_the_grid() {
    let grid = vec![vec![GridSpace::Block], vec![GridSpace::Empty, GridSpace::Enemy]];
    assert_eq!(tile_placements(&grid), Err(LoadError::Unimplemented { row: 1, col: 1 }));
}

#[test]
fn start_cell_is_last_marker() {
    let grid = vec![
        vec![GridSpace::StartingLocation, GridSpace::Empty],
        vec![GridSpace::Empty, GridSpace::StartingLocation],
    ];
    assert_eq!(start_cell(&grid), Some((1, 1)));
    assert_eq!(start_cell(&vec![vec![GridSpace::Block]]), None);
}

#[test]
fn text_levels() {
    let g: LevelGrid<()> = LevelGrid::from_str("B_S\nPGx\n\nWT".to_string());
    assert_eq!(
        g.contents,
        vec![
            vec![GridSpace::Block, GridSpace::Empty, GridSpace::Spike],
            vec![GridSpace::StartingLocation, GridSpace::Goal],
            vec![],
            vec![GridSpace::Wrap, GridSpace::Transition],
        ]
    );
    let g: LevelGrid<()> = LevelGrid::from_str(String::new());
    assert_eq!(g.contents, vec![Vec::<GridSpace>::new()]);
}

#[test]
fn blank_screen() {
    let g: LevelGrid<u8> = LevelGrid::new();
    assert_eq!(g.contents.len(), TILES + 2);
    assert!(g.contents.iter().all(|r| r.len() == TILES + 2 && r.iter().all(|c| *c == GridSpace::Empty)));
    let g = g.add_others(vec![1, 2]);
    assert_eq!(g.others, vec![1, 2]);
}

fn level(rows: usize, cols: usize, start: [usize; 2]) -> Level<()> {
    let mut grid = Vec::new();
    for _ in 0..rows {
        let mut line = Vec::new();
        for _ in 0..cols {
            line.push(LevelGrid::from_str(String::new()));
        }
        grid.push(line);
    }
    Level { grid, player_start: start }
}

#[test]
fn level_start_screen() {
    let mut l = level(2, 3, [2, 1]);
    l.grid[1][2].contents = vec![vec![GridSpace::Goal]];
    assert_eq!(l.start().contents, vec![vec![GridSpace::Goal]]);
}

#[test]
fn kill_beats_everything() {
    let q = vec![
        CollideAction::MoveScreen(Direction::Up),
        CollideAction::Kill,
        CollideAction::Advance,
        CollideAction::Wrap(Direction::Left),
    ];
    assert_eq!(reduce_actions(&q), CollideAction::Kill);
}

#[test]
fn reduction_order() {
    assert_eq!(reduce_actions(&vec![]), CollideAction::NoAction);
    assert_eq!(
        reduce_actions(&vec![CollideAction::NoAction, CollideAction::Advance, CollideAction::NoAction]),
        CollideAction::Advance
    );
    assert_eq!(
        reduce_actions(&vec![
            CollideAction::MoveScreen(Direction::Up),
            CollideAction::Wrap(Direction::Left),
        ]),
        CollideAction::Wrap(Direction::Left)
    );
    assert_eq!(
        reduce_actions(&vec![
            CollideAction::MoveScreen(Direction::Up),
            CollideAction::MoveScreen(Direction::Down),
        ]),
        CollideAction::MoveScreen(Direction::Down)
    );
}

#[test]
fn spike_drop_restarts_death_level() {
    let levels = vec![level(1, 1, [0, 0]), level(2, 2, [1, 0])];
    let mut p = Progress::new_level(&levels, 1);
    assert_eq!(p.current_pos, [0, 1]);
    let action = reduce_actions(&vec![CollideAction::NoAction, CollideAction::Kill]);
    assert_eq!(p.apply(action, &levels), Step::LoadLevel);
    assert_eq!(p.current_level, 0);
    assert_eq!(p.current_pos, [0, 0]);
}

#[test]
fn goal_advances_and_last_level_repeats() {
    let levels = vec![level(1, 1, [0, 0]), level(2, 2, [1, 1])];
    let mut p = Progress::new_level(&levels, 0);
    assert_eq!(p.apply(CollideAction::Advance, &levels), Step::LoadLevel);
    assert_eq!((p.current_level, p.current_pos), (1, [1, 1]));
    assert_eq!(p.apply(CollideAction::Advance, &levels), Step::LoadLevel);
    assert_eq!(p.current_level, 1);
}

#[test]
fn portal_moves_to_neighbor_screen() {
    let levels = vec![level(2, 3, [0, 0])];
    let mut p = Progress::new_level(&levels, 0);
    let s = p.apply(CollideAction::MoveScreen(Direction::Right), &levels);
    assert_eq!(s, Step::LoadScreen(Direction::Right));
    assert_eq!(p.current_pos, [0, 1]);
    p.apply(CollideAction::MoveScreen(Direction::Up), &levels);
    assert_eq!(p.current_pos, [1, 1]);
    p.apply(CollideAction::MoveScreen(Direction::Down), &levels);
    assert_eq!(p.current_pos, [0, 1]);
    p.apply(CollideAction::MoveScreen(Direction::Left), &levels);
    p.apply(CollideAction::MoveScreen(Direction::Left), &levels);
    assert_eq!(p.current_pos, [0, 2]);
}

#[test]
fn wrap_repositions_on_same_screen() {
    let levels = vec![level(2, 2, [0, 0])];
    let mut p = Progress::new_level(&levels, 0);
    assert_eq!(p.apply(CollideAction::Wrap(Direction::Right), &levels), Step::Reposition(Direction::Right));
    assert_eq!((p.current_level, p.current_pos), (0, [0, 0]));
    assert_eq!(p.apply(CollideAction::NoAction, &levels), Step::Continue);
}
