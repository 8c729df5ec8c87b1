use minesweeper::{Cell, Game, Kind, Status, DEFAULT_CELL_COUNT};

fn game_of(draws: &[usize]) -> Game {
    let draws: Vec<usize> = draws.to_vec();
    Game::new(Some(draws.len()), &draws)
}

#[test]
fn create_many_gives_dense_indices() {
    let draws: Vec<usize> = vec![1, 0, 1, 1, 0];
    let cells = Cell::create_many(5, &draws);
    assert_eq!(cells.len(), 5);
    for (i, cell) in cells.iter().enumerate() {
        assert_eq!(cell.index, i);
        assert!(!cell.revealed);
    }
    assert_eq!(cells[0].kind, Kind::BOMB);
    assert_eq!(cells[1].kind, Kind::EMPTY);
    assert_eq!(cells[4].kind, Kind::EMPTY);
}

#[test]
fn create_many_ignores_extra_draws() {
    let draws: Vec<usize> = vec![0, 1, 1];
    let cells = Cell::create_many(2, &draws);
    assert_eq!(cells.len(), 2);
    assert_eq!(cells[1].kind, Kind::BOMB);
}

#[test]
fn create_many_zero_is_empty() {
    let draws: Vec<usize> = Vec::new();
    assert!(Cell::create_many(0, &draws).is_empty());
    let game = Game::new(Some(0), &draws);
    assert!(game.get_cells().is_empty());
}

#[test]
fn new_game_uses_default_size() {
    let draws: Vec<usize> = vec![0; DEFAULT_CELL_COUNT];
    let game = Game::new(None, &draws);
    assert_eq!(DEFAULT_CELL_COUNT, 99);
    assert_eq!(game.get_cells().len(), 99);
    assert_eq!(game.status(), None);
    assert!(!game.is_paused());
    assert!(game.get_cells().iter().all(|c| !c.revealed));
}

#[test]
fn get_cell_rejects_index_at_board_size() {
    let game = game_of(&[0, 1, 0]);
    assert_eq!(
        game.get_cell(2),
        Some(Cell { index: 2, kind: Kind::EMPTY, revealed: false })
    );
    assert_eq!(game.get_cell(1).map(|c| c.kind), Some(Kind::BOMB));
    assert_eq!(game.get_cell(3), None);
    assert_eq!(game.get_cell(usize::MAX), None);
}

#[test]
fn single_empty_cell_wins() {
    let mut game = game_of(&[0]);
    game.touch_cell(0);
    assert_eq!(game.status(), Some(Status::WON));
    assert!(game.get_cells()[0].revealed);
}

#[test]
fn touching_mine_loses_and_keeps_others_hidden() {
    let mut game = game_of(&[0, 1, 0]);
    game.touch_cell(1);
    assert_eq!(game.status(), Some(Status::LOST));
    let cells = game.get_cells();
    assert!(!cells[0].revealed);
    assert!(cells[1].revealed);
    assert!(!cells[2].revealed);
}

#[test]
fn two_empty_cells_play_then_win() {
    let mut game = game_of(&[0, 0]);
    game.touch_cell(0);
    assert_eq!(game.status(), Some(Status::PLAYING));
    game.touch_cell(1);
    assert_eq!(game.status(), Some(Status::WON));
}

#[test]
fn last_hidden_cell_as_mine_loses() {
    let mut game = game_of(&[0, 1]);
    game.touch_cell(0);
    assert_eq!(game.status(), Some(Status::PLAYING));
    game.touch_cell(1);
    assert_eq!(game.status(), Some(Status::LOST));
}

#[test]
fn mine_first_touch_on_large_board_loses() {
    let mut game = game_of(&[0, 0, 0, 1, 0, 0]);
    game.touch_cell(3);
    assert_eq!(game.status(), Some(Status::LOST));
}

#[test]
fn lost_game_ignores_touches() {
    let mut game = game_of(&[1, 0, 0]);
    game.touch_cell(0);
    assert_eq!(game.status(), Some(Status::LOST));
    let before = game.get_cells();
    game.touch_cell(1);
    game.touch_cell(2);
    assert_eq!(game.status(), Some(Status::LOST));
    assert_eq!(game.get_cells(), before);
    assert!(!game.get_cells()[1].revealed);
}

#[test]
fn won_game_stays_won() {
    let mut game = game_of(&[0, 0]);
    game.touch_cell(0);
    game.touch_cell(1);
    game.touch_cell(0);
    assert_eq!(game.status(), Some(Status::WON));
}

#[test]
fn retouching_revealed_cell_with_others_hidden_keeps_playing() {
    let mut game = game_of(&[0, 0, 0]);
    game.touch_cell(1);
    game.touch_cell(1);
    assert_eq!(game.status(), Some(Status::PLAYING));
    let cells = game.get_cells();
    assert!(!cells[0].revealed && cells[1].revealed && !cells[2].revealed);
}

#[test]
fn is_paused_false_unless_paused() {
    let mut game = game_of(&[0, 0, 0]);
    assert!(!game.is_paused());
    game.touch_cell(0);
    assert!(!game.is_paused());
    assert!(game.pause());
    assert!(game.is_paused());
    assert_eq!(game.status(), Some(Status::PAUSED));
    assert!(game.resume());
    assert!(!game.is_paused());
    assert_eq!(game.status(), Some(Status::PLAYING));
}

#[test]
fn pause_only_from_playing() {
    let mut game = game_of(&[1, 0]);
    assert!(!game.pause());
    assert_eq!(game.status(), None);
    assert!(!game.resume());
    game.touch_cell(0);
    assert!(!game.pause());
    assert_eq!(game.status(), Some(Status::LOST));
}

#[test]
fn touching_while_paused_recomputes_status() {
    let mut game = game_of(&[0, 0, 0]);
    game.touch_cell(0);
    assert!(game.pause());
    game.touch_cell(1);
    assert_eq!(game.status(), Some(Status::PLAYING));
    assert!(!game.is_paused());
}
