use conway::game::{Game, OutOfBounds};

fn rows(game: &Game) -> Vec<Vec<u8>> {
    (0..game.height()).map(|r| game.front().row(r)).collect()
}

#[test]
fn test_blinker() {
    let mut game = Game::new(3, 3, false);
    let _ = game.set_on(vec![[0, 1], [1, 1], [2, 1]]);
    game.step();
    assert_eq!(game.front().row(0), vec![0, 0, 0]);
    assert_eq!(game.front().row(1), vec![1, 1, 1]);
    assert_eq!(game.front().row(2), vec![0, 0, 0]);
    game.step();
    assert_eq!(game.front().row(0), vec![0, 1, 0]);
    assert_eq!(game.front().row(1), vec![0, 1, 0]);
    assert_eq!(game.front().row(2), vec![0, 1, 0]);
}

#[test]
fn test_glider() {
    let mut game = Game::new(4, 4, false);
    // 0 1 0 0
    // 0 0 1 0
    // 1 1 1 0
    // 0 0 0 0
    let _ = game.set_on(vec![[0, 1], [1, 2], [2, 0], [2, 1], [2, 2]]);
    game.step();
    assert_eq!(game.front().row(0), vec![0, 0, 0, 0]);
    assert_eq!(game.front().row(1), vec![1, 0, 1, 0]);
    assert_eq!(game.front().row(2), vec![0, 1, 1, 0]);
    assert_eq!(game.front().row(3), vec![0, 1, 0, 0]);
    game.step();
    assert_eq!(game.front().row(0), vec![0, 0, 0, 0]);
    assert_eq!(game.front().row(1), vec![0, 0, 1, 0]);
    assert_eq!(game.front().row(2), vec![1, 0, 1, 0]);
    assert_eq!(game.front().row(3), vec![0, 1, 1, 0]);
    game.step();
    assert_eq!(game.front().row(0), vec![0, 0, 0, 0]);
    assert_eq!(game.front().row(1), vec![0, 1, 0, 0]);
    assert_eq!(game.front().row(2), vec![0, 0, 1, 1]);
    assert_eq!(game.front().row(3), vec![0, 1, 1, 0]);
    game.step();
    assert_eq!(game.front().row(0), vec![0, 0, 0, 0]);
    assert_eq!(game.front().row(1), vec![0, 0, 1, 0]);
    assert_eq!(game.front().row(2), vec![0, 0, 0, 1]);
    assert_eq!(game.front().row(3), vec![0, 1, 1, 1]);
}

#[test]
fn rule_table_is_exact() {
    for neighbors in 0..=8usize {
        assert_eq!(Game::alive(false, neighbors), neighbors == 3);
        assert_eq!(Game::alive(true, neighbors), neighbors == 2 || neighbors == 3);
    }
    assert!(Game::alive(false, 3));
    assert!(!Game::alive(false, 2));
    assert!(Game::alive(true, 2));
    assert!(!Game::alive(true, 1));
    assert!(!Game::alive(true, 4));
}

#[test]
fn full_grid_uses_only_previous_generation() {
    let mut game = Game::new(3, 3, false);
    let all: Vec<[usize; 2]> = (0..3).flat_map(|r| (0..3).map(move |c| [r, c])).collect();
    assert_eq!(game.set_on(all), Ok(()));
    game.step();
    assert_eq!(rows(&game), vec![vec![1, 0, 1], vec![0, 0, 0], vec![1, 0, 1]]);
}

#[test]
fn blinker_returns_after_two_steps() {
    let mut game = Game::new(3, 3, false);
    assert_eq!(game.set_on(vec![[0, 1], [1, 1], [2, 1]]), Ok(()));
    let start = rows(&game);
    game.step();
    assert_eq!(rows(&game), vec![vec![0, 0, 0], vec![1, 1, 1], vec![0, 0, 0]]);
    game.step();
    assert_eq!(rows(&game), start);
}

#[test]
fn glider_moves_one_cell_diagonally() {
    let mut game = Game::new(4, 4, false);
    assert_eq!(game.set_on(vec![[0, 1], [1, 2], [2, 0], [2, 1], [2, 2]]), Ok(()));
    for _ in 0..4 {
        game.step();
    }
    assert_eq!(
        rows(&game),
        vec![vec![0, 0, 0, 0], vec![0, 0, 1, 0], vec![0, 0, 0, 1], vec![0, 1, 1, 1]]
    );
}

#[test]
fn clear_kills_everything_and_is_idempotent() {
    let mut game = Game::new(4, 3, true);
    assert_eq!(game.set_on(vec![[0, 0], [1, 2], [2, 3]]), Ok(()));
    game.step();
    game.clear();
    assert_eq!(rows(&game), vec![vec![0; 4]; 3]);
    assert_eq!(game.back().row(2), vec![0; 4]);
    let once = rows(&game);
    game.clear();
    assert_eq!(rows(&game), once);
    assert_eq!((game.width(), game.height(), game.repeating()), (4, 3, true));
}

#[test]
fn corner_cells_have_three_neighbors() {
    let mut game = Game::new(2, 2, false);
    assert_eq!(game.set_on(vec![[0, 0], [0, 1], [1, 0], [1, 1]]), Ok(()));
    game.step();
    assert_eq!(rows(&game), vec![vec![1, 1], vec![1, 1]]);
}

#[test]
fn corner_cell_on_large_grid() {
    let mut game = Game::new(5, 5, false);
    assert_eq!(game.set_on(vec![[0, 1], [1, 0], [1, 1]]), Ok(()));
    game.step();
    assert_eq!(game.front().row(0), vec![1, 1, 0, 0, 0]);
    assert_eq!(game.front().row(1), vec![1, 1, 0, 0, 0]);
}

#[test]
fn dimensions_never_change() {
    let mut game = Game::new(7, 2, false);
    assert_eq!(game.set_on(vec![[1, 6]]), Ok(()));
    game.step();
    game.clear();
    assert!(game.set_on(vec![[2, 0]]).is_err());
    game.step();
    assert_eq!(game.width(), 7);
    assert_eq!(game.height(), 2);
    assert_eq!(game.front().row(1).len(), 7);
}

#[test]
fn seeding_out_of_bounds_is_rejected_and_changes_nothing() {
    let mut game = Game::new(3, 2, false);
    assert_eq!(game.set_on(vec![[0, 0]]), Ok(()));
    assert_eq!(
        game.set_on(vec![[1, 1], [0, 3], [5, 0]]),
        Err(OutOfBounds { row: 0, col: 3 })
    );
    assert_eq!(rows(&game), vec![vec![1, 0, 0], vec![0, 0, 0]]);
    assert_eq!(game.set_off(vec![[2, 0]]), Err(OutOfBounds { row: 2, col: 0 }));
    assert_eq!(rows(&game), vec![vec![1, 0, 0], vec![0, 0, 0]]);
}

#[test]
fn set_off_kills_named_cells() {
    let mut game = Game::new(3, 3, false);
    assert_eq!(game.set_on(vec![[0, 0], [1, 1], [2, 2]]), Ok(()));
    assert_eq!(game.set_off(vec![[1, 1], [0, 2]]), Ok(()));
    assert_eq!(rows(&game), vec![vec![1, 0, 0], vec![0, 0, 0], vec![0, 0, 1]]);
}

#[test]
fn seeding_between_steps_goes_to_the_shown_grid() {
    let mut game = Game::new(3, 3, false);
    game.step();
    assert_eq!(game.set_on(vec![[0, 1], [1, 1], [2, 1]]), Ok(()));
    game.step();
    assert_eq!(rows(&game), vec![vec![0, 0, 0], vec![1, 1, 1], vec![0, 0, 0]]);
}

#[test]
fn back_holds_previous_generation() {
    let mut game = Game::new(3, 3, false);
    assert_eq!(game.set_on(vec![[1, 0], [1, 1], [1, 2]]), Ok(()));
    let before = rows(&game);
    game.step();
    let back: Vec<Vec<u8>> = (0..3).map(|r| game.back().row(r)).collect();
    assert_eq!(back, before);
}

#[test]
fn wrapping_joins_opposite_edges() {
    let mut bounded = Game::new(4, 4, false);
    let mut wrapped = Game::new(4, 4, true);
    let seed = vec![[0, 0], [0, 1], [0, 2]];
    assert_eq!(bounded.set_on(seed.clone()), Ok(()));
    assert_eq!(wrapped.set_on(seed), Ok(()));
    bounded.step();
    wrapped.step();
    assert_eq!(
        rows(&bounded),
        vec![vec![0, 1, 0, 0], vec![0, 1, 0, 0], vec![0, 0, 0, 0], vec![0, 0, 0, 0]]
    );
    assert_eq!(
        rows(&wrapped),
        vec![vec![0, 1, 0, 0], vec![0, 1, 0, 0], vec![0, 0, 0, 0], vec![0, 1, 0, 0]]
    );
}

#[test]
fn wrapping_on_single_row() {
    // On one row joined to itself, each cell's vertical neighbors are the
    // row itself, so three live cells in a row of three all see eight.
    let mut game = Game::new(3, 1, true);
    assert_eq!(game.set_on(vec![[0, 0], [0, 1], [0, 2]]), Ok(()));
    game.step();
    assert_eq!(game.front().row(0), vec![0, 0, 0]);
}
