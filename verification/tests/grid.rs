use gridlife::{CellState, Grid, NeighbourState, Point};

#[test]
fn test_grid_try_get() {
    let g = Grid::new_empty(0, 0);
    assert!(g.try_get(Point { x: 10, y: 10 }) == None);
}

#[test]
fn test_grid_new_random() {
    let rand_g = Grid::new_random(10, 10);
    assert_eq!(rand_g.cells.len(), 100);
}

#[test]
fn test_get_neighbours_state() {
    let mut g = Grid::new_empty(3, 3);
    g.cells[1] = CellState::Alive(g.alive_glyph);
    // x 0 x
    // x x x
    // x x x
    let state = g.get_neighbours_state(Point { x: 0, y: 0 });
    assert_eq!(state.dead, 2);
    assert_eq!(state.alive, 1);
}

#[test]
fn test_get_neighbours_state_unknown_point() {
    let g = Grid::new_empty(3, 3);
    let state = g.get_neighbours_state(Point { x: 5, y: 5 });
    assert_eq!(state.dead, 0);
    assert_eq!(state.alive, 0);
}

#[test]
fn test_grid_display() {
    let mut g = Grid::new_empty(3, 3);
    g.cells[4] = CellState::Alive('X');
    let s = g.to_string();
    assert_eq!(s, "   \n X \n   \n".to_string());
}

#[test]
fn test_grid_debug() {
    let mut g = Grid::new_empty(3, 3);
    g.cells[4] = CellState::Alive('X');
    let s = format!("{:?}", g);
    assert_eq!(s, "Grid { width: 3, height: 3, cells: [Dead(' '), Dead(' '), Dead(' '), Dead(' '), Alive('X'), Dead(' '), Dead(' '), Dead(' '), Dead(' ')], dead_glyph: ' ', alive_glyph: 'X', population: 0 }".to_string());
}

#[test]
fn test_update_state() {
    let mut g = Grid::new_random(10, 10);
    g.update_states();
}

#[test]
fn test_get_cell_state() {
    let g = Grid::new_empty(3, 3);
    // Any live cell with 0 or 1 live neighbors becomes dead, because of underpopulation
    assert_eq!(
        g.get_cell_state(&CellState::Alive('X'), NeighbourState { alive: 1, dead: 0 }),
        CellState::Dead(' ')
    );
    //Any live cell with 2 or 3 live neighbors stays alive, because its neighborhood is just right
    assert_eq!(
        g.get_cell_state(&CellState::Alive('X'), NeighbourState { alive: 3, dead: 0 }),
        CellState::Alive('X')
    );
    // Any live cell with more than 3 live neighbors becomes dead, because of overpopulation
    assert_eq!(
        g.get_cell_state(&CellState::Alive('X'), NeighbourState { alive: 5, dead: 1 }),
        CellState::Dead(' ')
    );
    // Any dead cell with exactly 3 live neighbors becomes alive, by reproduction
    assert_eq!(
        g.get_cell_state(&CellState::Dead(' '), NeighbourState { alive: 3, dead: 0 }),
        CellState::Alive('X')
    );
}

#[test]
fn test_new_random_custom_glyphs() {
    let g = Grid::new_random_custom_glyphs(3, 3, 'A', 'D');
    assert_eq!(g.cells.len(), 9);
    let unexpected_states: Vec<&CellState> = g
        .cells
        .iter()
        .filter(|c| {
            let state = c.to_string();
            state != "A" && state != "D"
        })
        .collect();
    assert_eq!(unexpected_states.len(), 0);
}
