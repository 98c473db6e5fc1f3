use gridlife::{App, CellState, Event, Grid, KeyCode, KeyEvent, KeyEventKind};

fn press(c: char) -> Option<Event> {
    Some(Event::Key(KeyEvent::new(KeyCode::Char(c))))
}

#[test]
fn handle_key_event() {
    let mut app = App::default();
    app.handle_key_event(KeyCode::Char('n').into());
    assert_eq!(app.cycles, 1);

    let mut app = App::default();
    app.handle_key_event(KeyCode::Char('q').into());
    assert!(app.exit);
}

#[test]
fn new_app_is_dead_and_at_rest() {
    let app = App::new(4, 6);
    assert_eq!(app.height, 4);
    assert_eq!(app.width, 6);
    assert_eq!(app.grid.width, 6);
    assert_eq!(app.grid.height, 4);
    assert_eq!(app.grid.cells, vec![CellState::Dead(' '); 24]);
    assert_eq!(app.population, 0);
    assert_eq!(app.cycles, 0);
    assert!(!app.run);
    assert!(!app.exit);
}

#[test]
fn default_app_has_the_default_grid_and_no_size() {
    let app = App::default();
    assert_eq!(app.grid.width, 10);
    assert_eq!(app.grid.height, 10);
    assert_eq!(app.grid.cells.len(), 100);
    assert_eq!(app.width, 0);
    assert_eq!(app.height, 0);
    assert_eq!(app.population, 0);
    assert_eq!(app.cycles, 0);
}

#[test]
fn key_event_from_code_is_a_press() {
    let event: KeyEvent = KeyCode::Char('x').into();
    assert_eq!(event, KeyEvent { code: KeyCode::Char('x'), kind: KeyEventKind::Press });
    assert_eq!(KeyEvent::new(KeyCode::Other).kind, KeyEventKind::Press);
}

#[test]
fn run_and_stop_keys_set_the_switch() {
    let mut app = App::new(3, 3);
    app.handle_key_event(KeyCode::Char('r').into());
    assert!(app.run);
    assert!(!app.exit);
    assert_eq!(app.cycles, 0);
    app.handle_key_event(KeyCode::Char('s').into());
    assert!(!app.run);
    assert_eq!(app.cycles, 0);
}

#[test]
fn other_keys_do_nothing() {
    let mut app = App::new(3, 3);
    app.handle_key_event(KeyCode::Char('x').into());
    app.handle_key_event(KeyCode::Char('Q').into());
    app.handle_key_event(KeyCode::Other.into());
    assert!(!app.run);
    assert!(!app.exit);
    assert_eq!(app.cycles, 0);
    assert_eq!(app.population, 0);
    assert_eq!(app.grid.cells, vec![CellState::Dead(' '); 9]);
}

#[test]
fn cycle_advances_the_grid_and_counts() {
    let mut app = App::new(5, 5);
    // a blinker, lying
    app.grid.cells[11] = CellState::Alive('X');
    app.grid.cells[12] = CellState::Alive('X');
    app.grid.cells[13] = CellState::Alive('X');
    app.grid.population = 3;
    app.population = 3;
    app.cycle();
    assert_eq!(app.cycles, 1);
    assert_eq!(app.population, 3);
    assert_eq!(app.grid.population, 3);
    assert_eq!(app.grid.to_string(), "     \n  X  \n  X  \n  X  \n     \n");
    app.cycle();
    assert_eq!(app.cycles, 2);
    assert_eq!(app.grid.to_string(), "     \n     \n XXX \n     \n     \n");
}

#[test]
fn random_grid_has_the_size_asked_for_and_resets_the_counter() {
    let mut app = App::new(4, 7);
    app.cycle();
    app.cycle();
    assert_eq!(app.cycles, 2);
    app.handle_key_event(KeyCode::Char('r').into());
    app.random_grid();
    assert_eq!(app.cycles, 0);
    assert!(app.run);
    assert_eq!(app.grid.width, 7);
    assert_eq!(app.grid.height, 4);
    assert_eq!(app.grid.cells.len(), 28);
    assert_eq!(app.grid.alive_glyph, 'X');
    assert_eq!(app.grid.dead_glyph, ' ');
    let alive = app.grid.cells.iter().filter(|c| matches!(c, CellState::Alive(_))).count();
    assert_eq!(app.population, alive);
    assert_eq!(app.grid.population, alive);
    for c in app.grid.cells.iter() {
        assert!(*c == CellState::Alive('X') || *c == CellState::Dead(' '));
    }
}

#[test]
fn random_grid_of_the_default_app_is_empty() {
    let mut app = App::default();
    app.handle_key_event(KeyCode::Char('?').into());
    assert_eq!(app.grid.width, 0);
    assert_eq!(app.grid.height, 0);
    assert_eq!(app.grid.cells.len(), 0);
    assert_eq!(app.population, 0);
    assert_eq!(app.cycles, 0);
}

#[test]
fn restart_from_takes_the_generation_after_the_seed() {
    let mut seed = Grid::new_empty(3, 3);
    seed.cells[1] = CellState::Alive('X');
    seed.cells[4] = CellState::Alive('X');
    seed.cells[7] = CellState::Alive('X');
    let mut app = App::new(3, 3);
    app.cycle();
    app.restart_from(seed);
    assert_eq!(app.cycles, 0);
    assert_eq!(app.population, 3);
    assert_eq!(app.grid.to_string(), "   \nXXX\n   \n");
    assert_eq!(app.width, 3);
    assert_eq!(app.height, 3);
}

#[test]
fn only_a_press_is_handled() {
    let mut app = App::new(3, 3);
    app.handle_events(Some(Event::Key(KeyEvent {
        code: KeyCode::Char('q'),
        kind: KeyEventKind::Release,
    })));
    assert!(!app.exit);
    app.handle_events(Some(Event::Key(KeyEvent {
        code: KeyCode::Char('q'),
        kind: KeyEventKind::Repeat,
    })));
    assert!(!app.exit);
    app.handle_events(Some(Event::Other));
    assert!(!app.exit);
    app.handle_events(None);
    assert!(!app.exit);
    app.handle_events(press('q'));
    assert!(app.exit);
}

#[test]
fn tick_advances_only_while_running() {
    let mut app = App::new(3, 3);
    app.tick(None);
    assert_eq!(app.cycles, 0);
    app.tick(press('r'));
    assert!(app.run);
    assert_eq!(app.cycles, 1);
    app.tick(None);
    assert_eq!(app.cycles, 2);
    app.tick(press('n'));
    assert_eq!(app.cycles, 4);
    app.tick(press('?'));
    assert_eq!(app.cycles, 1);
    app.tick(press('s'));
    assert!(!app.run);
    assert_eq!(app.cycles, 1);
    app.tick(press('n'));
    assert_eq!(app.cycles, 2);
    app.tick(press('q'));
    assert!(app.exit);
    assert_eq!(app.cycles, 2);
}
