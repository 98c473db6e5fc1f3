//! The simulation as its user drives it: a grid, a generation counter and
//! the switches that the keyboard sets.
//!
//! Nothing here reads a terminal. Whoever owns the terminal hands over what
//! it has read, as an `Event`, and draws what it finds afterwards.

use crate::cell::CellState;
use crate::grid::Grid;
use crate::life::count_alive;
use vstd::prelude::*;

verus! {

/// The key of a key event, as far as the simulation tells keys apart.
#[derive(Copy, Clone, Debug, PartialEq, Eq, Structural)]
pub enum KeyCode {
    /// A character key
    Char(char),
    /// Any other key
    Other,
}

/// What happened to the key.
#[derive(Copy, Clone, Debug, PartialEq, Eq, Structural)]
pub enum KeyEventKind {
    /// The key went down
    Press,
    /// The key is held down
    Repeat,
    /// The key came up
    Release,
}

/// A key and what happened to it.
#[derive(Copy, Clone, Debug, PartialEq, Eq, Structural)]
pub struct KeyEvent {
    /// Which key
    pub code: KeyCode,
    /// What happened to it
    pub kind: KeyEventKind,
}

/// What the terminal reported.
#[derive(Copy, Clone, Debug, PartialEq, Eq, Structural)]
pub enum Event {
    /// A key was pressed, held or let go
    Key(KeyEvent),
    /// Anything else: focus, mouse, paste, resize
    Other,
}

impl KeyEvent {
    /// The event of pressing `code`.
    pub fn new(code: KeyCode) -> (event: KeyEvent)
        ensures
            event == (KeyEvent { code, kind: KeyEventKind::Press }),
    {
        KeyEvent { code, kind: KeyEventKind::Press }
    }
}

impl vstd::std_specs::convert::FromSpecImpl<KeyCode> for KeyEvent {
    open spec fn obeys_from_spec() -> bool {
        true
    }

    open spec fn from_spec(code: KeyCode) -> KeyEvent {
        KeyEvent { code, kind: KeyEventKind::Press }
    }
}

impl From<KeyCode> for KeyEvent {
    /// The event of pressing `code`.
    fn from(code: KeyCode) -> (event: KeyEvent) {
        KeyEvent::new(code)
    }
}

/// The key that was pressed, if `polled` is the press of a key.
pub open spec fn pressed(polled: Option<Event>) -> Option<KeyCode> {
    match polled {
        Some(Event::Key(key_event)) => if key_event.kind == KeyEventKind::Press {
            Some(key_event.code)
        } else {
            None
        },
        _ => None,
    }
}

/// The state of a running simulation.
#[derive(Debug)]
pub struct App {
    /// The current generation
    pub grid: Grid<CellState>,
    /// Whether every turn of the loop advances the grid
    pub run: bool,
    /// Whether the loop is to end
    pub exit: bool,
    /// Generations counted since the grid was made
    pub cycles: u32,
    /// Living cells of the current generation
    pub population: usize,
    /// Rows of a grid made afresh
    pub height: usize,
    /// Columns of a grid made afresh
    pub width: usize,
}

impl App {
    /// A grid of `width` by `height` cells can be built and stepped.
    pub open spec fn fits(width: usize, height: usize) -> bool {
        &&& width * height <= usize::MAX
        &&& width == 0 || height == 0 || (width <= 0x8000_0000 && height <= 0x8000_0000)
    }

    /// The grid is whole and can be stepped, the population shown is that of
    /// the grid, and a grid of the size asked for can be built.
    pub open spec fn wf(&self) -> bool {
        &&& self.grid.wf()
        &&& self.grid.addressable()
        &&& self.grid.population == count_alive(self.grid.cells@)
        &&& self.population == self.grid.population
        &&& Self::fits(self.width, self.height)
    }

    /// `after` is `self` one generation later: the grid has taken its step,
    /// the counter has gone up by one, and the switches are as they were.
    pub open spec fn cycled(&self, after: App) -> bool {
        &&& after.grid.width == self.grid.width
        &&& after.grid.height == self.grid.height
        &&& after.grid.alive_glyph == self.grid.alive_glyph
        &&& after.grid.dead_glyph == self.grid.dead_glyph
        &&& after.grid.cells@ == self.grid.next_generation()
        &&& after.grid.population == count_alive(after.grid.cells@)
        &&& after.population == after.grid.population
        &&& after.cycles == self.cycles + 1
        &&& after.run == self.run
        &&& after.exit == self.exit
        &&& after.height == self.height
        &&& after.width == self.width
    }

    /// `after` is `self` started afresh from `seed`: the grid is the
    /// generation after `seed`, the counter is back at zero, and the
    /// switches are as they were.
    pub open spec fn restarted(&self, seed: Grid<CellState>, after: App) -> bool {
        &&& after.grid.width == seed.width
        &&& after.grid.height == seed.height
        &&& after.grid.alive_glyph == seed.alive_glyph
        &&& after.grid.dead_glyph == seed.dead_glyph
        &&& after.grid.cells@ == seed.next_generation()
        &&& after.grid.population == count_alive(after.grid.cells@)
        &&& after.population == after.grid.population
        &&& after.cycles == 0
        &&& after.run == self.run
        &&& after.exit == self.exit
        &&& after.height == self.height
        &&& after.width == self.width
    }

    /// `after` is `self` started afresh from some grid of the size that
    /// `self` was made for, with the default glyphs.
    pub open spec fn regenerated(&self, after: App) -> bool {
        &&& after.grid.width == self.width
        &&& after.grid.height == self.height
        &&& after.grid.alive_glyph == 'X'
        &&& after.grid.dead_glyph == ' '
        &&& after.grid.cells@.len() == self.width * self.height
        &&& Grid::cells_drawn_from(after.grid.cells@, 'X', ' ')
        &&& after.grid.population == count_alive(after.grid.cells@)
        &&& after.population == after.grid.population
        &&& after.cycles == 0
        &&& after.run == self.run
        &&& after.exit == self.exit
        &&& after.height == self.height
        &&& after.width == self.width
    }

    /// What the key `code` does to `self`.
    ///
    /// `q` quits, `r` starts and `s` stops the automatic advance, `n`
    /// advances by one generation, `?` starts afresh with a random grid, and
    /// every other key does nothing.
    pub open spec fn keyed(&self, code: KeyCode, after: App) -> bool {
        if code == KeyCode::Char('q') {
            after == (App { exit: true, ..*self })
        } else if code == KeyCode::Char('r') {
            after == (App { run: true, ..*self })
        } else if code == KeyCode::Char('s') {
            after == (App { run: false, ..*self })
        } else if code == KeyCode::Char('n') {
            self.cycled(after)
        } else if code == KeyCode::Char('?') {
            self.regenerated(after)
        } else {
            after == *self
        }
    }

    /// `after` is `self` once `polled` has been taken: the press of a key
    /// has done what `keyed` says, and nothing else has had any effect.
    pub open spec fn handled(&self, polled: Option<Event>, after: App) -> bool {
        match pressed(polled) {
            Some(code) => self.keyed(code, after),
            None => after == *self,
        }
    }

    /// Whether the automatic advance is on once `polled` has been taken.
    pub open spec fn runs_after(&self, polled: Option<Event>) -> bool {
        if pressed(polled) == Some(KeyCode::Char('r')) {
            true
        } else if pressed(polled) == Some(KeyCode::Char('s')) {
            false
        } else {
            self.run
        }
    }

    /// What the counter shows once `polled` has been taken.
    pub open spec fn cycles_after(&self, polled: Option<Event>) -> int {
        if pressed(polled) == Some(KeyCode::Char('n')) {
            self.cycles + 1
        } else if pressed(polled) == Some(KeyCode::Char('?')) {
            0
        } else {
            self.cycles as int
        }
    }

    /// The simulation for a terminal of `height` rows and `width` columns:
    /// all cells dead, at rest, nothing counted yet.
    pub fn new(height: usize, width: usize) -> (app: Self)
        requires
            Self::fits(width, height),
        ensures
            app.wf(),
            app.grid.width == width,
            app.grid.height == height,
            app.grid.alive_glyph == 'X',
            app.grid.dead_glyph == ' ',
            app.grid.cells@ == Seq::new((width * height) as nat, |i: int| CellState::Dead(' ')),
            app.population == 0,
            !app.exit,
            !app.run,
            app.cycles == 0,
            app.height == height,
            app.width == width,
    {
        let mut grid = Grid::new_empty(width, height);
        proof {
            crate::laws::lemma_dead_grid_stays_dead(grid);
        }
        let population = grid.update_states();
        App { grid, exit: false, run: false, cycles: 0, population, height, width }
    }

    /// Advances the grid by one generation and counts it.
    pub fn cycle(&mut self)
        requires
            old(self).wf(),
            old(self).cycles < u32::MAX,
        ensures
            final(self).wf(),
            old(self).cycled(*final(self)),
    {
        self.population = self.grid.update_states();
        self.cycles += 1;
    }

    /// Asks the loop to end.
    pub fn exit(&mut self)
        ensures
            *final(self) == (App { exit: true, ..*old(self) }),
    {
        self.exit = true;
    }

    /// Switches the automatic advance on.
    pub fn run_simulation(&mut self)
        ensures
            *final(self) == (App { run: true, ..*old(self) }),
    {
        self.run = true;
    }

    /// Switches the automatic advance off.
    pub fn stop_simulation(&mut self)
        ensures
            *final(self) == (App { run: false, ..*old(self) }),
    {
        self.run = false;
    }

    /// Starts afresh from `seed`: takes it as the grid, advances it by one
    /// generation and sets the counter back.
    pub fn restart_from(&mut self, seed: Grid<CellState>)
        requires
            old(self).wf(),
            seed.wf(),
            seed.addressable(),
        ensures
            final(self).wf(),
            old(self).restarted(seed, *final(self)),
    {
        self.grid = seed;
        self.population = self.grid.update_states();
        self.cycles = 0;
    }

    /// Starts afresh from a random grid of the size the simulation was made
    /// for.
    pub fn random_grid(&mut self)
        requires
            old(self).wf(),
        ensures
            final(self).wf(),
            old(self).regenerated(*final(self)),
    {
        let seed = Grid::new_random(self.width, self.height);
        proof {
            crate::laws::law_next_generation_keeps_glyphs(seed);
        }
        self.restart_from(seed);
    }

    /// Does what the key of `key_event` stands for.
    pub fn handle_key_event(&mut self, key_event: KeyEvent)
        requires
            old(self).wf(),
            key_event.code == KeyCode::Char('n') ==> old(self).cycles < u32::MAX,
        ensures
            final(self).wf(),
            old(self).keyed(key_event.code, *final(self)),
    {
        match key_event.code {
            KeyCode::Char('q') => self.exit(),
            KeyCode::Char('r') => self.run_simulation(),
            KeyCode::Char('s') => self.stop_simulation(),
            KeyCode::Char('n') => self.cycle(),
            KeyCode::Char('?') => self.random_grid(),
            _ => {},
        }
    }

    /// Takes what the terminal reported, if anything: the press of a key is
    /// handled as `handle_key_event` says, and nothing else has any effect.
    pub fn handle_events(&mut self, polled: Option<Event>)
        requires
            old(self).wf(),
            pressed(polled) == Some(KeyCode::Char('n')) ==> old(self).cycles < u32::MAX,
        ensures
            final(self).wf(),
            old(self).handled(polled, *final(self)),
    {
        match polled {
            Some(Event::Key(key_event)) => {
                match key_event.kind {
                    KeyEventKind::Press => self.handle_key_event(key_event),
                    _ => {},
                }
            },
            _ => {},
        }
    }

    /// One turn of the loop, between two drawings: takes what the terminal
    /// reported, then advances by one generation if the automatic advance is
    /// on.
    ///
    /// The counter must have room for each generation that the turn counts.
    pub fn tick(&mut self, polled: Option<Event>)
        requires
            old(self).wf(),
            old(self).cycles_after(polled) <= u32::MAX,
            old(self).runs_after(polled) ==> old(self).cycles_after(polled) < u32::MAX,
        ensures
            final(self).wf(),
            exists|mid: App|
                #![trigger old(self).handled(polled, mid)]
                old(self).handled(polled, mid) && if mid.run {
                    mid.cycled(*final(self))
                } else {
                    *final(self) == mid
                },
    {
        self.handle_events(polled);
        let ghost mid = *self;
        if self.run {
            self.cycle();
        }
        assert(old(self).handled(polled, mid));
    }
}

impl Default for App {
    /// The default grid, at rest, with no size to start afresh with.
    fn default() -> (app: Self)
        ensures
            app.wf(),
            app.grid.width == 10,
            app.grid.height == 10,
            app.grid.alive_glyph == 'X',
            app.grid.dead_glyph == ' ',
            app.grid.cells@ == Seq::new(100, |i: int| CellState::Dead(' ')),
            app.population == 0,
            !app.exit,
            !app.run,
            app.cycles == 0,
            app.height == 0,
            app.width == 0,
    {
        App {
            grid: Grid::default(),
            run: false,
            exit: false,
            cycles: 0,
            population: 0,
            height: 0,
            width: 0,
        }
    }
}

} // verus!
