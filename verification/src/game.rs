//! The game controller: it owns the snake, the food, the direction of travel,
//! the pacing counters and the status, and it decides what a frame and a key
//! press do to them.

pub mod canvas;
pub mod coord;
pub mod direction;
pub mod snake;

use self::canvas::{board_area, DrawOp, Rect};
use self::coord::Coord;
use self::direction::Direction;
use self::snake::{Body, Snake};
use vstd::prelude::*;

verus! {

/// The fewest frames per tick: the game never ticks faster than this.
pub const MIN_TICK_RATE: u64 = 12;

/// The frames per tick at which a game starts.
pub const STARTING_TICK_RATE: u64 = 50;

/// The frames per tick that one eaten food takes off.
pub const TICK_RATE_STEP: u64 = 2;

/// The number of cells of a new snake.
pub const STARTING_LENGTH: isize = 3;

/// The colour in which the food is painted.
pub const FOOD_COLOR: &'static str = "red";

/// How many random picks the search for a free cell may turn down before it
/// takes the first free cell in reading order instead.
pub const RESPAWN_ATTEMPTS: u64 = 0xffff_ffff_ffff_ffff;

/// Whether the game runs, waits, or has ended.
#[derive(Debug, PartialEq, Eq, Structural, Clone, Copy)]
pub enum GameStatus {
    Playing,
    Paused,
    GameOver,
}

/// The quotient of `a` by a positive `b`, rounded towards zero.
pub open spec fn quotient(a: int, b: int) -> int
    recommends
        b > 0,
{
    if a >= 0 {
        a / b
    } else {
        -((-a) / b)
    }
}

/// The frames per tick after a food has been eaten at `rate` frames per tick:
/// one step fewer, unless that would fall below the least rate.
pub open spec fn sped_up(rate: nat) -> nat {
    if rate >= MIN_TICK_RATE + TICK_RATE_STEP {
        (rate - TICK_RATE_STEP) as nat
    } else {
        rate
    }
}

/// Whether `key` names the key that pauses, resumes and restarts the game.
pub open spec fn is_toggle_key(key: Seq<char>) -> bool {
    key == "Space"@ || key == " "@
}

/// The direction that `key` asks for, if it names one: an arrow key or one of
/// the letters w, s, d and a.
pub open spec fn key_direction(key: Seq<char>) -> Option<Direction> {
    if key == "ArrowUp"@ || key == "w"@ {
        Some(Direction::Up)
    } else if key == "ArrowDown"@ || key == "s"@ {
        Some(Direction::Down)
    } else if key == "ArrowRight"@ || key == "d"@ {
        Some(Direction::Right)
    } else if key == "ArrowLeft"@ || key == "a"@ {
        Some(Direction::Left)
    } else {
        None
    }
}

/// The direction of travel after `key` was pressed while travelling in
/// direction `current`: the direction the key asks for, unless it names none
/// or asks for a reversal.
pub open spec fn turned(current: Direction, key: Seq<char>) -> Direction {
    match key_direction(key) {
        Some(wanted) => if current.opposes(wanted) {
            current
        } else {
            wanted
        },
        None => current,
    }
}

/// What a game is, mathematically.
pub struct GameState {
    /// The number of cells per side of the grid.
    pub grid: int,
    /// The number of pixels per side of a cell.
    pub cell: int,
    pub snake: Body,
    pub apple: Option<Coord>,
    pub direction: Direction,
    /// The frames counted since the last tick.
    pub counter: nat,
    /// The frames per tick.
    pub tick_rate: nat,
    pub status: GameStatus,
}

impl GameState {
    /// The state in which a game on a grid of `grid` cells per side with
    /// cells of `cell` pixels starts, given the food: a straight snake with
    /// its head at the centre, heading left, paused.
    pub open spec fn initial(grid: int, cell: int, apple: Option<Coord>) -> GameState {
        GameState {
            grid,
            cell,
            snake: Body::straight(
                Coord((grid / 2) as isize, (grid / 2) as isize),
                STARTING_LENGTH as nat,
            ),
            apple,
            direction: Direction::Left,
            counter: 0,
            tick_rate: STARTING_TICK_RATE as nat,
            status: GameStatus::Paused,
        }
    }

    /// What holds of the board of every game: the grid has cells, the snake
    /// is at least as long as a new one, the frames per tick lie between the
    /// least rate and the starting rate, and the food, if it is set, lies on
    /// the grid. Unless the game is over, the head lies on the grid too, and
    /// the board is tidy.
    pub open spec fn steady(self) -> bool {
        &&& 0 < self.grid <= isize::MAX
        &&& self.snake.cells.len() >= STARTING_LENGTH
        &&& MIN_TICK_RATE <= self.tick_rate <= STARTING_TICK_RATE
        &&& self.apple matches Some(a) ==> a.within(self.grid)
        &&& self.status != GameStatus::GameOver ==> self.snake.head().within(self.grid)
        &&& self.status != GameStatus::GameOver ==> self.tidy()
    }

    /// What holds of every game between frames: its board is steady, and no
    /// more frames are counted than a tick takes.
    pub open spec fn wf(self) -> bool {
        self.steady() && self.counter <= self.tick_rate
    }

    /// Whether the board is tidy: no cell of the snake occurs twice, and the
    /// food, if it is set, lies off the snake.
    pub open spec fn tidy(self) -> bool {
        &&& self.snake.distinct()
        &&& self.apple matches Some(a) ==> !self.snake.occupies(a)
    }

    /// Whether a tick is due at the next frame.
    pub open spec fn tick_due(self) -> bool {
        self.counter % self.tick_rate == 0
    }

    /// Whether the snake eats the food in the tick that starts from this
    /// state: the game runs and the food lies where the head moves to.
    pub open spec fn eats(self) -> bool {
        &&& self.status == GameStatus::Playing
        &&& self.apple matches Some(a)
        &&& self.snake.advance(self.direction).can_eat(a)
    }

    /// The snake after the tick that starts from this state: moved by one
    /// cell, and grown back by its old tail if it eats.
    pub open spec fn moved_snake(self) -> Body {
        let after = self.snake.advance(self.direction);
        if self.eats() {
            after.eat()
        } else {
            after
        }
    }

    /// Whether the tick that starts from this state ends the game: the moved
    /// head has run into the snake or has left the grid.
    pub open spec fn dies(self) -> bool {
        let snake = self.moved_snake();
        snake.trails_over(snake.head()) || !snake.head().within(self.grid)
    }

    /// The state after the tick that starts from this state, up to the new
    /// food. If the game does not run, nothing changes. Otherwise the snake
    /// moves; if it eats, the food is gone and the game speeds up; if it then
    /// has run into itself or left the grid, the game is over.
    pub open spec fn moved(self) -> GameState {
        if self.status != GameStatus::Playing {
            self
        } else {
            GameState {
                snake: self.moved_snake(),
                apple: if self.eats() {
                    None
                } else {
                    self.apple
                },
                tick_rate: if self.eats() {
                    sped_up(self.tick_rate)
                } else {
                    self.tick_rate
                },
                status: if self.dies() {
                    GameStatus::GameOver
                } else {
                    GameStatus::Playing
                },
                ..self
            }
        }
    }

    /// Whether the state lacks a food that a tick has to look for: the game
    /// runs and no food is set.
    pub open spec fn wants_food(self) -> bool {
        self.status == GameStatus::Playing && self.apple is None
    }

    /// Whether `c` can be the new food: a cell of the grid that the snake
    /// does not occupy.
    pub open spec fn is_free(self, c: Coord) -> bool {
        c.within(self.grid) && !self.snake.occupies(c)
    }

    /// Whether some cell of the grid is free.
    pub open spec fn has_free_cell(self) -> bool {
        exists|c: Coord| self.is_free(c)
    }

    /// Whether `c` is the first free cell when the grid is read row by row
    /// from the top, each row from the left.
    pub open spec fn is_first_free(self, c: Coord) -> bool {
        &&& self.is_free(c)
        &&& forall|d: Coord|
            d.within(self.grid) && d.reads_before(c) ==> #[trigger] self.snake.occupies(d)
    }

    /// Whether `apple` can be what a search for a new food on this board ends
    /// with: a free cell, if the grid has one, and nothing if it has none.
    pub open spec fn finds_food(self, apple: Option<Coord>) -> bool {
        &&& apple is Some <==> self.has_free_cell()
        &&& apple matches Some(c) ==> self.is_free(c)
    }

    /// Whether one tick can lead from this state to `next`. All of `next` is
    /// fixed by `moved` but the food where a new one is looked for; there the
    /// food is some free cell, and is unset only if the grid has none.
    pub open spec fn ticks_to(self, next: GameState) -> bool {
        let m = self.moved();
        &&& next == GameState { apple: next.apple, ..m }
        &&& if m.wants_food() {
            m.finds_food(next.apple)
        } else {
            next.apple == m.apple
        }
    }

    /// Whether one frame can lead from this state to `next`: a tick if one is
    /// due, and one frame more on the counter, which starts again from zero
    /// at a tick.
    pub open spec fn plays_to(self, next: GameState) -> bool {
        if self.tick_due() {
            &&& self.ticks_to(GameState { counter: self.counter, ..next })
            &&& next.counter == 1
        } else {
            next == GameState { counter: self.counter + 1, ..self }
        }
    }

    /// Whether `next` is a fresh game on the grid of this one, with the food
    /// on a cell that the new snake leaves free.
    pub open spec fn resets_to(self, next: GameState) -> bool {
        &&& next == GameState::initial(self.grid, self.cell, next.apple)
        &&& GameState::initial(self.grid, self.cell, None).finds_food(next.apple)
    }

    /// Whether a press of `key` can lead from this state to `next`. The
    /// toggle key pauses a running game, resumes a paused one and restarts
    /// one that is over; any other key turns the snake if it may.
    pub open spec fn controls_to(self, key: Seq<char>, next: GameState) -> bool {
        if is_toggle_key(key) {
            match self.status {
                GameStatus::Paused => next == GameState { status: GameStatus::Playing, ..self },
                GameStatus::Playing => next == GameState { status: GameStatus::Paused, ..self },
                GameStatus::GameOver => self.resets_to(next),
            }
        } else {
            next == GameState { direction: turned(self.direction, key), ..self }
        }
    }

    /// The commands that bring a canvas up to date with this state: the
    /// snake's, and then the food is painted if it is set.
    pub open spec fn frame(self) -> Seq<DrawOp<'static>> {
        self.snake.frame(self.cell) + match self.apple {
            Some(a) => seq![a.fill_op(self.cell, FOOD_COLOR)],
            None => seq![],
        }
    }
}

/// The game.
#[derive(Debug)]
pub struct Game {
    grid: isize,
    grid_size: isize,
    snake: Snake,
    apple: Option<Coord>,
    direction: Direction,
    counter: u64,
    tick_rate: u64,
    status: GameStatus,
}

impl View for Game {
    type V = GameState;

    closed spec fn view(&self) -> GameState {
        GameState {
            grid: self.grid as int,
            cell: self.grid_size as int,
            snake: self.snake@,
            apple: self.apple,
            direction: self.direction,
            counter: self.counter as nat,
            tick_rate: self.tick_rate as nat,
            status: self.status,
        }
    }
}

impl Game {
    /// A game is well formed when its state is.
    pub open spec fn wf(&self) -> bool {
        self@.wf()
    }

    /// Starts a game on a grid of `grid` cells per side, to be drawn on a
    /// square canvas of `size` pixels per side; a cell is as many whole
    /// pixels wide as fit. The grid must have cells. The food is put on a
    /// cell that the snake leaves free, picked at random; only a grid of a
    /// single cell has none, and the game then starts without food.
    pub fn new(grid: isize, size: isize) -> (game: Game)
        requires
            grid > 0,
        ensures
            game.wf(),
            game@ == GameState::initial(
                grid as int,
                quotient(size as int, grid as int),
                game@.apple,
            ),
            GameState::initial(grid as int, quotient(size as int, grid as int), None).finds_food(
                game@.apple,
            ),
            game@.apple is Some <==> grid > 1,
    {
        let mut game = Game {
            grid,
            grid_size: size / grid,
            snake: Snake::new(Coord(grid / 2, grid / 2), STARTING_LENGTH),
            direction: Direction::Left,
            apple: None,
            counter: 0,
            status: GameStatus::Paused,
            tick_rate: STARTING_TICK_RATE,
        };
        game.respawn();
        proof {
            lemma_initial_room(grid as int, game@.cell);
        }
        game
    }

    /// Handles a press of the key named `key`.
    ///
    /// The toggle key pauses a running game, resumes a paused one and
    /// restarts one that is over; any other key is taken as a request to
    /// turn. Returns the command that wipes the canvas where the game was
    /// restarted, and nothing otherwise.
    pub fn control(&mut self, key: &str) -> (wipe: Option<DrawOp<'static>>)
        requires
            old(self).wf(),
        ensures
            final(self).wf(),
            old(self)@.controls_to(key@, final(self)@),
            wipe == if is_toggle_key(key@) && old(self)@.status == GameStatus::GameOver {
                Some(DrawOp::Clear { area: board_area(old(self)@.grid, old(self)@.cell) })
            } else {
                None
            },
    {
        if same_text(key, "Space") || same_text(key, " ") {
            match self.status {
                GameStatus::Paused => {
                    self.status = GameStatus::Playing;
                    None
                },
                GameStatus::Playing => {
                    self.status = GameStatus::Paused;
                    None
                },
                GameStatus::GameOver => Some(self.reset()),
            }
        } else {
            self.set_direction(key);
            None
        }
    }

    /// Advances the game by one frame: a tick takes place if one is due, and
    /// the frame is counted. Returns the commands that bring the canvas up to
    /// date, which are the same whether or not a tick took place.
    pub fn play(&mut self) -> (ops: Vec<DrawOp<'static>>)
        requires
            old(self).wf(),
        ensures
            final(self).wf(),
            old(self)@.plays_to(final(self)@),
            ops@ == final(self)@.frame(),
    {
        proof {
            if self.counter == self.tick_rate {
                vstd::arithmetic::div_mod::lemma_mod_self_0(self.tick_rate as int);
            }
        }
        if self.counter % self.tick_rate == 0 {
            self.tick();
            self.counter = 0;
        }
        let ops = self.draw();
        self.counter += 1;
        ops
    }

    /// Turns the snake as the key named `key` asks. A key that names no
    /// direction changes nothing, and neither does one that asks the snake to
    /// reverse.
    pub fn set_direction(&mut self, key: &str)
        ensures
            final(self)@ == (GameState {
                direction: turned(old(self)@.direction, key@),
                ..old(self)@
            }),
    {
        let direction = if same_text(key, "ArrowUp") || same_text(key, "w") {
            Direction::Up
        } else if same_text(key, "ArrowDown") || same_text(key, "s") {
            Direction::Down
        } else if same_text(key, "ArrowRight") || same_text(key, "d") {
            Direction::Right
        } else if same_text(key, "ArrowLeft") || same_text(key, "a") {
            Direction::Left
        } else {
            self.direction
        };
        if !direction.is_opposite(self.direction) {
            self.direction = direction;
        }
    }

    /// Returns the commands that bring a canvas up to date with the game.
    pub fn draw(&self) -> (ops: Vec<DrawOp<'static>>)
        ensures
            ops@ == self@.frame(),
    {
        let mut ops = self.snake.draw(self.grid_size);
        if let Some(apple) = self.apple {
            ops.push(apple.draw(self.grid_size, FOOD_COLOR));
        }
        ops
    }

    /// Performs one tick. Nothing happens unless the game runs. The snake
    /// moves by one cell; if it reaches the food it eats it and the game
    /// speeds up; if it has then run into itself or left the grid the game is
    /// over, and nothing more happens. Otherwise, if the food is gone, a new
    /// one is looked for on the cells that the snake leaves free.
    fn tick(&mut self)
        requires
            old(self)@.steady(),
        ensures
            final(self)@.steady(),
            old(self)@.ticks_to(final(self)@),
    {
        if self.status != GameStatus::Playing {
            return ;
        }
        let ghost pre = self@;
        self.snake.tick(self.direction);
        if let Some(apple) = self.apple {
            if self.snake.try_eat(apple) {
                self.apple = None;
                self.increase_tick_rate();
            }
        }
        let snake_head = *self.snake.head();
        if self.snake.is_snake_body(snake_head) || self.is_out_of_bounds(snake_head) {
            self.status = GameStatus::GameOver;
            proof {
                lemma_tick_keeps_steady(pre, self@);
            }
            return ;
        }
        if self.apple.is_none() {
            self.respawn();
        }
        proof {
            lemma_tick_keeps_steady(pre, self@);
        }
    }

    /// Starts the game afresh on the same grid, with the food on a cell that
    /// the new snake leaves free, picked at random. Returns the command that
    /// wipes the whole canvas.
    pub fn reset(&mut self) -> (wipe: DrawOp<'static>)
        requires
            0 < old(self)@.grid,
        ensures
            final(self).wf(),
            old(self)@.resets_to(final(self)@),
            wipe == (DrawOp::Clear { area: board_area(old(self)@.grid, old(self)@.cell) }),
    {
        let grid = self.grid;
        self.snake = Snake::new(Coord(grid / 2, grid / 2), STARTING_LENGTH);
        self.direction = Direction::Left;
        self.apple = None;
        self.counter = 0;
        self.status = GameStatus::Paused;
        self.tick_rate = STARTING_TICK_RATE;
        self.respawn();
        DrawOp::Clear { area: Rect::of_board(self.grid, self.grid_size) }
    }

    /// Puts the food on `candidate` if that is a cell of the grid that the
    /// snake does not occupy, and tells whether it did. A candidate that is
    /// turned down changes nothing.
    pub fn place_apple(&mut self, candidate: Coord) -> (placed: bool)
        requires
            0 < old(self)@.grid,
        ensures
            placed == old(self)@.is_free(candidate),
            final(self)@ == if placed {
                GameState { apple: Some(candidate), ..old(self)@ }
            } else {
                old(self)@
            },
            old(self).wf() ==> final(self).wf(),
    {
        if self.is_out_of_bounds(candidate) || self.snake.is_snake(&candidate) {
            false
        } else {
            self.apple = Some(candidate);
            true
        }
    }

    /// Looks for a new food. If the grid has no free cell the food stays
    /// unset. Otherwise cells of the grid are picked at random until one is
    /// free, and the food is put there; should `RESPAWN_ATTEMPTS` picks in a
    /// row be occupied, the food is put on the first free cell in reading
    /// order instead.
    ///
    /// Returns, for the proofs only, the picks that were turned down, in the
    /// order in which they came.
    fn respawn(&mut self) -> (turned_down: Ghost<Seq<Coord>>)
        requires
            0 < old(self)@.grid,
            old(self)@.apple is None,
        ensures
            final(self)@ == (GameState { apple: final(self)@.apple, ..old(self)@ }),
            old(self)@.finds_food(final(self)@.apple),
            forall|i: int|
                0 <= i < turned_down@.len() ==> {
                    &&& (#[trigger] turned_down@[i]).within(old(self)@.grid)
                    &&& old(self)@.snake.occupies(turned_down@[i])
                },
            turned_down@.len() <= RESPAWN_ATTEMPTS,
            !old(self)@.has_free_cell() ==> turned_down@.len() == 0,
            turned_down@.len() == RESPAWN_ATTEMPTS ==> (final(self)@.apple matches Some(c)
                && old(self)@.is_first_free(c)),
    {
        let ghost mut turned_down: Seq<Coord> = Seq::empty();
        let fallback = match self.first_free_cell() {
            Some(c) => c,
            None => {
                return Ghost(turned_down);
            },
        };
        let mut rejected: u64 = 0;
        while rejected < RESPAWN_ATTEMPTS
            invariant
                0 < self@.grid,
                self@ == old(self)@,
                self@.apple is None,
                self@.is_first_free(fallback),
                turned_down.len() == rejected,
                forall|i: int|
                    0 <= i < turned_down.len() ==> {
                        &&& (#[trigger] turned_down[i]).within(self@.grid)
                        &&& self@.snake.occupies(turned_down[i])
                    },
            decreases RESPAWN_ATTEMPTS - rejected,
        {
            let candidate = Coord::new_random(self.grid);
            if self.place_apple(candidate) {
                return Ghost(turned_down);
            }
            proof {
                turned_down = turned_down.push(candidate);
            }
            rejected += 1;
        }
        self.place_apple(fallback);
        Ghost(turned_down)
    }

    /// Looks for the first free cell of the grid, reading row by row from the
    /// top and each row from the left. Nothing changes.
    fn first_free_cell(&mut self) -> (found: Option<Coord>)
        requires
            0 < old(self)@.grid,
        ensures
            final(self)@ == old(self)@,
            match found {
                Some(c) => old(self)@.is_first_free(c),
                None => !old(self)@.has_free_cell(),
            },
    {
        let mut y: isize = 0;
        while y < self.grid
            invariant
                0 <= y <= self@.grid,
                self@ == old(self)@,
                forall|d: Coord|
                    d.within(self@.grid) && d.1 < y ==> #[trigger] self@.snake.occupies(d),
            decreases self@.grid - y,
        {
            let mut x: isize = 0;
            while x < self.grid
                invariant
                    0 <= x <= self@.grid,
                    0 <= y < self@.grid,
                    self@ == old(self)@,
                    forall|d: Coord|
                        d.within(self@.grid) && d.1 < y ==> #[trigger] self@.snake.occupies(d),
                    forall|d: Coord|
                        d.1 == y && 0 <= d.0 < x ==> #[trigger] self@.snake.occupies(d),
                decreases self@.grid - x,
            {
                let c = Coord(x, y);
                if !self.snake.is_snake(&c) {
                    return Some(c);
                }
                x += 1;
            }
            y += 1;
        }
        None
    }

    /// Speeds the game up by one step, unless that would take it below the
    /// least rate.
    fn increase_tick_rate(&mut self)
        ensures
            final(self)@ == (GameState {
                tick_rate: sped_up(old(self)@.tick_rate),
                ..old(self)@
            }),
    {
        if self.tick_rate >= MIN_TICK_RATE + TICK_RATE_STEP {
            self.tick_rate -= TICK_RATE_STEP;
        }
    }

    /// Tells whether `c` lies off the grid.
    fn is_out_of_bounds(&self, c: Coord) -> (out: bool)
        requires
            0 < self@.grid,
        ensures
            out == !c.within(self@.grid),
    {
        let Coord(x, y) = c;
        x < 0 || y < 0 || x > self.grid - 1 || y > self.grid - 1
    }

    /// Returns the number of cells per side of the grid.
    pub fn grid(&self) -> (n: isize)
        ensures
            n == self@.grid,
    {
        self.grid
    }

    /// Returns the number of pixels per side of a cell.
    pub fn grid_size(&self) -> (n: isize)
        ensures
            n == self@.cell,
    {
        self.grid_size
    }

    /// Returns the snake.
    pub fn snake(&self) -> (s: &Snake)
        ensures
            s@ == self@.snake,
    {
        &self.snake
    }

    /// Returns the food, if it is set.
    pub fn apple(&self) -> (a: Option<Coord>)
        ensures
            a == self@.apple,
    {
        self.apple
    }

    /// Returns the direction of travel.
    pub fn direction(&self) -> (d: Direction)
        ensures
            d == self@.direction,
    {
        self.direction
    }

    /// Returns the frames counted since the last tick.
    pub fn counter(&self) -> (n: u64)
        ensures
            n == self@.counter,
    {
        self.counter
    }

    /// Returns the frames per tick.
    pub fn tick_rate(&self) -> (n: u64)
        ensures
            n == self@.tick_rate,
    {
        self.tick_rate
    }

    /// Returns the status.
    pub fn status(&self) -> (s: GameStatus)
        ensures
            s == self@.status,
    {
        self.status
    }
}

/// Tells whether two strings hold the same text.
fn same_text(a: &str, b: &str) -> (same: bool)
    ensures
        same == (a@ == b@),
{
    a.to_owned() == b.to_owned()
}

/// A tick keeps a steady board steady, whatever food it finds: in
/// particular, as long as the game is not over the snake has no cell twice
/// and the food lies off the snake.
pub proof fn lemma_tick_keeps_steady(pre: GameState, post: GameState)
    requires
        pre.steady(),
        pre.ticks_to(post),
    ensures
        post.steady(),
{
    if pre.status == GameStatus::Playing {
        let dir = pre.direction;
        let after = pre.snake.advance(dir);
        snake::lemma_advance(pre.snake, dir);
        snake::lemma_advance_then_eat(pre.snake, dir);
        if post.status != GameStatus::GameOver {
            if pre.eats() {
                snake::lemma_eat_distinct(pre.snake, dir);
            } else {
                snake::lemma_advance_distinct(pre.snake, dir);
                if let Some(a) = pre.apple {
                    if after.occupies(a) {
                        let k = choose|k: int| 0 <= k < after.cells.len() && after.cells[k] == a;
                        if k < after.cells.len() - 1 {
                            assert(pre.snake.cells[k + 1] == a);
                        }
                    }
                }
            }
        }
    }
}

/// A tick never puts the food on a cell of the snake or off the grid:
/// whenever the food after a tick is not the food before it, it is unset or
/// lies on a free cell.
pub proof fn lemma_new_food_is_free(pre: GameState, post: GameState)
    requires
        pre.steady(),
        pre.ticks_to(post),
        post.apple != pre.apple,
    ensures
        post.apple matches Some(c) ==> post.is_free(c),
{
}

/// A tick that has to look for a new food finds one whenever the grid has a
/// free cell: the food is then set, and it is unset only on a grid that the
/// snake fills.
pub proof fn lemma_food_is_found(pre: GameState, post: GameState)
    requires
        pre.steady(),
        pre.ticks_to(post),
        pre.moved().wants_food(),
    ensures
        post.apple is Some <==> post.has_free_cell(),
        post.apple matches Some(c) ==> post.is_free(c),
{
    let m = pre.moved();
    assert forall|c: Coord| m.is_free(c) <==> post.is_free(c) by {}
    if m.has_free_cell() {
        let c = choose|c: Coord| m.is_free(c);
        assert(post.is_free(c));
    }
    if post.has_free_cell() {
        let c = choose|c: Coord| post.is_free(c);
        assert(m.is_free(c));
    }
}

/// A tick that eats on a board in play leaves the game in play and looks for
/// a new food: the snake is longer by the eaten cell, and the food, if the
/// grid has room for one, lies elsewhere.
pub proof fn lemma_eating_asks_for_food(pre: GameState, post: GameState)
    requires
        pre.steady(),
        pre.ticks_to(post),
        pre.eats(),
    ensures
        post.status == GameStatus::Playing,
        pre.moved().wants_food(),
        post.snake.cells == pre.snake.cells.push(pre.apple->0),
        post.snake.vacated is None,
        post.apple != pre.apple,
{
    let dir = pre.direction;
    snake::lemma_advance(pre.snake, dir);
    snake::lemma_advance_then_eat(pre.snake, dir);
    let grown = pre.moved_snake();
    let food = pre.apple->0;
    assert(grown.cells.drop_last() =~= pre.snake.cells);
    assert(grown.cells[grown.cells.len() - 1] == food);
}

/// The frames per tick never fall below the least rate.
pub proof fn lemma_tick_rate_floor(pre: GameState, post: GameState)
    requires
        pre.steady(),
        pre.ticks_to(post),
    ensures
        post.tick_rate >= MIN_TICK_RATE,
{
}

/// The frames per tick never rise, and fall by one step exactly in a tick
/// that eats while the rate is a step or more above the least rate.
pub proof fn lemma_tick_rate_bounds(pre: GameState, post: GameState)
    requires
        pre.steady(),
        pre.ticks_to(post),
    ensures
        post.tick_rate <= pre.tick_rate,
        post.tick_rate == pre.tick_rate || post.tick_rate == pre.tick_rate - TICK_RATE_STEP,
        post.tick_rate != pre.tick_rate <==> pre.eats() && pre.tick_rate >= MIN_TICK_RATE
            + TICK_RATE_STEP,
{
}

/// A new game on a grid of more than one cell has room for the food, and one
/// on a grid of a single cell has none: the snake lies on the only cell.
pub proof fn lemma_initial_room(grid: int, cell: int)
    requires
        0 < grid <= isize::MAX,
    ensures
        GameState::initial(grid, cell, None).has_free_cell() <==> grid > 1,
{
    let fresh = GameState::initial(grid, cell, None);
    let at = Coord((grid / 2) as isize, (grid / 2) as isize);
    snake::lemma_straight(at, STARTING_LENGTH as nat);
    if grid > 1 {
        let corner = Coord(0, 0);
        if fresh.snake.occupies(corner) {
            let k = choose|k: int| 0 <= k < fresh.snake.cells.len() && fresh.snake.cells[k] == corner;
            assert(fresh.snake.cells[k].1 == at.1);
        }
        assert(fresh.is_free(corner));
    } else {
        assert(fresh.snake.cells[2] == Coord(0, 0));
        assert forall|c: Coord| !fresh.is_free(c) by {
            if c.within(grid) {
                assert(c == Coord(0, 0));
            }
        }
    }
}

/// A frame keeps a well-formed state well formed.
pub proof fn lemma_play_keeps_wf(pre: GameState, post: GameState)
    requires
        pre.wf(),
        pre.plays_to(post),
    ensures
        post.wf(),
{
    if pre.tick_due() {
        lemma_tick_keeps_steady(pre, GameState { counter: pre.counter, ..post });
    } else if pre.counter == pre.tick_rate {
        vstd::arithmetic::div_mod::lemma_mod_self_0(pre.tick_rate as int);
    }
}

/// A key press keeps a well-formed state well formed.
pub proof fn lemma_control_keeps_wf(pre: GameState, key: Seq<char>, post: GameState)
    requires
        pre.wf(),
        pre.controls_to(key, post),
    ensures
        post.wf(),
{
    snake::lemma_straight(
        Coord((pre.grid / 2) as isize, (pre.grid / 2) as isize),
        STARTING_LENGTH as nat,
    );
}

/// A restart gives a paused game with a straight snake of the starting
/// length, its head at the centre of the grid, heading left at the starting
/// rate, with no frame counted and the food on a cell that the snake leaves
/// free, which a grid of more than one cell has.
pub proof fn lemma_reset(pre: GameState, post: GameState)
    requires
        0 < pre.grid <= isize::MAX,
        pre.resets_to(post),
    ensures
        post.wf(),
        post.status == GameStatus::Paused,
        post.direction == Direction::Left,
        post.tick_rate == STARTING_TICK_RATE,
        post.counter == 0,
        post.snake.cells.len() == STARTING_LENGTH,
        post.snake.distinct(),
        post.snake.head() == Coord((pre.grid / 2) as isize, (pre.grid / 2) as isize),
        post.snake.vacated is None,
        post.grid == pre.grid,
        post.cell == pre.cell,
        post.tidy(),
        post.apple is Some <==> pre.grid > 1,
{
    snake::lemma_straight(
        Coord((pre.grid / 2) as isize, (pre.grid / 2) as isize),
        STARTING_LENGTH as nat,
    );
    lemma_initial_room(pre.grid, pre.cell);
}

} // verus!
