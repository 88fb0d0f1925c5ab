//! The game: the field, its walls and pellets, the score and the per-tick
//! state machine.

use vstd::prelude::*;
use rand::rngs::ThreadRng;
use crate::buffer::LossyBuffer;
use crate::direction::Direction;
use crate::geometry::{lemma_cells_len, Point, Rect};
use crate::input::Key;
use crate::point_set::{ascending, PointSet};
use crate::random::gen_range;
use crate::snake::{Snake, SnakeView, INITIAL_LENGTH};

verus! {

/// The number of key presses that are kept between two ticks.
pub const INPUT_CAPACITY: usize = 2;

/// The share of the field's cells, in percent, that become walls.
pub const PERCENT_WALLS: usize = 1;

/// The score from which on the game no longer speeds up.
pub const MAX_SPEED_LEVEL: usize = 30;

/// The number of random cells that are tried for one wall. If all of them
/// are taken, the wall goes on the first free cell of the field in reading
/// order, so that placing a wall always comes to an end.
pub const WALL_SAMPLES: usize = 64;

/// What the caller of a tick is to do next.
#[derive(Copy, Clone, Debug, PartialEq, Eq, Structural)]
pub enum GameAction {
    /// Leave the game loop.
    Exit,
    /// Go on with the next tick.
    KeepRunning,
}

/// The number of walls for a field of `area` cells of which `percent`
/// percent become walls: `area * percent / 100`, rounded down.
pub open spec fn spec_wall_quota(area: nat, percent: nat) -> nat {
    (area * percent / 100) as nat
}

/// The speed level at a given score: the score, capped at
/// [`MAX_SPEED_LEVEL`].
pub open spec fn spec_speed_level(score: nat) -> nat {
    if score <= MAX_SPEED_LEVEL {
        score
    } else {
        MAX_SPEED_LEVEL as nat
    }
}

/// The mathematical state of a game.
pub struct GameView {
    /// The snake.
    pub snake: SnakeView,
    /// The cells that hold a pellet.
    pub pellets: Set<Point>,
    /// The number of pellets eaten.
    pub score: nat,
    /// Whether the game is over.
    pub lost: bool,
    /// Whether the game is paused.
    pub paused: bool,
    /// The key presses that wait to be handled, oldest first.
    pub inputs: Seq<Key>,
    /// The playing field.
    pub field: Rect,
    /// The cells that hold a wall.
    pub walls: Set<Point>,
}

impl GameView {
    /// The game at its start on `field`: the snake in its first position,
    /// no wall, no pellet, no score.
    pub open spec fn initial(field: Rect) -> GameView {
        GameView {
            snake: SnakeView::initial(),
            pellets: Set::empty(),
            score: 0,
            lost: false,
            paused: false,
            inputs: Seq::empty(),
            field,
            walls: Set::empty(),
        }
    }

    /// What holds of every game between two ticks.
    pub open spec fn inv(self) -> bool {
        // The field is not empty, and there is room for a border around it.
        &&& self.field.x >= 1
        &&& self.field.y >= 1
        &&& self.field.x + self.field.width < usize::MAX
        &&& self.field.y + self.field.height < usize::MAX
        &&& self.field.width >= 1
        &&& self.field.height >= 1
        &&& self.field.width * self.field.height <= usize::MAX
        &&& self.walls.finite()
        &&& self.pellets.finite()
        // Walls and pellets lie on the field.
        &&& forall|p: Point| #[trigger] self.walls.contains(p) ==> self.field.contains(&p)
        &&& forall|p: Point| #[trigger] self.pellets.contains(p) ==> self.field.contains(&p)
        // No more keys wait than the buffer holds.
        &&& self.inputs.len() <= INPUT_CAPACITY
        // The snake has grown by one segment for each pellet eaten.
        &&& self.snake.body.len() == INITIAL_LENGTH + self.score
        // The snake has never reversed on the spot.
        &&& self.snake.unbroken()
        // The game is lost exactly when the snake is dead.
        &&& self.lost == !self.snake.alive
        // A live snake has not run into itself, and it is on the field
        // unless it has not left its first cell.
        &&& !self.lost ==> !self.snake.eating_itself()
        &&& !self.lost ==> self.snake.head == SnakeView::initial().head || self.field.contains(
            &self.snake.head,
        )
    }

    /// The key that the next tick handles, if one waits.
    pub open spec fn pending(self) -> Option<Key> {
        if self.inputs.len() > 0 {
            Some(self.inputs[0])
        } else {
            None
        }
    }

    /// The game after a key press has arrived: the key joins the waiting
    /// keys unless as many wait as the buffer holds.
    pub open spec fn push_key(self, key: Key) -> GameView {
        if self.inputs.len() < INPUT_CAPACITY {
            GameView { inputs: self.inputs.push(key), ..self }
        } else {
            self
        }
    }

    /// Whether the next tick ends the game loop: the pending key is a quit
    /// key.
    pub open spec fn quits(self) -> bool {
        self.pending() matches Some(key) && key.is_quit()
    }

    /// What the next tick tells its caller.
    pub open spec fn action(self) -> GameAction {
        if self.quits() {
            GameAction::Exit
        } else {
            GameAction::KeepRunning
        }
    }

    /// Whether the game is paused once the next tick has handled its key.
    pub open spec fn paused_after_input(self) -> bool {
        if self.pending() matches Some(key) && key.is_pause() {
            !self.paused
        } else {
            self.paused
        }
    }

    /// The heading that the next tick asks of the snake: that of the pending
    /// key if it is an arrow key, else the heading the snake has.
    pub open spec fn requested_heading(self) -> Direction {
        match self.pending() {
            Some(key) => match key.direction() {
                Some(heading) => heading,
                None => self.snake.heading,
            },
            None => self.snake.heading,
        }
    }

    /// Whether the next tick moves the snake: it does unless the tick ends
    /// the loop, the game is paused or the game is lost.
    pub open spec fn moves(self) -> bool {
        !self.quits() && !self.paused_after_input() && !self.lost
    }

    /// Whether the next tick lets the snake eat a pellet: the snake moves
    /// and a pellet lies under its head.
    pub open spec fn eats(self) -> bool {
        self.moves() && self.pellets.contains(self.snake.head)
    }

    /// Whether a head on cell `head` is off the field or in a wall.
    pub open spec fn blocked(self, head: Point) -> bool {
        !self.field.contains(&head) || self.walls.contains(head)
    }

    /// The game with a pellet on cell `p`.
    pub open spec fn with_pellet(self, p: Point) -> GameView {
        GameView { pellets: self.pellets.insert(p), ..self }
    }

    /// The game with a wall on cell `p`.
    pub open spec fn with_wall(self, p: Point) -> GameView {
        GameView { walls: self.walls.insert(p), ..self }
    }

    /// The cells that hold a wall or a pellet.
    pub open spec fn taken(self) -> Set<Point> {
        self.walls + self.pellets
    }

    /// Whether a wall may go on cell `p`: the cell holds neither a wall nor
    /// a pellet.
    pub open spec fn wall_fits(self, p: Point) -> bool {
        !self.walls.contains(p) && !self.pellets.contains(p)
    }

    /// Whether `after` is `self` with `count` more walls, none of them on a
    /// cell where a pellet lies.
    pub open spec fn walls_added(self, after: GameView, count: nat) -> bool {
        &&& after == GameView { walls: after.walls, ..self }
        &&& self.walls.subset_of(after.walls)
        &&& after.walls.len() == self.walls.len() + count
        &&& forall|p: Point| #[trigger]
            after.walls.contains(p) && !self.walls.contains(p) ==> !self.pellets.contains(p)
    }

    /// The game once the pending key is handled: the key is gone, the pause
    /// is toggled if the key says so, and the snake has been asked to turn
    /// unless the tick ends the loop or the game is paused.
    pub open spec fn after_input(self) -> GameView {
        let inputs = if self.inputs.len() > 0 {
            self.inputs.drop_first()
        } else {
            self.inputs
        };
        if self.quits() {
            GameView { inputs, ..self }
        } else if self.paused_after_input() {
            GameView { inputs, paused: true, ..self }
        } else {
            GameView {
                inputs,
                paused: false,
                snake: self.snake.set_direction(self.requested_heading()),
                ..self
            }
        }
    }

    /// The game after one tick, where `fresh` is the cell on which the next
    /// pellet appears if the snake eats one on this tick.
    pub open spec fn next(self, fresh: Point) -> GameView {
        let turned = self.after_input();
        if !self.moves() {
            turned
        } else {
            let grow = self.eats();
            let moved = turned.snake.crawl(grow);
            let dead = moved.eating_itself() || self.blocked(moved.head);
            GameView {
                snake: if dead {
                    moved.kill()
                } else {
                    moved
                },
                lost: dead,
                pellets: if grow {
                    self.pellets.remove(self.snake.head).insert(fresh)
                } else {
                    self.pellets
                },
                score: if grow {
                    self.score + 1
                } else {
                    self.score
                },
                ..turned
            }
        }
    }
}

/// The playing field on a terminal of `width` by `height` cells: all but a
/// border of one cell on each side.
pub open spec fn field_of(width: usize, height: usize) -> Rect {
    Rect { x: 1, y: 1, width: (width - 2) as usize, height: (height - 2) as usize }
}

/// Whether a terminal of `width` by `height` cells has room for a game.
pub open spec fn terminal_fits(width: usize, height: usize) -> bool {
    width >= 3 && height >= 3 && (width - 2) * (height - 2) <= usize::MAX
}

/// The number of walls for a field of `area` cells of which `percent`
/// percent become walls.
pub fn wall_quota(area: usize, percent: usize) -> (count: usize)
    requires
        percent <= 100,
    ensures
        count == spec_wall_quota(area as nat, percent as nat),
        count <= area,
{
    assert(area * percent / 100 <= area) by (nonlinear_arith)
        requires
            0 <= area,
            0 <= percent <= 100,
    ;
    assert(area * percent <= usize::MAX * 100) by (nonlinear_arith)
        requires
            0 <= area <= usize::MAX,
            0 <= percent <= 100,
    ;
    let product: u128 = (area as u128) * (percent as u128);
    (product / 100) as usize
}

/// The game.
pub struct Game {
    snake: Snake,
    pellets: PointSet,
    score: usize,
    lost: bool,
    paused: bool,
    input_buffer: LossyBuffer<Key>,
    field: Rect,
    walls: PointSet,
}

impl View for Game {
    type V = GameView;

    closed spec fn view(&self) -> GameView {
        GameView {
            snake: self.snake@,
            pellets: self.pellets@,
            score: self.score as nat,
            lost: self.lost,
            paused: self.paused,
            inputs: self.input_buffer@,
            field: self.field,
            walls: self.walls@,
        }
    }
}

impl Game {
    /// The stores behind the view are sound.
    pub closed spec fn storage_ok(&self) -> bool {
        &&& self.walls.wf()
        &&& self.pellets.wf()
        &&& self.input_buffer.limit() == INPUT_CAPACITY
    }

    /// What holds of every game between two calls.
    pub open spec fn inv(&self) -> bool {
        self@.inv() && self.storage_ok()
    }

    /// A game on a terminal of `width` by `height` cells, with neither
    /// walls nor pellets.
    pub fn empty(width: usize, height: usize) -> (game: Self)
        requires
            terminal_fits(width, height),
        ensures
            game.inv(),
            game@ == GameView::initial(field_of(width, height)),
    {
        let field = Rect { x: 1, y: 1, width: width - 2, height: height - 2 };
        Self {
            snake: Snake::new(),
            pellets: PointSet::new(),
            score: 0,
            lost: false,
            paused: false,
            input_buffer: LossyBuffer::new(INPUT_CAPACITY),
            field,
            walls: PointSet::new(),
        }
    }

    /// The snake.
    pub fn snake(&self) -> (snake: &Snake)
        ensures
            snake@ == self@.snake,
    {
        &self.snake
    }

    /// The number of pellets eaten.
    pub fn score(&self) -> (score: usize)
        ensures
            score == self@.score,
    {
        self.score
    }

    /// Whether the game is over.
    pub fn is_lost(&self) -> (lost: bool)
        ensures
            lost == self@.lost,
    {
        self.lost
    }

    /// Whether the game is paused.
    pub fn is_paused(&self) -> (paused: bool)
        ensures
            paused == self@.paused,
    {
        self.paused
    }

    /// The playing field.
    pub fn field(&self) -> (field: Rect)
        ensures
            field == self@.field,
    {
        self.field
    }

    /// The cells that hold a pellet, each once, from left to right and from
    /// top to bottom within a column.
    pub fn pellets(&self) -> (cells: Vec<Point>)
        requires
            self.inv(),
        ensures
            cells@.no_duplicates(),
            cells@.to_set() == self@.pellets,
            ascending(cells@),
    {
        self.pellets.to_vec()
    }

    /// The cells that hold a wall, each once, from left to right and from
    /// top to bottom within a column.
    pub fn walls(&self) -> (cells: Vec<Point>)
        requires
            self.inv(),
        ensures
            cells@.no_duplicates(),
            cells@.to_set() == self@.walls,
            ascending(cells@),
    {
        self.walls.to_vec()
    }

    /// Whether a pellet lies on `cell`.
    pub fn has_pellet(&self, cell: &Point) -> (found: bool)
        ensures
            found == self@.pellets.contains(*cell),
    {
        self.pellets.contains(cell)
    }

    /// Whether a wall stands on `cell`.
    pub fn has_wall(&self, cell: &Point) -> (found: bool)
        ensures
            found == self@.walls.contains(*cell),
    {
        self.walls.contains(cell)
    }

    /// The number of pellets on the field.
    pub fn pellet_count(&self) -> (n: usize)
        requires
            self.inv(),
        ensures
            n == self@.pellets.len(),
    {
        self.pellets.len()
    }

    /// The number of walls on the field.
    pub fn wall_count(&self) -> (n: usize)
        requires
            self.inv(),
        ensures
            n == self@.walls.len(),
    {
        self.walls.len()
    }

    /// The speed level: the score, capped at [`MAX_SPEED_LEVEL`].
    pub fn speed_level(&self) -> (level: usize)
        ensures
            level == spec_speed_level(self@.score),
    {
        if self.score <= MAX_SPEED_LEVEL {
            self.score
        } else {
            MAX_SPEED_LEVEL
        }
    }

    /// Hands a key press to the game. It waits for its tick unless as many
    /// keys wait already as the buffer holds: then it is dropped.
    pub fn push_key(&mut self, key: Key)
        requires
            old(self).inv(),
        ensures
            final(self).inv(),
            final(self)@ == old(self)@.push_key(key),
    {
        self.input_buffer.push(key);
    }

    /// Puts a pellet on `cell`.
    pub fn place_pellet(&mut self, cell: Point)
        requires
            old(self).inv(),
            old(self)@.field.contains(&cell),
        ensures
            final(self).inv(),
            final(self)@ == old(self)@.with_pellet(cell),
    {
        self.pellets.insert(cell);
    }

    /// Puts a wall on `cell` unless the cell holds a wall or a pellet, and
    /// says whether it did.
    pub fn place_wall(&mut self, cell: Point) -> (placed: bool)
        requires
            old(self).inv(),
            old(self)@.field.contains(&cell),
        ensures
            final(self).inv(),
            placed == old(self)@.wall_fits(cell),
            placed ==> final(self)@ == old(self)@.with_wall(cell),
            !placed ==> final(self)@ == old(self)@,
    {
        if self.walls.contains(&cell) || self.pellets.contains(&cell) {
            return false;
        }
        self.walls.insert(cell);
        true
    }

    /// Puts a pellet on a cell of the field picked at random. The cell may
    /// hold a wall, a pellet or the snake.
    pub fn spawn_pellet(&mut self)
        requires
            old(self).inv(),
        ensures
            final(self).inv(),
            exists|cell: Point| #[trigger]
                old(self)@.field.contains(&cell) && final(self)@ == old(self)@.with_pellet(
                    cell,
                ),
    {
        let mut rng = rand::thread_rng();
        let cell = random_cell(&mut rng, &self.field);
        self.place_pellet(cell);
    }
}

/// A cell of `field` picked at random: a column, then a row.
fn random_cell(rng: &mut ThreadRng, field: &Rect) -> (cell: Point)
    requires
        field.wf(),
        field.width >= 1,
        field.height >= 1,
    ensures
        field.contains(&cell),
{
    let x = gen_range(rng, field.left(), field.right());
    let y = gen_range(rng, field.top(), field.bottom());
    Point::new(x, y)
}

impl Game {
    /// Handles the key that waits longest, if any: an arrow key asks the
    /// snake to turn, a quit key ends the loop at once, the space bar
    /// toggles the pause. A paused game does not turn the snake.
    fn handle_input(&mut self) -> (action: GameAction)
        requires
            old(self).inv(),
        ensures
            final(self).inv(),
            final(self)@ == old(self)@.after_input(),
            action == old(self)@.action(),
    {
        let mut next_direction = *self.snake.direction();

        if let Some(key) = self.input_buffer.pop() {
            if let Some(heading) = key.direction() {
                next_direction = heading;
            } else if key.is_quit() {
                return GameAction::Exit;
            } else if key.is_pause() {
                self.paused = !self.paused;
            }
        }
        if self.paused {
            return GameAction::KeepRunning;
        }
        self.snake.set_direction(next_direction);
        GameAction::KeepRunning
    }

    /// Takes the pellet under the snake's head off the field, and says
    /// whether there was one.
    fn take_pellet(&mut self) -> (found: bool)
        requires
            old(self).inv(),
        ensures
            final(self).inv(),
            found == old(self)@.pellets.contains(old(self)@.snake.head),
            final(self)@ == (GameView {
                pellets: old(self)@.pellets.remove(old(self)@.snake.head),
                ..old(self)@
            }),
    {
        self.pellets.remove(self.snake.position())
    }

    /// Whether the snake's head is off the field or in a wall.
    fn snake_outside_bounds(&self) -> (outside: bool)
        ensures
            outside == self@.blocked(self@.snake.head),
    {
        !self.field.contains(self.snake.position()) || self.walls.contains(self.snake.position())
    }

    /// Moves the snake one cell, counts the pellet if it ate one, and ends
    /// the game if it ran into itself, a wall or the edge of the field.
    fn advance(&mut self, grow: bool)
        requires
            old(self).inv(),
            !old(self)@.lost,
        ensures
            final(self).inv(),
            final(self)@ == ({
                let moved = old(self)@.snake.crawl(grow);
                let dead = moved.eating_itself() || old(self)@.blocked(moved.head);
                GameView {
                    snake: if dead {
                        moved.kill()
                    } else {
                        moved
                    },
                    lost: dead,
                    score: if grow {
                        old(self)@.score + 1
                    } else {
                        old(self)@.score
                    },
                    ..old(self)@
                }
            }),
    {
        if grow {
            proof {
                self.snake.lemma_len_bounded();
            }
            self.score += 1;
        }
        self.snake.crawl(grow);

        if self.snake.eating_itself() || self.snake_outside_bounds() {
            self.snake.kill();
            self.lost = true;
        }
    }

    /// One tick of the game. The key that waits longest is handled; then,
    /// unless the game is paused or lost, the snake eats the pellet under
    /// its head, a new pellet appears at random, and the snake moves on.
    /// A quit key ends the tick at once.
    pub fn run_logic_step(&mut self) -> (action: GameAction)
        requires
            old(self).inv(),
        ensures
            final(self).inv(),
            action == old(self)@.action(),
            exists|fresh: Point| #[trigger]
                old(self)@.field.contains(&fresh) && final(self)@ == old(self)@.next(fresh),
            final(self)@.snake.heading != old(self)@.snake.heading.opposite(),
    {
        let action = self.handle_input();
        if action == GameAction::Exit || self.paused || self.lost {
            proof {
                let corner = Point { x: self.field.x, y: self.field.y };
                assert(old(self)@.field.contains(&corner));
                assert(self@ == old(self)@.next(corner));
            }
            return action;
        }
        let ghost turned = self@;
        let grow = self.take_pellet();
        if grow {
            self.spawn_pellet();
        }
        let ghost fed = self@;
        self.advance(grow);
        proof {
            if grow {
                let fresh = choose|cell: Point| #[trigger]
                    turned.field.contains(&cell) && fed == (GameView {
                        pellets: turned.pellets.remove(turned.snake.head),
                        ..turned
                    }).with_pellet(cell);
                assert(old(self)@.field.contains(&fresh));
                assert(self@ == old(self)@.next(fresh));
            } else {
                let corner = Point { x: self.field.x, y: self.field.y };
                assert(old(self)@.field.contains(&corner));
                assert(fed.pellets =~= old(self)@.pellets);
                assert(self@ == old(self)@.next(corner));
            }
        }
        action
    }

    /// One tick of the game in which the pellet that replaces an eaten one
    /// appears on `fresh`.
    pub fn run_logic_step_with(&mut self, fresh: Point) -> (action: GameAction)
        requires
            old(self).inv(),
            old(self)@.field.contains(&fresh),
        ensures
            final(self).inv(),
            action == old(self)@.action(),
            final(self)@ == old(self)@.next(fresh),
    {
        let action = self.handle_input();
        if action == GameAction::Exit || self.paused || self.lost {
            return action;
        }
        let grow = self.take_pellet();
        if grow {
            self.place_pellet(fresh);
        }
        let ghost fed = self@;
        self.advance(grow);
        proof {
            if !grow {
                assert(fed.pellets =~= old(self)@.pellets);
            }
        }
        action
    }
}

impl Game {
    /// The first cell of the field, row by row, that holds neither a wall
    /// nor a pellet. There is one if walls and pellets take up fewer cells
    /// than the field has.
    fn first_free_cell(&self) -> (cell: Point)
        requires
            self.inv(),
            self@.taken().len() < self@.field.spec_area(),
        ensures
            self@.field.contains(&cell),
            self@.wall_fits(cell),
            forall|p: Point|
                self@.field.contains(&p) && (p.y < cell.y || (p.y == cell.y && p.x < cell.x))
                    ==> !#[trigger] self@.wall_fits(p),
    {
        let left = self.field.left();
        let right = self.field.right();
        let top = self.field.top();
        let bottom = self.field.bottom();
        let mut y = top;
        while y < bottom
            invariant
                self.inv(),
                left == self@.field.x,
                right == self@.field.x + self@.field.width,
                top == self@.field.y,
                bottom == self@.field.y + self@.field.height,
                top <= y <= bottom,
                forall|p: Point|
                    self@.field.contains(&p) && p.y < y ==> !#[trigger] self@.wall_fits(p),
            decreases bottom - y,
        {
            let mut x = left;
            while x < right
                invariant
                    self.inv(),
                    left == self@.field.x,
                    right == self@.field.x + self@.field.width,
                    top <= y < bottom,
                    top == self@.field.y,
                    bottom == self@.field.y + self@.field.height,
                    left <= x <= right,
                    forall|p: Point|
                        self@.field.contains(&p) && (p.y < y || (p.y == y && p.x < x))
                            ==> !#[trigger] self@.wall_fits(p),
                decreases right - x,
            {
                let cell = Point::new(x, y);
                if !self.walls.contains(&cell) && !self.pellets.contains(&cell) {
                    return cell;
                }
                x += 1;
            }
            y += 1;
        }
        proof {
            // The search has seen every cell of the field and found each
            // taken, so the field has no more cells than are taken: the
            // end of the search is never reached.
            let taken = self@.taken();
            assert forall|p: Point| self@.field.cells().contains(p) implies taken.contains(p) by {
                assert(!self@.wall_fits(p));
            }
            lemma_cells_len(self@.field);
            vstd::set_lib::lemma_len_subset(self@.field.cells(), taken);
            assert(false);
        }
        Point::new(left, top)
    }

    /// Puts walls on `percent` percent of the field's cells, rounded down.
    /// Each wall goes on a cell picked at random that holds neither a wall
    /// nor a pellet; a pick that lands on a taken cell is thrown away and
    /// made again. After [`WALL_SAMPLES`] picks in vain the wall goes on
    /// the first free cell of the field in reading order. The field must
    /// have room for the walls.
    pub fn spawn_walls(&mut self, percent: usize)
        requires
            old(self).inv(),
            percent <= 100,
            old(self)@.taken().len() + spec_wall_quota(
                old(self)@.field.spec_area(),
                percent as nat,
            ) <= old(self)@.field.spec_area(),
        ensures
            final(self).inv(),
            old(self)@.walls_added(
                final(self)@,
                spec_wall_quota(old(self)@.field.spec_area(), percent as nat),
            ),
    {
        let num_walls = wall_quota(self.field.area(), percent);
        let mut rng = rand::thread_rng();
        let mut placed: usize = 0;

        while placed < num_walls
            invariant
                self.inv(),
                placed <= num_walls,
                num_walls == spec_wall_quota(old(self)@.field.spec_area(), percent as nat),
                old(self)@.taken().len() + num_walls <= old(self)@.field.spec_area(),
                old(self)@.walls_added(self@, placed as nat),
                self@.taken().len() == old(self)@.taken().len() + placed,
            decreases num_walls - placed,
        {
            let mut done = false;
            let mut tries: usize = 0;
            while !done && tries < WALL_SAMPLES
                invariant
                    self.inv(),
                    tries <= WALL_SAMPLES,
                    placed < num_walls,
                    old(self)@.taken().len() + num_walls <= old(self)@.field.spec_area(),
                    old(self)@.walls_added(
                        self@,
                        if done {
                            (placed + 1) as nat
                        } else {
                            placed as nat
                        },
                    ),
                    self@.taken().len() == old(self)@.taken().len() + if done {
                        placed + 1
                    } else {
                        placed as int
                    },
                decreases WALL_SAMPLES - tries,
            {
                let ghost before = self@;
                let cell = random_cell(&mut rng, &self.field);
                done = self.place_wall(cell);
                tries += 1;
                proof {
                    if done {
                        assert(self@.taken() =~= before.taken().insert(cell));
                    }
                }
            }
            if !done {
                let ghost before = self@;
                let cell = self.first_free_cell();
                self.place_wall(cell);
                assert(self@.taken() =~= before.taken().insert(cell));
            }
            placed += 1;
        }
    }

    /// A new game on a terminal of `width` by `height` cells: the snake in
    /// its first position, walls on [`PERCENT_WALLS`] percent of the field,
    /// and one pellet on a cell picked at random.
    pub fn new(width: usize, height: usize) -> (game: Self)
        requires
            terminal_fits(width, height),
        ensures
            game.inv(),
            game@ == (GameView {
                walls: game@.walls,
                pellets: game@.pellets,
                ..GameView::initial(field_of(width, height))
            }),
            game@.walls.len() == spec_wall_quota(
                field_of(width, height).spec_area(),
                PERCENT_WALLS as nat,
            ),
            exists|pellet: Point| #[trigger]
                game@.field.contains(&pellet) && game@.pellets == Set::<Point>::empty().insert(
                    pellet,
                ),
    {
        let mut game = Self::empty(width, height);
        assert(game@.taken() =~= Set::<Point>::empty());
        game.spawn_walls(PERCENT_WALLS);
        let ghost walled = game@;
        game.spawn_pellet();
        proof {
            let pellet = choose|cell: Point| #[trigger]
                walled.field.contains(&cell) && game@ == walled.with_pellet(cell);
            assert(game@.field.contains(&pellet));
            assert(game@.pellets == Set::<Point>::empty().insert(pellet));
        }
        game
    }
}

} // verus!
