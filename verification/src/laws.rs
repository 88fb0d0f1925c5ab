//! What holds of every game, whatever keys are pressed and wherever the
//! pellets fall.

use vstd::prelude::*;
use crate::direction::Direction;
use crate::game::GameView;
use crate::geometry::{Point, Rect};
use crate::input::Key;
use crate::snake::{spec_turn_symbol, SnakeView, BROKEN_SYMBOL, INITIAL_LENGTH};

verus! {

/// Something that happens to a game: a key press arrives, or the clock
/// ticks and brings the cell for the next pellet with it.
pub enum Event {
    Key(Key),
    Tick(Point),
}

impl GameView {
    /// The game after `event`.
    pub open spec fn apply(self, event: Event) -> GameView {
        match event {
            Event::Key(key) => self.push_key(key),
            Event::Tick(fresh) => self.next(fresh),
        }
    }

    /// The game after `events`, in their order.
    pub open spec fn run(self, events: Seq<Event>) -> GameView
        decreases events.len(),
    {
        if events.len() == 0 {
            self
        } else {
            self.run(events.drop_last()).apply(events.last())
        }
    }

    /// The number of pellets that the snake eats in the course of `events`.
    pub open spec fn eaten(self, events: Seq<Event>) -> nat
        decreases events.len(),
    {
        if events.len() == 0 {
            0
        } else {
            let before = self.run(events.drop_last());
            let now: nat = if events.last() is Tick && before.eats() {
                1
            } else {
                0
            };
            self.eaten(events.drop_last()) + now
        }
    }

    /// Whether every pellet that `events` bring falls on the field.
    pub open spec fn admits(self, events: Seq<Event>) -> bool {
        forall|i: int|
            0 <= i < events.len() ==> (#[trigger] events[i] matches Event::Tick(fresh)
                ==> self.field.contains(&fresh))
    }
}

/// A snake asked to turn never ends up heading the opposite way: it keeps
/// its heading or takes one that is not the reverse.
pub proof fn lemma_set_direction_never_reverses(snake: SnakeView, d: Direction)
    ensures
        snake.set_direction(d).heading != snake.heading.opposite(),
        snake.set_direction(d).heading == d || snake.set_direction(d) == snake,
{
}

/// A dead snake takes no heading any more.
pub proof fn lemma_dead_snake_ignores_directions(snake: SnakeView, d: Direction)
    ensures
        snake.kill().set_direction(d) == snake.kill(),
        snake.kill().kill() == snake.kill(),
{
}

/// Over one tick the heading never becomes the reverse of what it was,
/// whatever key waits and whatever else the game's state is. As this holds
/// of every state, it holds after every sequence of key presses.
pub proof fn lemma_tick_never_reverses(game: GameView, fresh: Point)
    ensures
        game.next(fresh).snake.heading != game.snake.heading.opposite(),
{
}

/// Whatever happens next, a key press or a tick, the heading does not
/// become the reverse of what it was. So no sequence of key presses and
/// ticks ever turns the snake round on the spot.
pub proof fn lemma_event_never_reverses(game: GameView, events: Seq<Event>, event: Event)
    ensures
        game.run(events.push(event)).snake.heading != game.run(events).snake.heading.opposite(),
{
    assert(events.push(event).drop_last() =~= events);
    assert(events.push(event).last() == event);
}

/// A key press that arrives changes nothing but the waiting keys, and it
/// keeps the game in order.
pub proof fn lemma_key_press_inv(game: GameView, key: Key)
    ensures
        game.push_key(key) == (GameView { inputs: game.push_key(key).inputs, ..game }),
        game.inv() ==> game.push_key(key).inv(),
{
}

/// A move lengthens the body by one segment if the snake grows and leaves
/// its length as it is otherwise.
pub proof fn lemma_crawl_length(snake: SnakeView, grow: bool)
    ensures
        grow ==> snake.crawl(grow).body.len() == snake.body.len() + 1,
        !grow && snake.body.len() > 0 ==> snake.crawl(grow).body.len() == snake.body.len(),
        snake.crawl(grow).body[0].position == snake.head,
{
}

/// The head of the first snake is off its body.
pub proof fn lemma_initial_snake_is_clear()
    ensures
        !SnakeView::initial().eating_itself(),
        SnakeView::initial().body.len() == INITIAL_LENGTH,
{
}

/// A game at its start is in order, if the field is not empty and leaves
/// room for its border.
pub proof fn lemma_initial_inv(field: Rect)
    requires
        field.x >= 1,
        field.y >= 1,
        field.x + field.width < usize::MAX,
        field.y + field.height < usize::MAX,
        field.width >= 1,
        field.height >= 1,
        field.width * field.height <= usize::MAX,
    ensures
        GameView::initial(field).inv(),
{
    lemma_initial_snake_is_clear();
}

/// A tick keeps the game in order, wherever on the field the next pellet
/// falls.
pub proof fn lemma_tick_inv(game: GameView, fresh: Point)
    requires
        game.inv(),
        game.field.contains(&fresh),
    ensures
        game.next(fresh).inv(),
{
    if game.moves() {
        lemma_crawl_length(game.after_input().snake, game.eats());
    }
}

/// A tick raises the score by one exactly when the snake eats, and then the
/// body is one segment longer, the pellet under the head is gone and a
/// pellet lies on the cell that the tick brought.
pub proof fn lemma_tick_eats(game: GameView, fresh: Point)
    requires
        game.inv(),
    ensures
        game.eats() ==> {
            &&& game.next(fresh).score == game.score + 1
            &&& game.next(fresh).snake.body.len() == game.snake.body.len() + 1
            &&& game.next(fresh).pellets == game.pellets.remove(game.snake.head).insert(fresh)
        },
        !game.eats() ==> {
            &&& game.next(fresh).score == game.score
            &&& game.next(fresh).snake.body.len() == game.snake.body.len()
            &&& game.next(fresh).pellets == game.pellets
        },
{
    if game.moves() {
        lemma_crawl_length(game.after_input().snake, game.eats());
    }
}

/// A field with one pellet has one pellet after a tick, too: the snake
/// leaves it where it is, or eats it and a new one appears.
pub proof fn lemma_tick_keeps_one_pellet(game: GameView, fresh: Point, pellet: Point)
    requires
        game.pellets == Set::<Point>::empty().insert(pellet),
    ensures
        game.next(fresh).pellets == Set::<Point>::empty().insert(
            if game.eats() {
                fresh
            } else {
                pellet
            },
        ),
{
    if game.eats() {
        assert(game.pellets.remove(game.snake.head) =~= Set::<Point>::empty());
    }
}

/// A tick on which a quit key waits does nothing but take the key: the
/// game stays as it is, paused or not, lost or not, and the loop ends.
pub proof fn lemma_quit_ends_tick(game: GameView, fresh: Point)
    requires
        game.quits(),
    ensures
        game.next(fresh) == (GameView { inputs: game.inputs.drop_first(), ..game }),
        game.action() == crate::game::GameAction::Exit,
{
}

/// Once the game is lost, the snake stays dead where it is: a tick moves
/// nothing but the waiting keys and the pause.
pub proof fn lemma_lost_stays_lost(game: GameView, fresh: Point)
    requires
        game.inv(),
        game.lost,
    ensures
        game.next(fresh).lost,
        game.next(fresh).snake == game.snake,
        game.next(fresh).score == game.score,
        game.next(fresh).pellets == game.pellets,
{
}

/// Whatever happens, the game stays in order.
pub proof fn lemma_run_inv(game: GameView, events: Seq<Event>)
    requires
        game.inv(),
        game.admits(events),
    ensures
        game.run(events).inv(),
        game.run(events).field == game.field,
        game.run(events).walls == game.walls,
    decreases events.len(),
{
    if events.len() > 0 {
        let earlier = events.drop_last();
        assert forall|i: int| 0 <= i < earlier.len() implies (#[trigger] earlier[i] matches Event::Tick(
            fresh,
        ) ==> game.field.contains(&fresh)) by {
            assert(earlier[i] == events[i]);
        }
        lemma_run_inv(game, earlier);
        let before = game.run(earlier);
        match events.last() {
            Event::Key(key) => {},
            Event::Tick(fresh) => {
                assert(events[events.len() - 1] == events.last());
                lemma_tick_inv(before, fresh);
            },
        }
    }
}

/// After any course of events the score has risen by the number of
/// pellets eaten, and the body has one segment for each point of the score
/// on top of its first length.
pub proof fn lemma_run_length(game: GameView, events: Seq<Event>)
    requires
        game.inv(),
        game.admits(events),
    ensures
        game.run(events).score == game.score + game.eaten(events),
        game.run(events).snake.body.len() == INITIAL_LENGTH + game.score + game.eaten(events),
    decreases events.len(),
{
    lemma_run_inv(game, events);
    if events.len() > 0 {
        let earlier = events.drop_last();
        assert forall|i: int| 0 <= i < earlier.len() implies (#[trigger] earlier[i] matches Event::Tick(
            fresh,
        ) ==> game.field.contains(&fresh)) by {
            assert(earlier[i] == events[i]);
        }
        lemma_run_length(game, earlier);
        lemma_run_inv(game, earlier);
        let before = game.run(earlier);
        match events.last() {
            Event::Key(key) => {},
            Event::Tick(fresh) => {
                lemma_tick_eats(before, fresh);
            },
        }
    }
}

/// Only a reversal on the spot is drawn with the broken glyph.
pub proof fn lemma_turn_symbol_unbroken(previous: Direction, current: Direction)
    ensures
        spec_turn_symbol(previous, current) == BROKEN_SYMBOL <==> current == previous.opposite(),
{
}

/// The first snake has never reversed, and a snake that has never reversed
/// stays so whatever it is asked to do: the broken glyph is never drawn.
pub proof fn lemma_snake_stays_unbroken(snake: SnakeView, d: Direction, grow: bool)
    ensures
        SnakeView::initial().unbroken(),
        snake.unbroken() ==> snake.set_direction(d).unbroken(),
        snake.unbroken() ==> snake.crawl(grow).unbroken(),
        snake.unbroken() ==> snake.kill().unbroken(),
{
    if snake.unbroken() {
        lemma_turn_symbol_unbroken(snake.previous_heading, snake.heading);
        let moved = snake.crawl(grow);
        assert forall|i: int| 0 <= i < moved.body.len() implies (#[trigger] moved.body[i]).symbol
            != BROKEN_SYMBOL by {
            if i > 0 {
                assert(moved.body[i] == snake.body[i - 1]);
            }
        }
    }
}

} // verus!
