//! The snake: its head, its heading and the segments of its body.

use vstd::prelude::*;
use std::collections::VecDeque;
use crate::direction::Direction;
use crate::geometry::Point;
use crate::glyph::{head_glyph, head_symbol, segment_glyph, Color, Glyph, Style};

verus! {

/// The number of body segments of a new snake.
pub const INITIAL_LENGTH: usize = 6;

/// The glyph of a body segment whose two turns do not fit together.
pub const BROKEN_SYMBOL: char = '#';

/// One cell of the snake's body and the glyph it is drawn with. The glyph is
/// chosen when the segment is made and never changes.
#[derive(Copy, Clone, Debug, PartialEq, Eq, Structural)]
pub struct Segment {
    pub position: Point,
    pub symbol: char,
}

impl Segment {
    /// A segment at `position` drawn as `symbol`.
    pub fn new(position: Point, symbol: char) -> (segment: Segment)
        ensures
            segment.position == position,
            segment.symbol == symbol,
    {
        Self { position, symbol }
    }
}

/// The line-drawing glyph that joins side `a` of a cell to side `b`.
/// Joining a side to itself is not a line: that gives [`BROKEN_SYMBOL`].
pub open spec fn connector(a: Direction, b: Direction) -> char {
    if a == b {
        BROKEN_SYMBOL
    } else if a == b.opposite() {
        if a.is_vertical() {
            '│'
        } else {
            '─'
        }
    } else {
        let vertical = if a.is_vertical() {
            a
        } else {
            b
        };
        let horizontal = if a.is_vertical() {
            b
        } else {
            a
        };
        match (vertical, horizontal) {
            (Direction::Down, Direction::Right) => '╭',
            (Direction::Down, _) => '╮',
            (_, Direction::Right) => '╰',
            _ => '╯',
        }
    }
}

/// The glyph of the segment that the snake leaves behind when it arrived
/// travelling `previous` and departs travelling `current`: the cell was
/// entered through the side that `previous` comes from and is left through
/// the side that `current` points to.
pub open spec fn spec_turn_symbol(previous: Direction, current: Direction) -> char {
    connector(previous.opposite(), current)
}

/// The glyph for a body segment, from the heading before the last turn and
/// the heading after it. Straight travel gives a line along its axis, each
/// of the four turns its own corner, and a reversal [`BROKEN_SYMBOL`].
#[verifier::when_used_as_spec(spec_turn_symbol)]
pub fn turn_symbol(previous: Direction, current: Direction) -> (symbol: char)
    ensures
        symbol == spec_turn_symbol(previous, current),
{
    match (previous, current) {
        (Direction::Up, Direction::Up) | (Direction::Down, Direction::Down) => '│',
        (Direction::Left, Direction::Left) | (Direction::Right, Direction::Right) => '─',
        (Direction::Up, Direction::Right) | (Direction::Left, Direction::Down) => '╭',
        (Direction::Up, Direction::Left) | (Direction::Right, Direction::Down) => '╮',
        (Direction::Down, Direction::Left) | (Direction::Right, Direction::Up) => '╯',
        (Direction::Down, Direction::Right) | (Direction::Left, Direction::Up) => '╰',
        _ => BROKEN_SYMBOL,
    }
}

/// The mathematical state of a snake.
pub struct SnakeView {
    /// The cell of the head.
    pub head: Point,
    /// The direction of travel.
    pub heading: Direction,
    /// The direction of travel before the last accepted change of direction.
    pub previous_heading: Direction,
    /// The body, from the neck (index 0) to the tip of the tail.
    pub body: Seq<Segment>,
    /// Whether the snake is alive.
    pub alive: bool,
}

impl SnakeView {
    /// The snake at the start of a game: the head at `(10, 10)`, heading
    /// right, with a straight body of [`INITIAL_LENGTH`] segments to its left.
    pub open spec fn initial() -> SnakeView {
        SnakeView {
            head: Point { x: 10, y: 10 },
            heading: Direction::Right,
            previous_heading: Direction::Right,
            body: Seq::new(
                INITIAL_LENGTH as nat,
                |i: int| Segment { position: Point { x: (9 - i) as usize, y: 10 }, symbol: '─' },
            ),
            alive: true,
        }
    }

    /// The snake has never reversed on the spot: its last turn was no
    /// reversal, and no segment of its body is drawn with
    /// [`BROKEN_SYMBOL`].
    pub open spec fn unbroken(self) -> bool {
        &&& self.heading != self.previous_heading.opposite()
        &&& forall|i: int|
            0 <= i < self.body.len() ==> (#[trigger] self.body[i]).symbol != BROKEN_SYMBOL
    }

    /// Whether a body segment lies on cell `p`.
    pub open spec fn occupies(self, p: Point) -> bool {
        exists|i: int| 0 <= i < self.body.len() && #[trigger] self.body[i].position == p
    }

    /// Whether the head lies on a cell of the body.
    pub open spec fn eating_itself(self) -> bool {
        self.occupies(self.head)
    }

    /// Whether a change of heading to `d` is accepted: the snake is alive
    /// and `d` is not the reverse of the heading.
    pub open spec fn accepts(self, d: Direction) -> bool {
        self.alive && d != self.heading.opposite()
    }

    /// The snake after a request to head in direction `d`.
    pub open spec fn set_direction(self, d: Direction) -> SnakeView {
        if self.accepts(d) {
            SnakeView { heading: d, previous_heading: self.heading, ..self }
        } else {
            self
        }
    }

    /// The snake after its death.
    pub open spec fn kill(self) -> SnakeView {
        SnakeView { alive: false, ..self }
    }

    /// Whether the cell ahead of the head has representable coordinates.
    pub open spec fn can_crawl(self) -> bool {
        self.head.has_neighbor(self.heading)
    }

    /// The segment that takes the place of the head when the snake moves on.
    pub open spec fn neck(self) -> Segment {
        Segment {
            position: self.head,
            symbol: spec_turn_symbol(self.previous_heading, self.heading),
        }
    }

    /// The snake after one move: the tip of the tail goes unless the snake
    /// grows, the old head cell becomes the neck, and the head advances one
    /// cell along the heading.
    pub open spec fn crawl(self, grow: bool) -> SnakeView {
        let kept = if grow || self.body.len() == 0 {
            self.body
        } else {
            self.body.drop_last()
        };
        SnakeView {
            head: self.head.neighbor(self.heading),
            body: seq![self.neck()] + kept,
            ..self
        }
    }
}

/// The snake.
pub struct Snake {
    position: Point,
    direction: Direction,
    old_direction: Direction,
    tail: VecDeque<Segment>,
    is_dead: bool,
}

impl View for Snake {
    type V = SnakeView;

    closed spec fn view(&self) -> SnakeView {
        SnakeView {
            head: self.position,
            heading: self.direction,
            previous_heading: self.old_direction,
            body: self.tail@,
            alive: !self.is_dead,
        }
    }
}

impl Snake {
    /// The snake at the start of a game.
    pub fn new() -> (snake: Self)
        ensures
            snake@ == SnakeView::initial(),
            !snake@.eating_itself(),
    {
        let mut tail: VecDeque<Segment> = VecDeque::new();
        tail.push_back(Segment::new(Point::new(9, 10), '─'));
        tail.push_back(Segment::new(Point::new(8, 10), '─'));
        tail.push_back(Segment::new(Point::new(7, 10), '─'));
        tail.push_back(Segment::new(Point::new(6, 10), '─'));
        tail.push_back(Segment::new(Point::new(5, 10), '─'));
        tail.push_back(Segment::new(Point::new(4, 10), '─'));
        let snake = Self {
            position: Point::new(10, 10),
            direction: Direction::Right,
            old_direction: Direction::Right,
            tail,
            is_dead: false,
        };
        assert(snake@.body =~= SnakeView::initial().body);
        snake
    }

    /// The cell of the head.
    pub fn position(&self) -> (head: &Point)
        ensures
            *head == self@.head,
    {
        &self.position
    }

    /// The direction of travel.
    pub fn direction(&self) -> (heading: &Direction)
        ensures
            *heading == self@.heading,
    {
        &self.direction
    }

    /// Whether the snake has been killed.
    pub fn is_dead(&self) -> (dead: bool)
        ensures
            dead == !self@.alive,
    {
        self.is_dead
    }

    /// The number of body segments.
    pub fn len(&self) -> (n: usize)
        ensures
            n == self@.body.len(),
    {
        self.tail.len()
    }

    /// The body of a snake in memory has a length that fits a `usize`.
    pub proof fn lemma_len_bounded(&self)
        ensures
            self@.body.len() <= usize::MAX,
    {
        assert(self.tail.len() == self.tail@.len());
    }

    /// The body, from the neck to the tip of the tail.
    pub fn body(&self) -> (segments: Vec<Segment>)
        ensures
            segments@ == self@.body,
    {
        let mut segments: Vec<Segment> = Vec::new();
        let mut i: usize = 0;
        while i < self.tail.len()
            invariant
                i <= self.tail@.len(),
                segments@ == self.tail@.subrange(0, i as int),
            decreases self.tail@.len() - i,
        {
            segments.push(self.tail[i]);
            i += 1;
            assert(segments@ =~= self.tail@.subrange(0, i as int));
        }
        assert(segments@ =~= self.tail@);
        segments
    }

    /// Moves the snake one cell along its heading. The cell that the head
    /// leaves becomes the first body segment; the last body segment is
    /// removed unless `grow` is set.
    pub fn crawl(&mut self, grow: bool)
        requires
            old(self)@.can_crawl(),
        ensures
            final(self)@ == old(self)@.crawl(grow),
    {
        if !grow {
            self.remove_tail_segment();
        }
        self.grow_head_segment();

        match self.direction {
            Direction::Up => self.position.y -= 1,
            Direction::Down => self.position.y += 1,
            Direction::Left => self.position.x -= 1,
            Direction::Right => self.position.x += 1,
        }
    }

    fn remove_tail_segment(&mut self)
        ensures
            final(self)@ == (SnakeView {
                body: if old(self)@.body.len() == 0 {
                    old(self)@.body
                } else {
                    old(self)@.body.drop_last()
                },
                ..old(self)@
            }),
    {
        self.tail.pop_back();
    }

    fn grow_head_segment(&mut self)
        ensures
            final(self)@ == (SnakeView {
                body: seq![old(self)@.neck()] + old(self)@.body,
                ..old(self)@
            }),
    {
        let symbol = turn_symbol(self.old_direction, self.direction);
        let new_segment = Segment::new(self.position, symbol);
        self.tail.push_front(new_segment);
    }

    /// Whether the head lies on a cell of the body.
    pub fn eating_itself(&self) -> (eating: bool)
        ensures
            eating == self@.eating_itself(),
    {
        let mut i: usize = 0;
        while i < self.tail.len()
            invariant
                i <= self.tail@.len(),
                forall|j: int| 0 <= j < i ==> (#[trigger] self.tail@[j]).position != self.position,
            decreases self.tail@.len() - i,
        {
            if self.tail[i].position == self.position {
                assert(self@.body[i as int].position == self@.head);
                return true;
            }
            i += 1;
        }
        false
    }

    /// Asks the snake to head in `new_direction`. A dead snake ignores the
    /// request, and so does a snake asked to reverse.
    pub fn set_direction(&mut self, new_direction: Direction)
        ensures
            final(self)@ == old(self)@.set_direction(new_direction),
            final(self)@.heading != old(self)@.heading.opposite(),
    {
        if self.is_dead || new_direction == self.direction.opposite() {
            return ;
        }
        self.old_direction = self.direction;
        self.direction = new_direction;
    }

    /// The glyphs that draw the snake: the body from the neck to the tip of
    /// the tail, then the head on top of them.
    pub fn render(&self) -> (glyphs: Vec<Glyph>)
        ensures
            glyphs@ == self@.render(),
    {
        let mut glyphs: Vec<Glyph> = Vec::new();
        let mut i: usize = 0;
        while i < self.tail.len()
            invariant
                i <= self.tail@.len(),
                glyphs@.len() == i,
                forall|j: int| 0 <= j < i ==> glyphs@[j] == segment_glyph(self.tail@[j]),
            decreases self.tail@.len() - i,
        {
            let segment = self.tail[i];
            glyphs.push(
                Glyph {
                    x: segment.position.x,
                    y: segment.position.y,
                    style: Style::Normal,
                    foreground: Color::Yellow,
                    background: Color::Green,
                    symbol: segment.symbol,
                },
            );
            i += 1;
        }
        let head_color = match self.is_dead {
            true => Color::Red,
            false => Color::Yellow,
        };
        glyphs.push(
            Glyph {
                x: self.position.x,
                y: self.position.y,
                style: Style::Bold,
                foreground: head_color,
                background: Color::Green,
                symbol: head_symbol(self.direction),
            },
        );
        assert(glyphs@ =~= self@.render());
        glyphs
    }

    /// Marks the snake dead. Killing a dead snake changes nothing.
    pub fn kill(&mut self)
        ensures
            final(self)@ == old(self)@.kill(),
    {
        self.is_dead = true;
    }
}

} // verus!
