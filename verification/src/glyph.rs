//! What the game asks a display to draw: single characters on cells, each
//! with a style and two colours.

use vstd::prelude::*;
use crate::direction::Direction;
use crate::geometry::Point;
use crate::snake::{Segment, SnakeView};

verus! {

/// The colours the game draws with.
#[derive(Copy, Clone, Debug, PartialEq, Eq, Hash, Structural)]
pub enum Color {
    /// The colour that the terminal uses by itself.
    Default,
    Red,
    Green,
    Yellow,
    Blue,
}

/// The weight of a character.
#[derive(Copy, Clone, Debug, PartialEq, Eq, Hash, Structural)]
pub enum Style {
    Normal,
    Bold,
}

/// One character to draw on one cell of the display.
#[derive(Copy, Clone, Debug, PartialEq, Eq, Structural)]
pub struct Glyph {
    pub x: usize,
    pub y: usize,
    pub style: Style,
    pub foreground: Color,
    pub background: Color,
    pub symbol: char,
}

/// A pellet: a red cell.
pub open spec fn pellet_glyph(cell: Point) -> Glyph {
    Glyph {
        x: cell.x,
        y: cell.y,
        style: Style::Bold,
        foreground: Color::Default,
        background: Color::Red,
        symbol: ' ',
    }
}

/// A wall: a hash on blue.
pub open spec fn wall_glyph(cell: Point) -> Glyph {
    Glyph {
        x: cell.x,
        y: cell.y,
        style: Style::Normal,
        foreground: Color::Default,
        background: Color::Blue,
        symbol: '#',
    }
}

/// A piece of the border around the field.
pub open spec fn border_glyph(x: int, y: int, symbol: char) -> Glyph {
    Glyph {
        x: x as usize,
        y: y as usize,
        style: Style::Normal,
        foreground: Color::Default,
        background: Color::Blue,
        symbol,
    }
}

/// A segment of the snake's body: its own line glyph, yellow on green.
pub open spec fn segment_glyph(segment: Segment) -> Glyph {
    Glyph {
        x: segment.position.x,
        y: segment.position.y,
        style: Style::Normal,
        foreground: Color::Yellow,
        background: Color::Green,
        symbol: segment.symbol,
    }
}

/// The arrow that stands for a head travelling in direction `heading`.
pub open spec fn spec_head_symbol(heading: Direction) -> char {
    match heading {
        Direction::Up => '↑',
        Direction::Down => '↓',
        Direction::Left => '←',
        Direction::Right => '→',
    }
}

/// The head of the snake: an arrow along the heading, bold on green,
/// yellow while the snake lives and red once it is dead.
pub open spec fn head_glyph(snake: SnakeView) -> Glyph {
    Glyph {
        x: snake.head.x,
        y: snake.head.y,
        style: Style::Bold,
        foreground: if snake.alive {
            Color::Yellow
        } else {
            Color::Red
        },
        background: Color::Green,
        symbol: spec_head_symbol(snake.heading),
    }
}

/// The glyph that draws `symbol` on cell `(x, y)`.
pub open spec fn glyph_at(
    x: int,
    y: int,
    style: Style,
    foreground: Color,
    background: Color,
    symbol: char,
) -> Glyph {
    Glyph { x: x as usize, y: y as usize, style, foreground, background, symbol }
}

/// A line of text from cell `(x, y)` to the right, one glyph for each
/// character.
pub open spec fn text_glyphs(
    x: int,
    y: int,
    style: Style,
    foreground: Color,
    background: Color,
    text: Seq<char>,
) -> Seq<Glyph> {
    Seq::new(text.len(), |i: int| glyph_at(x + i, y, style, foreground, background, text[i]))
}

impl SnakeView {
    /// The snake as it is drawn: the body from the neck to the tip of the
    /// tail, then the head on top.
    pub open spec fn render(self) -> Seq<Glyph> {
        Seq::new(self.body.len(), |i: int| segment_glyph(self.body[i])).push(head_glyph(self))
    }
}

/// The arrow that stands for a head travelling in direction `heading`.
#[verifier::when_used_as_spec(spec_head_symbol)]
pub fn head_symbol(heading: Direction) -> (symbol: char)
    ensures
        symbol == spec_head_symbol(heading),
{
    match heading {
        Direction::Up => '↑',
        Direction::Down => '↓',
        Direction::Left => '←',
        Direction::Right => '→',
    }
}

/// Appends `text` to `glyphs` as a line from cell `(x, y)` to the right.
pub fn push_text(
    glyphs: &mut Vec<Glyph>,
    x: usize,
    y: usize,
    style: Style,
    foreground: Color,
    background: Color,
    text: &Vec<char>,
)
    requires
        x + text@.len() <= usize::MAX,
    ensures
        final(glyphs)@ == old(glyphs)@ + text_glyphs(
            x as int,
            y as int,
            style,
            foreground,
            background,
            text@,
        ),
{
    let ghost line = text_glyphs(x as int, y as int, style, foreground, background, text@);
    let mut i: usize = 0;
    assert(glyphs@ =~= old(glyphs)@ + line.subrange(0, 0));
    while i < text.len()
        invariant
            i <= text@.len(),
            x + text@.len() <= usize::MAX,
            line == text_glyphs(x as int, y as int, style, foreground, background, text@),
            line.len() == text@.len(),
            glyphs@ == old(glyphs)@ + line.subrange(0, i as int),
        decreases text@.len() - i,
    {
        let glyph = Glyph { x: x + i, y, style, foreground, background, symbol: text[i] };
        assert(glyph == line[i as int]);
        assert(line.subrange(0, i + 1) =~= line.subrange(0, i as int).push(glyph));
        glyphs.push(glyph);
        i += 1;
    }
    assert(line.subrange(0, i as int) =~= line);
}

} // verus!
